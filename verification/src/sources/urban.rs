//! Urban Dictionary: the most up-voted definitions, cleaned.
use vstd::prelude::*;
use crate::sources::{DictEntry, DictEntryView, URBAN_EXAMPLE_SEP};
use crate::text::{
    chars_of, collapse_whitespace_chars, collapse_ws_spec, int_decimal_spec, owned, push_i64,
    push_str, take_chars, take_chars_spec, trim, trim_spec,
};

verus! {

/// Number of definitions kept.
pub const TOP_N: usize = 3;

/// Definitions and examples are cut to this many characters.
pub const MAX_DEF_CHARS: usize = 220;

/// One item of the service's `list`.
#[derive(Debug, Clone)]
pub struct UrbanItem {
    pub definition: String,
    /// Empty when the item has none.
    pub example: String,
    pub thumbs_up: i64,
    pub thumbs_down: i64,
}

/// `s` without the `[`/`]` Urban wraps cross-references in.
pub open spec fn unbracket_spec(s: Seq<char>) -> Seq<char>
    decreases s.len(),
{
    if s.len() == 0 {
        seq![]
    } else if s.last() == '[' || s.last() == ']' {
        unbracket_spec(s.drop_last())
    } else {
        unbracket_spec(s.drop_last()).push(s.last())
    }
}

/// A cleaned text: brackets removed, whitespace collapsed, cut to
/// `MAX_DEF_CHARS` characters with `…` when longer.
pub open spec fn clean_spec(s: Seq<char>) -> Seq<char> {
    let c = collapse_ws_spec(unbracket_spec(s));
    if c.len() > MAX_DEF_CHARS {
        c.take(MAX_DEF_CHARS as int) + "…"@
    } else {
        c
    }
}

pub fn clean(s: &str) -> (r: String)
    ensures
        r@ == clean_spec(s@),
{
    let v = chars_of(s);
    let mut kept: Vec<char> = Vec::new();
    let mut i: usize = 0;
    while i < v.len()
        invariant
            i <= v.len(),
            v@ == s@,
            kept@ == unbracket_spec(v@.take(i as int)),
        decreases v.len() - i,
    {
        assert(v@.take((i + 1) as int).drop_last() == v@.take(i as int));
        if v[i] != '[' && v[i] != ']' {
            kept.push(v[i]);
        }
        i += 1;
    }
    assert(v@.take(v.len() as int) == v@);
    let c = collapse_whitespace_chars(&kept);
    if c.as_str().unicode_len() > MAX_DEF_CHARS {
        let mut r = take_chars(c.as_str(), MAX_DEF_CHARS);
        push_str(&mut r, "…");
        r
    } else {
        c
    }
}

/// The definition text of an item: its cleaned definition, then, when
/// the example is not blank, the example separator and the cleaned
/// example.
pub open spec fn urban_definition_spec(item: UrbanItem) -> Seq<char> {
    clean_spec(item.definition@) + if trim_spec(item.example@).len() > 0 {
        URBAN_EXAMPLE_SEP@ + clean_spec(item.example@)
    } else {
        Seq::<char>::empty()
    }
}

/// The vote line: `👍 <up>  👎 <down>`.
pub open spec fn votes_text(up: i64, down: i64) -> Seq<char> {
    "👍 "@ + int_decimal_spec(up as int) + "  👎 "@ + int_decimal_spec(down as int)
}

/// The row an item becomes.
pub open spec fn urban_entry_spec(spell: Seq<char>, item: UrbanItem) -> DictEntryView {
    DictEntryView {
        headword: spell,
        definition: urban_definition_spec(item),
        extra: Some(votes_text(item.thumbs_up, item.thumbs_down)),
    }
}

/// Item `a` comes before item `b` (indices into `items`): more up-votes
/// first, ties in the order received.
pub open spec fn ranks_before(items: Seq<UrbanItem>, a: int, b: int) -> bool {
    items[a].thumbs_up > items[b].thumbs_up || (items[a].thumbs_up == items[b].thumbs_up && a < b)
}

/// `order` lists every index of `items` once, most up-voted first, ties
/// in the order received (a stable sort by descending up-votes).
pub open spec fn is_vote_order(items: Seq<UrbanItem>, order: Seq<int>) -> bool {
    &&& order.len() == items.len()
    &&& forall|k: int| 0 <= k < order.len() ==> 0 <= #[trigger] order[k] < items.len()
    &&& forall|k: int, l: int| 0 <= k < l < order.len() ==> order[k] != order[l]
    &&& forall|k: int, l: int|
        0 <= k < l < order.len() ==> ranks_before(items, #[trigger] order[k], #[trigger] order[l])
}

/// The indices `0..n` of `items` in vote order.
fn vote_order(items: &Vec<UrbanItem>) -> (r: Vec<usize>)
    ensures
        is_vote_order(items@, r@.map_values(|x: usize| x as int)),
{
    let mut sorted: Vec<usize> = Vec::new();
    let mut i: usize = 0;
    while i < items.len()
        invariant
            i <= items.len(),
            sorted@.len() == i,
            forall|k: int| 0 <= k < sorted@.len() ==> #[trigger] sorted@[k] < i,
            forall|k: int, l: int| 0 <= k < l < sorted@.len() ==> sorted@[k] != sorted@[l],
            forall|k: int, l: int|
                0 <= k < l < sorted@.len() ==> ranks_before(
                    items@,
                    #[trigger] sorted@[k] as int,
                    #[trigger] sorted@[l] as int,
                ),
        decreases items.len() - i,
    {
        let up = items[i].thumbs_up;
        let mut pos: usize = 0;
        while pos < sorted.len() && items[sorted[pos]].thumbs_up >= up
            invariant
                pos <= sorted@.len(),
                forall|k: int| 0 <= k < sorted@.len() ==> #[trigger] sorted@[k] < i,
                i < items@.len(),
                up == items@[i as int].thumbs_up,
                forall|k: int| 0 <= k < pos ==> items@[#[trigger] sorted@[k] as int].thumbs_up >= up,
            decreases sorted.len() - pos,
        {
            pos += 1;
        }
        let ghost old_sorted = sorted@;
        proof {
            // everything from `pos` on has strictly fewer up-votes
            assert forall|k: int| pos <= k < old_sorted.len() implies items@[#[trigger] old_sorted[k] as int].thumbs_up
                < up by {
                if k > pos {
                    assert(ranks_before(items@, old_sorted[pos as int] as int, old_sorted[k] as int));
                }
            }
        }
        sorted.insert(pos, i);
        proof {
            let s = sorted@;
            assert forall|k: int| 0 <= k < s.len() implies #[trigger] s[k] < i + 1 by {
                if k < pos {
                    assert(s[k] == old_sorted[k]);
                } else if k > pos {
                    assert(s[k] == old_sorted[k - 1]);
                }
            }
            assert forall|k: int, l: int| 0 <= k < l < s.len() implies s[k] != s[l] by {
                if k < pos && l < pos {
                    assert(s[k] == old_sorted[k] && s[l] == old_sorted[l]);
                } else if k < pos && l == pos {
                    assert(s[k] == old_sorted[k]);
                } else if k < pos && l > pos {
                    assert(s[k] == old_sorted[k] && s[l] == old_sorted[l - 1]);
                } else if k == pos {
                    assert(s[l] == old_sorted[l - 1]);
                } else {
                    assert(s[k] == old_sorted[k - 1] && s[l] == old_sorted[l - 1]);
                }
            }
            assert forall|k: int, l: int| 0 <= k < l < s.len() implies ranks_before(
                items@,
                #[trigger] s[k] as int,
                #[trigger] s[l] as int,
            ) by {
                if k < pos && l < pos {
                    assert(s[k] == old_sorted[k] && s[l] == old_sorted[l]);
                } else if k < pos && l == pos {
                    assert(s[k] == old_sorted[k]);
                } else if k < pos && l > pos {
                    assert(s[k] == old_sorted[k] && s[l] == old_sorted[l - 1]);
                } else if k == pos {
                    assert(s[l] == old_sorted[l - 1]);
                } else {
                    assert(s[k] == old_sorted[k - 1] && s[l] == old_sorted[l - 1]);
                }
            }
        }
        i += 1;
    }
    proof {
        let o = sorted@.map_values(|x: usize| x as int);
        assert forall|k: int, l: int| 0 <= k < l < o.len() implies ranks_before(
            items@,
            #[trigger] o[k],
            #[trigger] o[l],
        ) by {
            assert(o[k] == sorted@[k] as int && o[l] == sorted@[l] as int);
        }
        assert forall|k: int, l: int| 0 <= k < l < o.len() implies o[k] != o[l] by {
            assert(o[k] == sorted@[k] as int && o[l] == sorted@[l] as int);
        }
    }
    sorted
}

/// The row an item becomes.
pub fn urban_entry(spell: &str, item: &UrbanItem) -> (r: DictEntry)
    ensures
        r@ == urban_entry_spec(spell@, *item),
{
    let mut def = clean(item.definition.as_str());
    let ex = trim(item.example.as_str());
    if ex.as_str().unicode_len() > 0 {
        push_str(&mut def, URBAN_EXAMPLE_SEP);
        let ce = clean(item.example.as_str());
        push_str(&mut def, ce.as_str());
        assert(def@ == clean_spec(item.definition@) + (URBAN_EXAMPLE_SEP@ + clean_spec(item.example@)));
    } else {
        assert(def@ == clean_spec(item.definition@) + Seq::<char>::empty());
    }
    let mut extra = String::new();
    push_str(&mut extra, "👍 ");
    push_i64(&mut extra, item.thumbs_up);
    push_str(&mut extra, "  👎 ");
    push_i64(&mut extra, item.thumbs_down);
    DictEntry { headword: owned(spell), definition: def, extra: Some(extra) }
}

/// The rows for a successful answer: the `TOP_N` most up-voted items
/// (ties in the service's order), each cleaned, with the vote counts as
/// the row's extra text.
pub fn urban_entries(spell: &str, items: &Vec<UrbanItem>) -> (r: Vec<DictEntry>)
    ensures
        exists|order: Seq<int>|
            {
                &&& is_vote_order(items@, order)
                &&& r@.len() == if items@.len() < TOP_N {
                    items@.len()
                } else {
                    TOP_N as nat
                }
                &&& forall|k: int|
                    0 <= k < r@.len() ==> #[trigger] r@[k]@ == urban_entry_spec(
                        spell@,
                        items@[order[k]],
                    )
            },
{
    let order = vote_order(items);
    let ghost o = order@.map_values(|x: usize| x as int);
    let n = if items.len() < TOP_N {
        items.len()
    } else {
        TOP_N
    };
    let mut r: Vec<DictEntry> = Vec::new();
    let mut k: usize = 0;
    while k < n
        invariant
            k <= n,
            n <= items.len(),
            order@.len() == items.len(),
            o == order@.map_values(|x: usize| x as int),
            is_vote_order(items@, o),
            r@.len() == k,
            forall|j: int|
                0 <= j < k ==> #[trigger] r@[j]@ == urban_entry_spec(spell@, items@[o[j]]),
        decreases n - k,
    {
        let idx = order[k];
        assert(o[k as int] == idx as int);
        r.push(urban_entry(spell, &items[idx]));
        k += 1;
    }
    r
}

} // verus!
