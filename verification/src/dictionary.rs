//! The local ECDICT dictionary: its records, and the prefix search that
//! is run against it.
use vstd::prelude::*;
use crate::text::{push_char, push_str, push_u64, remove_whitespace, remove_ws_spec, chars_of};

verus! {

/// Number of ECDICT rows asked for.
pub const SEARCH_LIMIT: u32 = 30;

/// One ECDICT record.
#[derive(Debug, Clone, PartialEq)]
pub struct StardictEntry {
    pub id: i64,
    pub word: String,
    pub sw: String,
    pub phonetic: Option<String>,
    pub definition: Option<String>,
    pub translation: Option<String>,
    pub pos: Option<String>,
    pub collins: Option<u32>,
    pub oxford: Option<u32>,
    pub tag: Option<String>,
    pub bnc: Option<i64>,
    pub frq: Option<i64>,
    pub exchange: Option<String>,
    pub detail: Option<String>,
    pub audio: Option<String>,
}

/// A present, non-empty field.
pub open spec fn nonempty_field(o: Option<String>) -> Option<Seq<char>> {
    match o {
        Some(s) => if s@.len() > 0 {
            Some(s@)
        } else {
            None
        },
        None => None,
    }
}

fn nonempty(o: &Option<String>) -> (r: Option<String>)
    ensures
        match r {
            Some(s) => nonempty_field(*o) == Some(s@),
            None => nonempty_field(*o) is None,
        },
{
    match o {
        Some(s) => if s.as_str().unicode_len() > 0 {
            Some(s.clone())
        } else {
            None
        },
        None => None,
    }
}

impl StardictEntry {
    /// The inflections (`exchange`) of the word, when recorded.
    pub fn exchange_info(&self) -> (r: Option<String>)
        ensures
            match r {
                Some(s) => nonempty_field(self.exchange) == Some(s@),
                None => nonempty_field(self.exchange) is None,
            },
    {
        nonempty(&self.exchange)
    }

    /// The exam tags (`tag`) of the word, when recorded.
    pub fn tag_info(&self) -> (r: Option<String>)
        ensures
            match r {
                Some(s) => nonempty_field(self.tag) == Some(s@),
                None => nonempty_field(self.tag) is None,
            },
    {
        nonempty(&self.tag)
    }
}

/// What the prefix search looks for: the query with all whitespace
/// removed (ECDICT's `sw` column holds words stripped the same way).
pub fn ecdict_query(spell: &str) -> (r: String)
    ensures
        r@ == remove_ws_spec(spell@),
{
    remove_whitespace(spell)
}

/// `s` with the LIKE wildcards `%`, `_` and the escape `\` escaped by a
/// backslash, then `%` appended: a pattern matching every string that
/// starts with `s` literally.
pub open spec fn like_escape_spec(s: Seq<char>) -> Seq<char>
    decreases s.len(),
{
    if s.len() == 0 {
        seq![]
    } else {
        like_escape_spec(s.drop_last()) + if s.last() == '\\' || s.last() == '%' || s.last() == '_' {
            seq!['\\', s.last()]
        } else {
            seq![s.last()]
        }
    }
}

pub open spec fn prefix_pattern_spec(s: Seq<char>) -> Seq<char> {
    like_escape_spec(s) + seq!['%']
}

/// The LIKE pattern for a prefix search of `spell`.
pub fn prefix_pattern(spell: &str) -> (r: String)
    ensures
        r@ == prefix_pattern_spec(spell@),
{
    let v = chars_of(spell);
    let mut r = String::new();
    let mut i: usize = 0;
    while i < v.len()
        invariant
            i <= v.len(),
            v@ == spell@,
            r@ == like_escape_spec(v@.take(i as int)),
        decreases v.len() - i,
    {
        assert(v@.take((i + 1) as int).drop_last() == v@.take(i as int));
        let c = v[i];
        if c == '\\' || c == '%' || c == '_' {
            push_char(&mut r, '\\');
        }
        push_char(&mut r, c);
        i += 1;
    }
    assert(v@.take(v.len() as int) == v@);
    push_char(&mut r, '%');
    r
}

/// The row limit actually asked for: at most 1000.
pub fn capped_limit(limit: u32) -> (r: u32)
    ensures
        r == if limit < 1000 {
            limit
        } else {
            1000
        },
{
    if limit < 1000 {
        limit
    } else {
        1000
    }
}

/// The parameters of a prefix search for `spell`: the LIKE pattern and
/// the row limit; none for an empty query, which finds nothing.
pub fn search_params(spell: &str, limit: u32) -> (r: Option<(String, u32)>)
    ensures
        spell@.len() == 0 <==> r is None,
        r matches Some((p, l)) ==> p@ == prefix_pattern_spec(spell@) && l == if limit < 1000 {
            limit
        } else {
            1000
        },
{
    if spell.unicode_len() == 0 {
        None
    } else {
        Some((prefix_pattern(spell), capped_limit(limit)))
    }
}

/// The SQL of the prefix search (`?1` the pattern, `?2` the limit).
pub const SEARCH_SQL: &'static str = "SELECT id, word, sw, phonetic, definition, translation, pos, collins, oxford, tag, bnc, frq, exchange, detail, audio FROM stardict WHERE sw LIKE ?1 ESCAPE '\\' LIMIT ?2";

} // verus!
