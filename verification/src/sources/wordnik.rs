//! Wordnik's English definitions.
use vstd::prelude::*;
use vstd::utf8::encode_utf8;
use crate::sources::{DictEntry, DictEntryView, SourceError};
use crate::text::{chars_of, is_ascii_alnum, owned, push_char, push_str, trim, trim_spec};
use crate::url::{pct_all_spec, push_pct_all};

verus! {

/// One item of the definitions answer.
#[derive(Debug, Clone)]
pub struct WordnikDef {
    pub text: Option<String>,
    pub part_of_speech: Option<String>,
    pub source_dictionary: Option<String>,
}

/// One character of a word in Wordnik's path: ASCII letters, digits, `-`
/// and `'` are kept, a space becomes `+`, anything else is written as the
/// `%XX` of each of its UTF-8 bytes.
pub open spec fn wordnik_char_spec(c: char) -> Seq<char> {
    if is_ascii_alnum(c) || c == '-' || c == '\'' {
        seq![c]
    } else if c == ' ' {
        seq!['+']
    } else {
        pct_all_spec(encode_utf8(seq![c]))
    }
}

pub open spec fn wordnik_encode_spec(s: Seq<char>) -> Seq<char>
    decreases s.len(),
{
    if s.len() == 0 {
        seq![]
    } else {
        wordnik_encode_spec(s.drop_last()) + wordnik_char_spec(s.last())
    }
}

/// The word as it stands in Wordnik's request path.
pub fn wordnik_encode(spell: &str) -> (r: String)
    ensures
        r@ == wordnik_encode_spec(spell@),
{
    let v = chars_of(spell);
    let mut r = String::new();
    let mut i: usize = 0;
    while i < v.len()
        invariant
            i <= v.len(),
            v@ == spell@,
            r@ == wordnik_encode_spec(v@.take(i as int)),
        decreases v.len() - i,
    {
        assert(v@.take((i + 1) as int).drop_last() == v@.take(i as int));
        let c = v[i];
        if ('a' <= c && c <= 'z') || ('A' <= c && c <= 'Z') || ('0' <= c && c <= '9') || c == '-'
            || c == '\'' {
            push_char(&mut r, c);
        } else if c == ' ' {
            push_char(&mut r, '+');
        } else {
            let mut one = String::new();
            push_char(&mut one, c);
            assert(one@ == seq![c]);
            let bytes = one.as_str().as_bytes();
            push_pct_all(&mut r, bytes);
        }
        i += 1;
    }
    assert(v@.take(v.len() as int) == v@);
    r
}

/// The definitions URL for a word: `<base>/<word>/definitions`; without
/// an API key there is nothing to ask.
pub fn wordnik_definitions_url(base: &str, api_key: &str, spell: &str) -> (r: Result<
    String,
    SourceError,
>)
    ensures
        api_key@.len() == 0 ==> r matches Err(SourceError::NoApiKey),
        api_key@.len() > 0 ==> (r matches Ok(u) && u@ == base@ + "/"@ + wordnik_encode_spec(spell@)
            + "/definitions"@),
{
    if api_key.unicode_len() == 0 {
        return Err(SourceError::NoApiKey);
    }
    let mut u = String::new();
    push_str(&mut u, base);
    push_str(&mut u, "/");
    let e = wordnik_encode(spell);
    push_str(&mut u, e.as_str());
    push_str(&mut u, "/definitions");
    Ok(u)
}

/// Part of speech and source dictionary, joined by ` · `, whichever are
/// present and non-empty.
pub open spec fn wordnik_extra_spec(pos: Seq<char>, src: Seq<char>) -> Option<Seq<char>> {
    if pos.len() > 0 && src.len() > 0 {
        Some(pos + " · "@ + src)
    } else if pos.len() > 0 {
        Some(pos)
    } else if src.len() > 0 {
        Some(src)
    } else {
        None
    }
}

/// An absent value counts as empty.
pub open spec fn or_empty(o: Option<String>) -> Seq<char> {
    match o {
        Some(s) => s@,
        None => Seq::<char>::empty(),
    }
}

/// The rows of a successful answer: every definition whose text is not
/// blank, trimmed, in order.
pub open spec fn wordnik_entries_spec(spell: Seq<char>, defs: Seq<WordnikDef>) -> Seq<DictEntryView>
    decreases defs.len(),
{
    if defs.len() == 0 {
        seq![]
    } else {
        let d = defs.last();
        wordnik_entries_spec(spell, defs.drop_last()) + match d.text {
            Some(t) => if trim_spec(t@).len() == 0 {
                seq![]
            } else {
                seq![
                    DictEntryView {
                        headword: spell,
                        definition: trim_spec(t@),
                        extra: wordnik_extra_spec(
                            or_empty(d.part_of_speech),
                            or_empty(d.source_dictionary),
                        ),
                    },
                ]
            },
            None => seq![],
        }
    }
}

fn opt_or_empty(o: &Option<String>) -> (r: String)
    ensures
        r@ == or_empty(*o),
{
    match o {
        Some(s) => s.clone(),
        None => String::new(),
    }
}

pub fn wordnik_entries(spell: &str, defs: &Vec<WordnikDef>) -> (r: Vec<DictEntry>)
    ensures
        r@.map_values(|e: DictEntry| e@) == wordnik_entries_spec(spell@, defs@),
{
    let mut r: Vec<DictEntry> = Vec::new();
    let mut i: usize = 0;
    while i < defs.len()
        invariant
            i <= defs.len(),
            r@.map_values(|e: DictEntry| e@) == wordnik_entries_spec(spell@, defs@.take(i as int)),
        decreases defs.len() - i,
    {
        assert(defs@.take((i + 1) as int).drop_last() == defs@.take(i as int));
        let d = &defs[i];
        match &d.text {
            Some(t) => {
                let text = trim(t.as_str());
                if text.as_str().unicode_len() > 0 {
                    let pos = opt_or_empty(&d.part_of_speech);
                    let src = opt_or_empty(&d.source_dictionary);
                    let np = pos.as_str().unicode_len() > 0;
                    let ns = src.as_str().unicode_len() > 0;
                    let extra = if np && ns {
                        let mut x = pos;
                        push_str(&mut x, " · ");
                        push_str(&mut x, src.as_str());
                        Some(x)
                    } else if np {
                        Some(pos)
                    } else if ns {
                        Some(src)
                    } else {
                        None
                    };
                    let e = DictEntry { headword: owned(spell), definition: text, extra };
                    let ghost before = r@;
                    r.push(e);
                    assert(r@.map_values(|e: DictEntry| e@) == before.map_values(|e: DictEntry| e@).push(e@));
                }
            },
            None => {},
        }
        i += 1;
    }
    assert(defs@.take(defs.len() as int) == defs@);
    r
}

} // verus!
