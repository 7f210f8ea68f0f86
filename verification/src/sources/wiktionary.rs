//! Wiktionary's English definitions, grouped by part of speech.
use vstd::prelude::*;
use crate::text::{strip_tags, strip_tags_spec, views};

verus! {

/// One part-of-speech group of definitions.
#[derive(Debug, Clone, PartialEq)]
pub struct WkSense {
    pub pos: String,
    pub definitions: Vec<String>,
}

/// What the card shows from Wiktionary.
#[derive(Debug, Clone, PartialEq)]
pub struct WiktionaryData {
    pub senses: Vec<WkSense>,
}

impl Default for WiktionaryData {
    fn default() -> (r: Self)
        ensures
            r.senses@.len() == 0,
    {
        WiktionaryData { senses: Vec::new() }
    }
}

/// One entry of the English section: its part of speech and the raw
/// (HTML) definitions.
#[derive(Debug, Clone)]
pub struct WkRawDef {
    pub pos: String,
    pub definitions: Vec<String>,
}

/// The definitions with markup stripped, blanks dropped.
pub open spec fn clean_defs_spec(defs: Seq<String>) -> Seq<Seq<char>>
    decreases defs.len(),
{
    if defs.len() == 0 {
        seq![]
    } else {
        clean_defs_spec(defs.drop_last()) + if strip_tags_spec(defs.last()@).len() == 0 {
            seq![]
        } else {
            seq![strip_tags_spec(defs.last()@)]
        }
    }
}

/// A sense as plain values.
pub open spec fn sense_view(s: WkSense) -> (Seq<char>, Seq<Seq<char>>) {
    (s.pos@, views(s.definitions@))
}

/// The senses kept: entries with at least one non-blank definition.
pub open spec fn senses_spec(raw: Seq<WkRawDef>) -> Seq<(Seq<char>, Seq<Seq<char>>)>
    decreases raw.len(),
{
    if raw.len() == 0 {
        seq![]
    } else {
        senses_spec(raw.drop_last()) + if clean_defs_spec(raw.last().definitions@).len() == 0 {
            seq![]
        } else {
            seq![(raw.last().pos@, clean_defs_spec(raw.last().definitions@))]
        }
    }
}

/// Whether a raw entry has at least one usable definition.
pub open spec fn has_usable_def(d: WkRawDef) -> bool {
    clean_defs_spec(d.definitions@).len() > 0
}

/// The senses are exactly the raw entries with a usable definition, in
/// their order, each with its part of speech and its cleaned definitions:
/// no such entry is dropped and no other is added.
pub proof fn lemma_senses_keep_every_usable_entry(raw: Seq<WkRawDef>)
    ensures
        senses_spec(raw) == raw.filter(|d: WkRawDef| has_usable_def(d)).map_values(
            |d: WkRawDef| (d.pos@, clean_defs_spec(d.definitions@)),
        ),
        senses_spec(raw).len() == raw.filter(|d: WkRawDef| has_usable_def(d)).len(),
    decreases raw.len(),
{
    reveal(Seq::filter);
    let f = |d: WkRawDef| (d.pos@, clean_defs_spec(d.definitions@));
    let p = |d: WkRawDef| has_usable_def(d);
    if raw.len() > 0 {
        lemma_senses_keep_every_usable_entry(raw.drop_last());
        let before = raw.drop_last().filter(p);
        if p(raw.last()) {
            assert(raw.filter(p) == before.push(raw.last()));
            assert(before.push(raw.last()).map_values(f) =~= before.map_values(f).push(
                f(raw.last()),
            ));
        } else {
            assert(raw.filter(p) == before);
        }
        assert(senses_spec(raw) =~= raw.filter(p).map_values(f));
    }
}

fn clean_defs(defs: &Vec<String>) -> (r: Vec<String>)
    ensures
        views(r@) == clean_defs_spec(defs@),
{
    let mut r: Vec<String> = Vec::new();
    let mut i: usize = 0;
    while i < defs.len()
        invariant
            i <= defs.len(),
            views(r@) == clean_defs_spec(defs@.take(i as int)),
        decreases defs.len() - i,
    {
        assert(defs@.take((i + 1) as int).drop_last() == defs@.take(i as int));
        let d = strip_tags(defs[i].as_str());
        if d.as_str().unicode_len() > 0 {
            let ghost before = r@;
            r.push(d);
            assert(views(r@) == views(before).push(d@));
        }
        i += 1;
    }
    assert(defs@.take(defs.len() as int) == defs@);
    r
}

/// What the card shows from the English section (if the page has one):
/// every entry with a usable definition, markup stripped; `None` when
/// there is no English section or nothing usable in it.
pub fn wiktionary_from_english(en: Option<Vec<WkRawDef>>) -> (r: Option<WiktionaryData>)
    ensures
        match en {
            None => r is None,
            Some(raw) => if senses_spec(raw@).len() == 0 {
                r is None
            } else {
                r matches Some(d) && d.senses@.map_values(|s: WkSense| sense_view(s))
                    == senses_spec(raw@)
            },
        },
{
    let raw = match en {
        Some(raw) => raw,
        None => {
            return None;
        },
    };
    let mut senses: Vec<WkSense> = Vec::new();
    let mut i: usize = 0;
    while i < raw.len()
        invariant
            i <= raw.len(),
            senses@.map_values(|s: WkSense| sense_view(s)) == senses_spec(raw@.take(i as int)),
        decreases raw.len() - i,
    {
        assert(raw@.take((i + 1) as int).drop_last() == raw@.take(i as int));
        let defs = clean_defs(&raw[i].definitions);
        if defs.len() > 0 {
            let ghost before = senses@;
            let pos = raw[i].pos.clone();
            senses.push(WkSense { pos, definitions: defs });
            assert(senses@.map_values(|s: WkSense| sense_view(s)) == before.map_values(
                |s: WkSense| sense_view(s),
            ).push((raw@[i as int].pos@, views(defs@))));
        }
        i += 1;
    }
    assert(raw@.take(raw.len() as int) == raw@);
    assert(senses@.map_values(|s: WkSense| sense_view(s)).len() == senses@.len());
    if senses.len() == 0 {
        None
    } else {
        Some(WiktionaryData { senses })
    }
}

} // verus!
