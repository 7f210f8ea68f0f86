//! Merriam-Webster's learner's dictionary and thesaurus. Both need an API
//! key; without one the source is skipped.
use vstd::prelude::*;
use crate::text::{
    chars_of, clone_strings, push_char, push_str, starts_with, starts_with_spec, strip_tags, strip_tags_spec,
    trim, trim_spec, views,
};
use crate::url::{word_url, word_url_spec};

verus! {

/// What the card shows from the learner's dictionary.
#[derive(Debug, Clone, PartialEq)]
pub struct MwLearnersData {
    pub pos: Option<String>,
    pub phonetic: Option<String>,
    pub audio_url: Option<String>,
    pub short_defs: Vec<String>,
}

impl Default for MwLearnersData {
    fn default() -> (r: Self)
        ensures
            r.pos is None && r.phonetic is None && r.audio_url is None && r.short_defs@.len() == 0,
    {
        MwLearnersData { pos: None, phonetic: None, audio_url: None, short_defs: Vec::new() }
    }
}

/// The thesaurus in its native sense-grouped shape: each inner list is
/// one sub-sense group.
#[derive(Debug, Clone, PartialEq)]
pub struct MwThesaurusData {
    pub synonym_groups: Vec<Vec<String>>,
    pub antonym_groups: Vec<Vec<String>>,
}

impl Default for MwThesaurusData {
    fn default() -> (r: Self)
        ensures
            r.synonym_groups@.len() == 0 && r.antonym_groups@.len() == 0,
    {
        MwThesaurusData { synonym_groups: Vec::new(), antonym_groups: Vec::new() }
    }
}

/// One pronunciation of a learner's entry (`hwi.prs[*]`).
#[derive(Debug, Clone)]
pub struct MwPron {
    pub ipa: Option<String>,
    /// `sound.audio`.
    pub audio: Option<String>,
}

/// One learner's entry: `fl`, `hwi.prs`, `shortdef`.
#[derive(Debug, Clone)]
pub struct MwLearnersRaw {
    pub fl: Option<String>,
    pub prs: Vec<MwPron>,
    pub shortdef: Vec<String>,
}

/// One thesaurus entry's `meta`: `syns` and `ants` groups.
#[derive(Debug, Clone)]
pub struct MwThesaurusRaw {
    pub meta: Option<(Vec<Vec<String>>, Vec<Vec<String>>)>,
}

/// The view of an optional string.
pub open spec fn optv(o: Option<String>) -> Option<Seq<char>> {
    match o {
        Some(s) => Some(s@),
        None => None,
    }
}

/// Request path for a word, or `None` without an API key: the word's
/// page under the base.
pub open spec fn mw_path_spec(base: Seq<char>, key: Seq<char>, spell: Seq<char>) -> Option<Seq<char>> {
    if key.len() == 0 {
        None
    } else {
        Some(word_url_spec(base, spell))
    }
}

pub fn mw_request_path(base: &str, key: &str, spell: &str) -> (r: Option<String>)
    ensures
        optv(r) == mw_path_spec(base@, key@, spell@),
{
    if key.unicode_len() == 0 {
        return None;
    }
    Some(word_url(base, spell))
}

pub open spec fn is_ascii_alpha(c: char) -> bool {
    ('a' <= c && c <= 'z') || ('A' <= c && c <= 'Z')
}

/// M-W's audio subdirectory: `bix` and `gg` prefixes have their own,
/// names not starting with a letter go to `number`, the rest to their
/// first letter.
pub open spec fn mw_audio_subdir(a: Seq<char>) -> Seq<char>
    recommends
        a.len() > 0,
{
    if starts_with_spec(a, "bix"@) {
        "bix"@
    } else if starts_with_spec(a, "gg"@) {
        "gg"@
    } else if !is_ascii_alpha(a[0]) {
        "number"@
    } else {
        seq![a[0]]
    }
}

/// The audio file URL for an audio name; `None` for an empty name.
pub open spec fn mw_audio_url_spec(a: Seq<char>) -> Option<Seq<char>> {
    if a.len() == 0 {
        None
    } else {
        Some(
            "https://media.merriam-webster.com/audio/prons/en/us/mp3/"@ + mw_audio_subdir(a) + "/"@
                + a + ".mp3"@,
        )
    }
}

pub fn mw_audio_url(audio: &str) -> (r: Option<String>)
    ensures
        optv(r) == mw_audio_url_spec(audio@),
{
    let v = chars_of(audio);
    if v.len() == 0 {
        return None;
    }
    let mut r = String::new();
    push_str(&mut r, "https://media.merriam-webster.com/audio/prons/en/us/mp3/");
    if starts_with(audio, "bix") {
        push_str(&mut r, "bix");
    } else if starts_with(audio, "gg") {
        push_str(&mut r, "gg");
    } else {
        let c = v[0];
        if !(('a' <= c && c <= 'z') || ('A' <= c && c <= 'Z')) {
            push_str(&mut r, "number");
        } else {
            push_char(&mut r, c);
        }
    }
    push_str(&mut r, "/");
    push_str(&mut r, audio);
    push_str(&mut r, ".mp3");
    Some(r)
}

/// The short definitions with markup stripped (none dropped).
pub open spec fn stripped_spec(defs: Seq<String>) -> Seq<Seq<char>> {
    Seq::new(defs.len(), |i: int| strip_tags_spec(defs[i]@))
}

/// Phonetic and audio name of the first pronunciation.
pub open spec fn first_pron(prs: Seq<MwPron>) -> (Option<Seq<char>>, Option<Seq<char>>) {
    if prs.len() == 0 {
        (None, None)
    } else {
        (
            optv(prs[0].ipa),
            match prs[0].audio {
                Some(a) => mw_audio_url_spec(a@),
                None => None,
            },
        )
    }
}

/// What the card shows from the learner's dictionary, given its entries
/// (or `None` when the body was not a list of entries, as for a no-match
/// answer that lists suggestions): the first entry's part of speech,
/// first pronunciation and short definitions; `None` when it has neither
/// definitions nor a phonetic.
pub fn mw_learners_from_entries(entries: Option<Vec<MwLearnersRaw>>) -> (r: Option<MwLearnersData>)
    ensures
        match entries {
            None => r is None,
            Some(es) => if es@.len() == 0 {
                r is None
            } else {
                let e = es@[0];
                let (ph, au) = first_pron(e.prs@);
                if e.shortdef@.len() == 0 && ph is None {
                    r is None
                } else {
                    r matches Some(d) && optv(d.pos) == optv(e.fl) && optv(d.phonetic) == ph
                        && optv(d.audio_url) == au && views(d.short_defs@) == stripped_spec(
                        e.shortdef@,
                    )
                }
            },
        },
{
    let es = match entries {
        Some(es) => es,
        None => {
            return None;
        },
    };
    if es.len() == 0 {
        return None;
    }
    let e = &es[0];
    let (phonetic, audio_url) = if e.prs.len() == 0 {
        (None, None)
    } else {
        let p = &e.prs[0];
        let au = match &p.audio {
            Some(a) => mw_audio_url(a.as_str()),
            None => None,
        };
        (p.ipa.clone(), au)
    };
    let mut short_defs: Vec<String> = Vec::new();
    let mut i: usize = 0;
    while i < e.shortdef.len()
        invariant
            i <= e.shortdef.len(),
            views(short_defs@) == stripped_spec(e.shortdef@).take(i as int),
        decreases e.shortdef.len() - i,
    {
        let d = strip_tags(e.shortdef[i].as_str());
        let ghost before = short_defs@;
        short_defs.push(d);
        assert(views(short_defs@) == views(before).push(d@));
        i += 1;
    }
    assert(stripped_spec(e.shortdef@).take(e.shortdef.len() as int) == stripped_spec(e.shortdef@));
    if short_defs.len() == 0 && phonetic.is_none() {
        None
    } else {
        Some(MwLearnersData { pos: e.fl.clone(), phonetic, audio_url, short_defs })
    }
}

/// The non-empty groups of a list of groups.
pub open spec fn nonempty_groups(gs: Seq<Vec<String>>) -> Seq<Seq<Seq<char>>>
    decreases gs.len(),
{
    if gs.len() == 0 {
        seq![]
    } else {
        nonempty_groups(gs.drop_last()) + if gs.last()@.len() == 0 {
            seq![]
        } else {
            seq![views(gs.last()@)]
        }
    }
}

/// Synonym (`pick_syns`) or antonym groups of all entries, in order.
pub open spec fn thesaurus_groups(es: Seq<MwThesaurusRaw>, pick_syns: bool) -> Seq<Seq<Seq<char>>>
    decreases es.len(),
{
    if es.len() == 0 {
        seq![]
    } else {
        thesaurus_groups(es.drop_last(), pick_syns) + match es.last().meta {
            Some((syns, ants)) => nonempty_groups(
                if pick_syns {
                    syns@
                } else {
                    ants@
                },
            ),
            None => seq![],
        }
    }
}

/// The views of a list of groups.
pub open spec fn group_views(gs: Seq<Vec<String>>) -> Seq<Seq<Seq<char>>> {
    gs.map_values(|g: Vec<String>| views(g@))
}

fn push_nonempty(out: &mut Vec<Vec<String>>, gs: &Vec<Vec<String>>)
    ensures
        group_views(final(out)@) == group_views(old(out)@) + nonempty_groups(gs@),
{
    let ghost start = group_views(out@);
    let mut i: usize = 0;
    while i < gs.len()
        invariant
            i <= gs.len(),
            group_views(out@) == start + nonempty_groups(gs@.take(i as int)),
        decreases gs.len() - i,
    {
        assert(gs@.take((i + 1) as int).drop_last() == gs@.take(i as int));
        if gs[i].len() > 0 {
            let g = clone_strings(&gs[i]);
            let ghost before = out@;
            out.push(g);
            assert(group_views(out@) == group_views(before).push(views(g@)));
        }
        i += 1;
    }
    assert(gs@.take(gs.len() as int) == gs@);
}

/// What the card shows from the thesaurus: every non-empty synonym and
/// antonym group of every entry, in order; `None` when there are none (or
/// the body was not a list of entries).
pub fn mw_thesaurus_from_entries(entries: Option<Vec<MwThesaurusRaw>>) -> (r: Option<MwThesaurusData>)
    ensures
        match entries {
            None => r is None,
            Some(es) => if thesaurus_groups(es@, true).len() == 0 && thesaurus_groups(
                es@,
                false,
            ).len() == 0 {
                r is None
            } else {
                r matches Some(d) && group_views(d.synonym_groups@) == thesaurus_groups(es@, true)
                    && group_views(d.antonym_groups@) == thesaurus_groups(es@, false)
            },
        },
{
    let es = match entries {
        Some(es) => es,
        None => {
            return None;
        },
    };
    let mut syn: Vec<Vec<String>> = Vec::new();
    let mut ant: Vec<Vec<String>> = Vec::new();
    let mut i: usize = 0;
    while i < es.len()
        invariant
            i <= es.len(),
            group_views(syn@) == thesaurus_groups(es@.take(i as int), true),
            group_views(ant@) == thesaurus_groups(es@.take(i as int), false),
        decreases es.len() - i,
    {
        assert(es@.take((i + 1) as int).drop_last() == es@.take(i as int));
        match &es[i].meta {
            Some((s, a)) => {
                push_nonempty(&mut syn, s);
                push_nonempty(&mut ant, a);
            },
            None => {},
        }
        i += 1;
    }
    assert(es@.take(es.len() as int) == es@);
    assert(group_views(syn@).len() == syn@.len());
    assert(group_views(ant@).len() == ant@.len());
    if syn.len() == 0 && ant.len() == 0 {
        None
    } else {
        Some(MwThesaurusData { synonym_groups: syn, antonym_groups: ant })
    }
}

} // verus!
