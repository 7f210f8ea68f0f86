//! The Free Dictionary API: definitions, examples, synonyms and
//! antonyms per part of speech, plus phonetic, audio and origin.
use vstd::prelude::*;
use crate::text::{clone_strings, views};

verus! {

/// One part-of-speech group.
#[derive(Debug, Clone, PartialEq)]
pub struct FdMeaning {
    pub pos: String,
    pub definitions: Vec<String>,
    pub examples: Vec<String>,
    pub synonyms: Vec<String>,
    pub antonyms: Vec<String>,
}

/// What the card could show from the Free Dictionary API.
#[derive(Debug, Clone, PartialEq)]
pub struct FreeDictData {
    pub phonetic: Option<String>,
    pub audio: Option<String>,
    pub origin: Option<String>,
    pub meanings: Vec<FdMeaning>,
}

impl Default for FreeDictData {
    fn default() -> (r: Self)
        ensures
            r.phonetic is None && r.audio is None && r.origin is None && r.meanings@.len() == 0,
    {
        FreeDictData { phonetic: None, audio: None, origin: None, meanings: Vec::new() }
    }
}

/// A `phonetics` item: `text` and `audio`.
#[derive(Debug, Clone)]
pub struct FdRawPhonetic {
    pub text: Option<String>,
    pub audio: Option<String>,
}

/// A `definitions` item: `definition` (empty when missing) and `example`.
#[derive(Debug, Clone)]
pub struct FdRawDef {
    pub definition: String,
    pub example: Option<String>,
}

/// A `meanings` item.
#[derive(Debug, Clone)]
pub struct FdRawMeaning {
    pub pos: String,
    pub definitions: Vec<FdRawDef>,
    pub synonyms: Vec<String>,
    pub antonyms: Vec<String>,
}

/// One entry of the answer.
#[derive(Debug, Clone)]
pub struct FdRawEntry {
    pub phonetic: Option<String>,
    pub phonetics: Vec<FdRawPhonetic>,
    pub origin: Option<String>,
    pub meanings: Vec<FdRawMeaning>,
}

pub open spec fn optv(o: Option<String>) -> Option<Seq<char>> {
    match o {
        Some(s) => Some(s@),
        None => None,
    }
}

/// The first present value, keeping `prev` once it is present.
pub open spec fn or_else(prev: Option<Seq<char>>, next: Option<Seq<char>>) -> Option<Seq<char>> {
    if prev is Some {
        prev
    } else {
        next
    }
}

/// The phonetic after scanning the `text` of some phonetics items.
pub open spec fn phonetic_after(prev: Option<Seq<char>>, ps: Seq<FdRawPhonetic>) -> Option<Seq<char>>
    decreases ps.len(),
{
    if ps.len() == 0 {
        prev
    } else {
        or_else(phonetic_after(prev, ps.drop_last()), optv(ps.last().text))
    }
}

/// A non-empty audio value.
pub open spec fn audio_of(p: FdRawPhonetic) -> Option<Seq<char>> {
    match p.audio {
        Some(a) => if a@.len() > 0 {
            Some(a@)
        } else {
            None
        },
        None => None,
    }
}

pub open spec fn audio_after(prev: Option<Seq<char>>, ps: Seq<FdRawPhonetic>) -> Option<Seq<char>>
    decreases ps.len(),
{
    if ps.len() == 0 {
        prev
    } else {
        or_else(audio_after(prev, ps.drop_last()), audio_of(ps.last()))
    }
}

/// The first phonetic: for each entry in order, its `phonetic`, then the
/// `text` of its phonetics items.
pub open spec fn fd_phonetic(es: Seq<FdRawEntry>) -> Option<Seq<char>>
    decreases es.len(),
{
    if es.len() == 0 {
        None
    } else {
        phonetic_after(or_else(fd_phonetic(es.drop_last()), optv(es.last().phonetic)), es.last().phonetics@)
    }
}

/// The first non-empty audio link over all phonetics items.
pub open spec fn fd_audio(es: Seq<FdRawEntry>) -> Option<Seq<char>>
    decreases es.len(),
{
    if es.len() == 0 {
        None
    } else {
        audio_after(fd_audio(es.drop_last()), es.last().phonetics@)
    }
}

/// The first present origin.
pub open spec fn fd_origin(es: Seq<FdRawEntry>) -> Option<Seq<char>>
    decreases es.len(),
{
    if es.len() == 0 {
        None
    } else {
        or_else(fd_origin(es.drop_last()), optv(es.last().origin))
    }
}

/// Non-empty definitions.
pub open spec fn defs_spec(ds: Seq<FdRawDef>) -> Seq<Seq<char>>
    decreases ds.len(),
{
    if ds.len() == 0 {
        seq![]
    } else {
        defs_spec(ds.drop_last()) + if ds.last().definition@.len() > 0 {
            seq![ds.last().definition@]
        } else {
            seq![]
        }
    }
}

/// Present, non-empty examples.
pub open spec fn examples_spec(ds: Seq<FdRawDef>) -> Seq<Seq<char>>
    decreases ds.len(),
{
    if ds.len() == 0 {
        seq![]
    } else {
        examples_spec(ds.drop_last()) + match ds.last().example {
            Some(x) => if x@.len() > 0 {
                seq![x@]
            } else {
                seq![]
            },
            None => seq![],
        }
    }
}

/// A meaning as plain values: pos, definitions, examples, synonyms,
/// antonyms.
pub type MeaningView = (Seq<char>, Seq<Seq<char>>, Seq<Seq<char>>, Seq<Seq<char>>, Seq<Seq<char>>);

pub open spec fn meaning_view(m: FdMeaning) -> MeaningView {
    (m.pos@, views(m.definitions@), views(m.examples@), views(m.synonyms@), views(m.antonyms@))
}

pub open spec fn raw_meaning_view(m: FdRawMeaning) -> MeaningView {
    (
        m.pos@,
        defs_spec(m.definitions@),
        examples_spec(m.definitions@),
        views(m.synonyms@),
        views(m.antonyms@),
    )
}

/// Every meaning of every entry, in order.
pub open spec fn fd_meanings(es: Seq<FdRawEntry>) -> Seq<MeaningView>
    decreases es.len(),
{
    if es.len() == 0 {
        seq![]
    } else {
        fd_meanings(es.drop_last()) + es.last().meanings@.map_values(
            |m: FdRawMeaning| raw_meaning_view(m),
        )
    }
}

fn or_else_opt(prev: Option<String>, next: &Option<String>) -> (r: Option<String>)
    ensures
        optv(r) == or_else(optv(prev), optv(*next)),
{
    if prev.is_some() {
        prev
    } else {
        next.clone()
    }
}

fn convert_meaning(m: &FdRawMeaning) -> (r: FdMeaning)
    ensures
        meaning_view(r) == raw_meaning_view(*m),
{
    let mut definitions: Vec<String> = Vec::new();
    let mut examples: Vec<String> = Vec::new();
    let mut i: usize = 0;
    while i < m.definitions.len()
        invariant
            i <= m.definitions.len(),
            views(definitions@) == defs_spec(m.definitions@.take(i as int)),
            views(examples@) == examples_spec(m.definitions@.take(i as int)),
        decreases m.definitions.len() - i,
    {
        assert(m.definitions@.take((i + 1) as int).drop_last() == m.definitions@.take(i as int));
        let d = &m.definitions[i];
        if d.definition.as_str().unicode_len() > 0 {
            let ghost before = definitions@;
            definitions.push(d.definition.clone());
            assert(views(definitions@) == views(before).push(d.definition@));
        }
        match &d.example {
            Some(x) => {
                if x.as_str().unicode_len() > 0 {
                    let ghost before = examples@;
                    examples.push(x.clone());
                    assert(views(examples@) == views(before).push(x@));
                }
            },
            None => {},
        }
        i += 1;
    }
    assert(m.definitions@.take(m.definitions.len() as int) == m.definitions@);
    FdMeaning {
        pos: m.pos.clone(),
        definitions,
        examples,
        synonyms: clone_strings(&m.synonyms),
        antonyms: clone_strings(&m.antonyms),
    }
}

/// What the card could show from the Free Dictionary API, given its
/// entries; `None` when there are no meanings and no phonetic.
pub fn freedict_from_entries(es: &Vec<FdRawEntry>) -> (r: Option<FreeDictData>)
    ensures
        (fd_meanings(es@).len() == 0 && fd_phonetic(es@) is None) ==> r is None,
        !(fd_meanings(es@).len() == 0 && fd_phonetic(es@) is None) ==> (r matches Some(d) && optv(
            d.phonetic,
        ) == fd_phonetic(es@) && optv(d.audio) == fd_audio(es@) && optv(d.origin) == fd_origin(
            es@,
        ) && d.meanings@.map_values(|m: FdMeaning| meaning_view(m)) == fd_meanings(es@)),
{
    let mut phonetic: Option<String> = None;
    let mut audio: Option<String> = None;
    let mut origin: Option<String> = None;
    let mut meanings: Vec<FdMeaning> = Vec::new();
    let mut i: usize = 0;
    while i < es.len()
        invariant
            i <= es.len(),
            optv(phonetic) == fd_phonetic(es@.take(i as int)),
            optv(audio) == fd_audio(es@.take(i as int)),
            optv(origin) == fd_origin(es@.take(i as int)),
            meanings@.map_values(|m: FdMeaning| meaning_view(m)) == fd_meanings(es@.take(i as int)),
        decreases es.len() - i,
    {
        assert(es@.take((i + 1) as int).drop_last() == es@.take(i as int));
        let e = &es[i];
        phonetic = or_else_opt(phonetic, &e.phonetic);
        let ghost ph0 = optv(phonetic);
        let ghost au0 = optv(audio);
        let mut k: usize = 0;
        while k < e.phonetics.len()
            invariant
                k <= e.phonetics.len(),
                optv(phonetic) == phonetic_after(ph0, e.phonetics@.take(k as int)),
                optv(audio) == audio_after(au0, e.phonetics@.take(k as int)),
            decreases e.phonetics.len() - k,
        {
            assert(e.phonetics@.take((k + 1) as int).drop_last() == e.phonetics@.take(k as int));
            let p = &e.phonetics[k];
            phonetic = or_else_opt(phonetic, &p.text);
            if audio.is_none() {
                match &p.audio {
                    Some(a) => {
                        if a.as_str().unicode_len() > 0 {
                            audio = Some(a.clone());
                        }
                    },
                    None => {},
                }
            }
            k += 1;
        }
        assert(e.phonetics@.take(e.phonetics.len() as int) == e.phonetics@);
        origin = or_else_opt(origin, &e.origin);
        let ghost before = meanings@;
        let mut j: usize = 0;
        while j < e.meanings.len()
            invariant
                j <= e.meanings.len(),
                meanings@ == before + meanings@.subrange(before.len() as int, meanings@.len() as int),
                meanings@.len() == before.len() + j,
                meanings@.map_values(|m: FdMeaning| meaning_view(m)) == before.map_values(
                    |m: FdMeaning| meaning_view(m),
                ) + e.meanings@.take(j as int).map_values(|m: FdRawMeaning| raw_meaning_view(m)),
            decreases e.meanings.len() - j,
        {
            let cm = convert_meaning(&e.meanings[j]);
            let ghost prevm = meanings@;
            meanings.push(cm);
            assert(e.meanings@.take((j + 1) as int) == e.meanings@.take(j as int).push(
                e.meanings@[j as int],
            ));
            assert(meanings@.map_values(|m: FdMeaning| meaning_view(m)) == prevm.map_values(
                |m: FdMeaning| meaning_view(m),
            ).push(meaning_view(cm)));
            j += 1;
        }
        assert(e.meanings@.take(e.meanings.len() as int) == e.meanings@);
        i += 1;
    }
    assert(es@.take(es.len() as int) == es@);
    assert(meanings@.map_values(|m: FdMeaning| meaning_view(m)).len() == meanings@.len());
    if meanings.len() == 0 && phonetic.is_none() {
        None
    } else {
        Some(FreeDictData { phonetic, audio, origin, meanings })
    }
}

} // verus!
