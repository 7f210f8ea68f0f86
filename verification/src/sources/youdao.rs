//! Youdao's dictionary payload (an unofficial service, read defensively):
//! every field is optional and blank values are dropped.
use vstd::prelude::*;
use crate::text::{
    join_spec, push_joined, push_str, trim, trim_spec, views,
};

verus! {

/// What the card shows from Youdao.
#[derive(Debug, Clone, PartialEq)]
pub struct YoudaoData {
    /// English-to-Chinese glosses.
    pub ec_zh: Vec<String>,
    /// English-English definitions, each prefixed by its part of speech.
    pub ee: Vec<String>,
    /// Synonym groups, one line per part of speech.
    pub syno: Vec<String>,
    /// Related-word groups, one line per part of speech.
    pub rel_word: Vec<String>,
    /// Phrases, `head — translation` or just `head`.
    pub phrs: Vec<String>,
    /// Bilingual example sentences (English, Chinese).
    pub sents: Vec<(String, String)>,
    /// Web translations.
    pub web_trans: Vec<String>,
    /// Wikipedia digest as Youdao ships it.
    pub wiki: Option<String>,
    /// Etymology.
    pub etym: Option<String>,
}

impl Default for YoudaoData {
    fn default() -> (r: Self)
        ensures
            r.ec_zh@.len() == 0 && r.ee@.len() == 0 && r.syno@.len() == 0 && r.rel_word@.len()
                == 0 && r.phrs@.len() == 0 && r.sents@.len() == 0 && r.web_trans@.len() == 0
                && r.wiki is None && r.etym is None,
    {
        YoudaoData {
            ec_zh: Vec::new(),
            ee: Vec::new(),
            syno: Vec::new(),
            rel_word: Vec::new(),
            phrs: Vec::new(),
            sents: Vec::new(),
            web_trans: Vec::new(),
            wiki: None,
            etym: None,
        }
    }
}

/// The values read out of Youdao's JSON, as found at each path; a missing
/// or non-string value is `None` (or an empty string where the service's
/// shape makes the value optional inside an item).
#[derive(Debug, Clone)]
pub struct YoudaoRaw {
    /// `/ec/word/0/trs/*/tr/0/l/i/0`.
    pub ec: Vec<Option<String>>,
    /// `/ee/word/trs/*`: (`pos`, `tr/0/l/i`).
    pub ee: Vec<(String, Option<String>)>,
    /// `/syno/synos/*/syno`: (`pos`, the `w` of every `ws` item).
    pub syno: Vec<(String, Vec<String>)>,
    /// `/rel_word/rels/*/rel`: (`pos`, the `word` of every `words` item).
    pub rel: Vec<(String, Vec<String>)>,
    /// `/phrs/phrs/*/phr`: (`headword/l/i`, `trs/0/tr/l/i`).
    pub phrs: Vec<(String, String)>,
    /// `/blng_sents_part/sentence-pair/*`: (`sentence`, `sentence-translation`).
    pub sents: Vec<(String, String)>,
    /// `/web_trans/web-translation/*/trans/0/value`.
    pub web: Vec<Option<String>>,
    /// `/wikipedia_digest/summarys/0/summary`.
    pub wiki_summarys: Option<String>,
    /// `/wikipedia_digest/summary/0/summary`.
    pub wiki_summary: Option<String>,
    /// `/etym/etyms/zh/0/value`.
    pub etym_zh: Option<String>,
    /// `/etym/etyms/0/value`.
    pub etym_first: Option<String>,
}

/// A trimmed value, kept only when something is left.
pub open spec fn ne_spec(s: Seq<char>) -> Option<Seq<char>> {
    if trim_spec(s).len() == 0 {
        None
    } else {
        Some(trim_spec(s))
    }
}

/// The list holding `ne_spec(s)` when present.
pub open spec fn ne_list(s: Seq<char>) -> Seq<Seq<char>> {
    match ne_spec(s) {
        Some(t) => seq![t],
        None => seq![],
    }
}

/// `ec_zh`: every present gloss, trimmed, blanks dropped.
pub open spec fn ec_lines_spec(raw: Seq<Option<String>>) -> Seq<Seq<char>>
    decreases raw.len(),
{
    if raw.len() == 0 {
        seq![]
    } else {
        ec_lines_spec(raw.drop_last()) + match raw.last() {
            Some(l) => ne_list(l@),
            None => seq![],
        }
    }
}

/// One English-English line: the part of speech, a space, the definition.
pub open spec fn ee_line_spec(pos: Seq<char>, tr: Seq<char>) -> Seq<char> {
    if pos.len() == 0 {
        tr
    } else {
        pos + " "@ + tr
    }
}

pub open spec fn ee_lines_spec(raw: Seq<(String, Option<String>)>) -> Seq<Seq<char>>
    decreases raw.len(),
{
    if raw.len() == 0 {
        seq![]
    } else {
        ee_lines_spec(raw.drop_last()) + match raw.last().1 {
            Some(tr) => ne_list(ee_line_spec(raw.last().0@, tr@)),
            None => seq![],
        }
    }
}

/// Word groups with at least one word, each as `pos w1, w2, ...`.
pub open spec fn group_lines_spec(raw: Seq<(String, Vec<String>)>) -> Seq<Seq<char>>
    decreases raw.len(),
{
    if raw.len() == 0 {
        seq![]
    } else {
        group_lines_spec(raw.drop_last()) + if raw.last().1@.len() == 0 {
            seq![]
        } else {
            ne_list(raw.last().0@ + " "@ + join_spec(views(raw.last().1@), ", "@))
        }
    }
}

/// A phrase line: the trimmed head, then ` — ` and the trimmed translation
/// when there is one.
pub open spec fn phrase_line_spec(head: Seq<char>, tr: Seq<char>) -> Seq<char> {
    if trim_spec(tr).len() == 0 {
        trim_spec(head)
    } else {
        trim_spec(head) + " — "@ + trim_spec(tr)
    }
}

pub open spec fn phrase_lines_spec(raw: Seq<(String, String)>) -> Seq<Seq<char>>
    decreases raw.len(),
{
    if raw.len() == 0 {
        seq![]
    } else {
        phrase_lines_spec(raw.drop_last()) + if trim_spec(raw.last().0@).len() == 0 {
            seq![]
        } else {
            seq![phrase_line_spec(raw.last().0@, raw.last().1@)]
        }
    }
}

/// Sentence pairs whose English side is not blank, both sides trimmed.
pub open spec fn sentence_pairs_spec(raw: Seq<(String, String)>) -> Seq<(Seq<char>, Seq<char>)>
    decreases raw.len(),
{
    if raw.len() == 0 {
        seq![]
    } else {
        sentence_pairs_spec(raw.drop_last()) + match ne_spec(raw.last().0@) {
            Some(en) => seq![(en, trim_spec(raw.last().1@))],
            None => seq![],
        }
    }
}

/// The views of sentence pairs.
pub open spec fn pair_views(v: Seq<(String, String)>) -> Seq<(Seq<char>, Seq<char>)> {
    v.map_values(|p: (String, String)| (p.0@, p.1@))
}

/// A present, non-blank value, trimmed.
pub open spec fn present_spec(o: Option<String>) -> Option<Seq<char>> {
    match o {
        Some(s) => ne_spec(s@),
        None => None,
    }
}

/// The first of two candidates that is present.
pub open spec fn first_present(a: Option<Seq<char>>, b: Option<Seq<char>>) -> Option<Seq<char>> {
    if a is Some {
        a
    } else {
        b
    }
}

/// The view of an optional string.
pub open spec fn optv(o: Option<String>) -> Option<Seq<char>> {
    match o {
        Some(s) => Some(s@),
        None => None,
    }
}

/// `d` holds exactly what Youdao's raw values give.
pub open spec fn youdao_data_from(d: YoudaoData, raw: YoudaoRaw) -> bool {
    &&& views(d.ec_zh@) == ec_lines_spec(raw.ec@)
    &&& views(d.ee@) == ee_lines_spec(raw.ee@)
    &&& views(d.syno@) == group_lines_spec(raw.syno@)
    &&& views(d.rel_word@) == group_lines_spec(raw.rel@)
    &&& views(d.phrs@) == phrase_lines_spec(raw.phrs@)
    &&& pair_views(d.sents@) == sentence_pairs_spec(raw.sents@)
    &&& views(d.web_trans@) == ec_lines_spec(raw.web@)
    &&& optv(d.wiki) == first_present(present_spec(raw.wiki_summarys), present_spec(raw.wiki_summary))
    &&& optv(d.etym) == first_present(present_spec(raw.etym_zh), present_spec(raw.etym_first))
}

/// Nothing at all to show.
pub open spec fn youdao_empty(d: YoudaoData) -> bool {
    d.ec_zh@.len() == 0 && d.ee@.len() == 0 && d.syno@.len() == 0 && d.rel_word@.len() == 0
        && d.phrs@.len() == 0 && d.sents@.len() == 0 && d.web_trans@.len() == 0 && d.wiki is None
        && d.etym is None
}

/// Appends the trimmed `s` when it is not blank.
fn push_ne(out: &mut Vec<String>, s: &str)
    ensures
        views(final(out)@) == views(old(out)@) + ne_list(s@),
{
    let t = trim(s);
    if t.as_str().unicode_len() > 0 {
        out.push(t);
        assert(views(final(out)@) == views(old(out)@).push(t@));
    } else {
        assert(final(out)@ == old(out)@);
    }
}

fn ne(s: &str) -> (r: Option<String>)
    ensures
        optv(r) == ne_spec(s@),
{
    let t = trim(s);
    if t.as_str().unicode_len() > 0 {
        Some(t)
    } else {
        None
    }
}

fn present(o: &Option<String>) -> (r: Option<String>)
    ensures
        optv(r) == present_spec(*o),
{
    match o {
        Some(s) => ne(s.as_str()),
        None => None,
    }
}

fn ec_lines(raw: &Vec<Option<String>>) -> (r: Vec<String>)
    ensures
        views(r@) == ec_lines_spec(raw@),
{
    let mut r: Vec<String> = Vec::new();
    let mut i: usize = 0;
    while i < raw.len()
        invariant
            i <= raw.len(),
            views(r@) == ec_lines_spec(raw@.take(i as int)),
        decreases raw.len() - i,
    {
        assert(raw@.take((i + 1) as int).drop_last() == raw@.take(i as int));
        match &raw[i] {
            Some(l) => push_ne(&mut r, l.as_str()),
            None => {},
        }
        i += 1;
    }
    assert(raw@.take(raw.len() as int) == raw@);
    r
}

fn ee_lines(raw: &Vec<(String, Option<String>)>) -> (r: Vec<String>)
    ensures
        views(r@) == ee_lines_spec(raw@),
{
    let mut r: Vec<String> = Vec::new();
    let mut i: usize = 0;
    while i < raw.len()
        invariant
            i <= raw.len(),
            views(r@) == ee_lines_spec(raw@.take(i as int)),
        decreases raw.len() - i,
    {
        assert(raw@.take((i + 1) as int).drop_last() == raw@.take(i as int));
        let (pos, tr) = &raw[i];
        match tr {
            Some(t) => {
                let mut line = String::new();
                if pos.as_str().unicode_len() > 0 {
                    push_str(&mut line, pos.as_str());
                    push_str(&mut line, " ");
                }
                push_str(&mut line, t.as_str());
                push_ne(&mut r, line.as_str());
            },
            None => {},
        }
        i += 1;
    }
    assert(raw@.take(raw.len() as int) == raw@);
    r
}

fn group_lines(raw: &Vec<(String, Vec<String>)>) -> (r: Vec<String>)
    ensures
        views(r@) == group_lines_spec(raw@),
{
    let mut r: Vec<String> = Vec::new();
    let mut i: usize = 0;
    while i < raw.len()
        invariant
            i <= raw.len(),
            views(r@) == group_lines_spec(raw@.take(i as int)),
        decreases raw.len() - i,
    {
        assert(raw@.take((i + 1) as int).drop_last() == raw@.take(i as int));
        let (pos, ws) = &raw[i];
        if ws.len() > 0 {
            let mut line = String::new();
            push_str(&mut line, pos.as_str());
            push_str(&mut line, " ");
            push_joined(&mut line, ws, ", ");
            push_ne(&mut r, line.as_str());
        }
        i += 1;
    }
    assert(raw@.take(raw.len() as int) == raw@);
    r
}

fn phrase_lines(raw: &Vec<(String, String)>) -> (r: Vec<String>)
    ensures
        views(r@) == phrase_lines_spec(raw@),
{
    let mut r: Vec<String> = Vec::new();
    let mut i: usize = 0;
    while i < raw.len()
        invariant
            i <= raw.len(),
            views(r@) == phrase_lines_spec(raw@.take(i as int)),
        decreases raw.len() - i,
    {
        assert(raw@.take((i + 1) as int).drop_last() == raw@.take(i as int));
        let (head, tr) = &raw[i];
        let h = trim(head.as_str());
        if h.as_str().unicode_len() > 0 {
            let t = trim(tr.as_str());
            let mut line = h;
            if t.as_str().unicode_len() > 0 {
                push_str(&mut line, " — ");
                push_str(&mut line, t.as_str());
            }
            r.push(line);
        }
        i += 1;
    }
    assert(raw@.take(raw.len() as int) == raw@);
    r
}

fn sentence_pairs(raw: &Vec<(String, String)>) -> (r: Vec<(String, String)>)
    ensures
        pair_views(r@) == sentence_pairs_spec(raw@),
{
    let mut r: Vec<(String, String)> = Vec::new();
    let mut i: usize = 0;
    while i < raw.len()
        invariant
            i <= raw.len(),
            pair_views(r@) == sentence_pairs_spec(raw@.take(i as int)),
        decreases raw.len() - i,
    {
        assert(raw@.take((i + 1) as int).drop_last() == raw@.take(i as int));
        let (en, zh) = &raw[i];
        match ne(en.as_str()) {
            Some(e) => {
                let z = trim(zh.as_str());
                let ghost before = r@;
                r.push((e, z));
                assert(pair_views(r@) == pair_views(before).push((e@, z@)));
            },
            None => {},
        }
        i += 1;
    }
    assert(raw@.take(raw.len() as int) == raw@);
    r
}

/// Youdao's card data from the values read out of its JSON; `None` when
/// nothing usable is left.
pub fn youdao_from_raw(raw: &YoudaoRaw) -> (r: Option<YoudaoData>)
    ensures
        match r {
            Some(d) => youdao_data_from(d, *raw) && !youdao_empty(d),
            None => forall|d: YoudaoData| youdao_data_from(d, *raw) ==> #[trigger] youdao_empty(d),
        },
{
    let wiki = match present(&raw.wiki_summarys) {
        Some(w) => Some(w),
        None => present(&raw.wiki_summary),
    };
    let etym = match present(&raw.etym_zh) {
        Some(e) => Some(e),
        None => present(&raw.etym_first),
    };
    let d = YoudaoData {
        ec_zh: ec_lines(&raw.ec),
        ee: ee_lines(&raw.ee),
        syno: group_lines(&raw.syno),
        rel_word: group_lines(&raw.rel),
        phrs: phrase_lines(&raw.phrs),
        sents: sentence_pairs(&raw.sents),
        web_trans: ec_lines(&raw.web),
        wiki,
        etym,
    };
    let empty = d.ec_zh.len() == 0 && d.ee.len() == 0 && d.syno.len() == 0 && d.rel_word.len()
        == 0 && d.phrs.len() == 0 && d.sents.len() == 0 && d.web_trans.len() == 0
        && d.wiki.is_none() && d.etym.is_none();
    if empty {
        proof {
            assert forall|e: YoudaoData| youdao_data_from(e, *raw) implies #[trigger] youdao_empty(
                e,
            ) by {
                assert(views(e.ec_zh@).len() == views(d.ec_zh@).len());
                assert(views(e.ee@).len() == views(d.ee@).len());
                assert(views(e.syno@).len() == views(d.syno@).len());
                assert(views(e.rel_word@).len() == views(d.rel_word@).len());
                assert(views(e.phrs@).len() == views(d.phrs@).len());
                assert(pair_views(e.sents@).len() == pair_views(d.sents@).len());
                assert(views(e.web_trans@).len() == views(d.web_trans@).len());
            }
        }
        None
    } else {
        Some(d)
    }
}

} // verus!
