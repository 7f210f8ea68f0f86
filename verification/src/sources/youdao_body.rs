//! Reading Youdao's JSON body: the values at the paths the card uses,
//! each missing or mistyped value counting as absent.
use vstd::prelude::*;
use crate::json::{at_spec, items_at, items_of, str_at, str_at_or_empty, str_of, str_or_empty, Json, Step};
use crate::sources::youdao::{optv, youdao_from_raw, YoudaoData, YoudaoRaw, youdao_data_from, youdao_empty};
use crate::text::views;

verus! {

/// The texts present at `path` of each item, in order.
pub open spec fn present_strs(items: Seq<Json>, path: Seq<Step>) -> Seq<Seq<char>>
    decreases items.len(),
{
    if items.len() == 0 {
        seq![]
    } else {
        present_strs(items.drop_last(), path) + match str_of(at_spec(items.last(), path)) {
            Some(s) => seq![s],
            None => seq![],
        }
    }
}

/// `ec/word/0/trs`, and in each item `tr/0/l/i/0`.
pub open spec fn ec_spec(v: Json) -> Seq<Option<Seq<char>>> {
    items_of(at_spec(v, seq![Step("ec"), Step("word"), Step("0"), Step("trs")])).map_values(
        |t: Json| str_of(at_spec(t, seq![Step("tr"), Step("0"), Step("l"), Step("i"), Step("0")])),
    )
}

/// `ee/word/trs`, and in each item (`pos`, `tr/0/l/i`).
pub open spec fn ee_spec(v: Json) -> Seq<(Seq<char>, Option<Seq<char>>)> {
    items_of(at_spec(v, seq![Step("ee"), Step("word"), Step("trs")])).map_values(
        |t: Json|
            (
                str_or_empty(t, seq![Step("pos")]),
                str_of(at_spec(t, seq![Step("tr"), Step("0"), Step("l"), Step("i")])),
            ),
    )
}

/// Word groups: the items at `list`, and in each the part of speech at
/// `pos` and the words at `word` of the items at `words`.
pub open spec fn groups_spec(
    v: Json,
    list: Seq<Step>,
    pos: Seq<Step>,
    words: Seq<Step>,
    word: Seq<Step>,
) -> Seq<(Seq<char>, Seq<Seq<char>>)> {
    items_of(at_spec(v, list)).map_values(
        |g: Json| (str_or_empty(g, pos), present_strs(items_of(at_spec(g, words)), word)),
    )
}

pub open spec fn syno_spec(v: Json) -> Seq<(Seq<char>, Seq<Seq<char>>)> {
    groups_spec(
        v,
        seq![Step("syno"), Step("synos")],
        seq![Step("syno"), Step("pos")],
        seq![Step("syno"), Step("ws")],
        seq![Step("w")],
    )
}

pub open spec fn rel_spec(v: Json) -> Seq<(Seq<char>, Seq<Seq<char>>)> {
    groups_spec(
        v,
        seq![Step("rel_word"), Step("rels")],
        seq![Step("rel"), Step("pos")],
        seq![Step("rel"), Step("words")],
        seq![Step("word")],
    )
}

/// Text pairs: the items at `list`, and in each the texts at `a` and `b`
/// (empty when missing).
pub open spec fn text_pairs_spec(v: Json, list: Seq<Step>, a: Seq<Step>, b: Seq<Step>) -> Seq<
    (Seq<char>, Seq<char>),
> {
    items_of(at_spec(v, list)).map_values(|t: Json| (str_or_empty(t, a), str_or_empty(t, b)))
}

pub open spec fn phrs_spec(v: Json) -> Seq<(Seq<char>, Seq<char>)> {
    text_pairs_spec(
        v,
        seq![Step("phrs"), Step("phrs")],
        seq![Step("phr"), Step("headword"), Step("l"), Step("i")],
        seq![Step("phr"), Step("trs"), Step("0"), Step("tr"), Step("l"), Step("i")],
    )
}

pub open spec fn sents_spec(v: Json) -> Seq<(Seq<char>, Seq<char>)> {
    text_pairs_spec(
        v,
        seq![Step("blng_sents_part"), Step("sentence-pair")],
        seq![Step("sentence")],
        seq![Step("sentence-translation")],
    )
}

/// `web_trans/web-translation`, and in each item `trans/0/value`.
pub open spec fn web_spec(v: Json) -> Seq<Option<Seq<char>>> {
    items_of(at_spec(v, seq![Step("web_trans"), Step("web-translation")])).map_values(
        |w: Json| str_of(at_spec(w, seq![Step("trans"), Step("0"), Step("value")])),
    )
}

/// `raw` holds exactly the values of `v` that the card reads.
pub open spec fn raw_from_json(raw: YoudaoRaw, v: Json) -> bool {
    &&& raw.ec@.map_values(|o: Option<String>| optv(o)) == ec_spec(v)
    &&& raw.ee@.map_values(|p: (String, Option<String>)| (p.0@, optv(p.1))) == ee_spec(v)
    &&& raw.syno@.map_values(|p: (String, Vec<String>)| (p.0@, views(p.1@))) == syno_spec(v)
    &&& raw.rel@.map_values(|p: (String, Vec<String>)| (p.0@, views(p.1@))) == rel_spec(v)
    &&& raw.phrs@.map_values(|p: (String, String)| (p.0@, p.1@)) == phrs_spec(v)
    &&& raw.sents@.map_values(|p: (String, String)| (p.0@, p.1@)) == sents_spec(v)
    &&& raw.web@.map_values(|o: Option<String>| optv(o)) == web_spec(v)
    &&& optv(raw.wiki_summarys) == str_of(
        at_spec(v, seq![Step("wikipedia_digest"), Step("summarys"), Step("0"), Step("summary")]),
    )
    &&& optv(raw.wiki_summary) == str_of(
        at_spec(v, seq![Step("wikipedia_digest"), Step("summary"), Step("0"), Step("summary")]),
    )
    &&& optv(raw.etym_zh) == str_of(
        at_spec(v, seq![Step("etym"), Step("etyms"), Step("zh"), Step("0"), Step("value")]),
    )
    &&& optv(raw.etym_first) == str_of(
        at_spec(v, seq![Step("etym"), Step("etyms"), Step("0"), Step("value")]),
    )
}

fn strs_of_items(items: Option<&Vec<Json>>, path: &[Step]) -> (r: Vec<Option<String>>)
    ensures
        r@.map_values(|o: Option<String>| optv(o)) == (match items {
            Some(xs) => xs@,
            None => Seq::<Json>::empty(),
        }).map_values(|t: Json| str_of(at_spec(t, path@))),
{
    let mut r: Vec<Option<String>> = Vec::new();
    match items {
        Some(xs) => {
            let mut i: usize = 0;
            while i < xs.len()
                invariant
                    i <= xs.len(),
                    r@.map_values(|o: Option<String>| optv(o)) == xs@.take(i as int).map_values(
                        |t: Json| str_of(at_spec(t, path@)),
                    ),
                decreases xs.len() - i,
            {
                let s = str_at(&xs[i], path);
                let ghost before = r@;
                r.push(s);
                assert(r@.map_values(|o: Option<String>| optv(o)) =~= before.map_values(
                    |o: Option<String>| optv(o),
                ).push(optv(s)));
                assert(xs@.take(i + 1) =~= xs@.take(i as int).push(xs@[i as int]));
                i += 1;
            }
            assert(xs@.take(xs.len() as int) =~= xs@);
        },
        None => {
            assert(r@.map_values(|o: Option<String>| optv(o)) =~= Seq::<Option<Seq<char>>>::empty());
        },
    }
    r
}

fn present_strs_of(items: Option<&Vec<Json>>, path: &[Step]) -> (r: Vec<String>)
    ensures
        views(r@) == present_strs(
            match items {
                Some(xs) => xs@,
                None => Seq::<Json>::empty(),
            },
            path@,
        ),
{
    let mut r: Vec<String> = Vec::new();
    match items {
        Some(xs) => {
            let mut i: usize = 0;
            while i < xs.len()
                invariant
                    i <= xs.len(),
                    views(r@) == present_strs(xs@.take(i as int), path@),
                decreases xs.len() - i,
            {
                assert(xs@.take(i + 1).drop_last() =~= xs@.take(i as int));
                let ghost before = r@;
                match str_at(&xs[i], path) {
                    Some(s) => {
                        r.push(s);
                        assert(views(r@) =~= views(before).push(s@));
                    },
                    None => {},
                }
                i += 1;
            }
            assert(xs@.take(xs.len() as int) =~= xs@);
        },
        None => {
            assert(views(r@) =~= Seq::<Seq<char>>::empty());
        },
    }
    r
}

fn pairs_of(items: Option<&Vec<Json>>, a: &[Step], b: &[Step]) -> (r: Vec<(String, String)>)
    ensures
        r@.map_values(|p: (String, String)| (p.0@, p.1@)) == (match items {
            Some(xs) => xs@,
            None => Seq::<Json>::empty(),
        }).map_values(|t: Json| (str_or_empty(t, a@), str_or_empty(t, b@))),
{
    let mut r: Vec<(String, String)> = Vec::new();
    match items {
        Some(xs) => {
            let mut i: usize = 0;
            while i < xs.len()
                invariant
                    i <= xs.len(),
                    r@.map_values(|p: (String, String)| (p.0@, p.1@)) == xs@.take(i as int).map_values(
                        |t: Json| (str_or_empty(t, a@), str_or_empty(t, b@)),
                    ),
                decreases xs.len() - i,
            {
                let x = str_at_or_empty(&xs[i], a);
                let y = str_at_or_empty(&xs[i], b);
                let ghost before = r@;
                r.push((x, y));
                assert(r@.map_values(|p: (String, String)| (p.0@, p.1@)) =~= before.map_values(
                    |p: (String, String)| (p.0@, p.1@),
                ).push((x@, y@)));
                assert(xs@.take(i + 1) =~= xs@.take(i as int).push(xs@[i as int]));
                i += 1;
            }
            assert(xs@.take(xs.len() as int) =~= xs@);
        },
        None => {
            assert(r@.map_values(|p: (String, String)| (p.0@, p.1@)) =~= Seq::<
                (Seq<char>, Seq<char>),
            >::empty());
        },
    }
    r
}

fn ee_of(items: Option<&Vec<Json>>) -> (r: Vec<(String, Option<String>)>)
    ensures
        r@.map_values(|p: (String, Option<String>)| (p.0@, optv(p.1))) == (match items {
            Some(xs) => xs@,
            None => Seq::<Json>::empty(),
        }).map_values(
            |t: Json|
                (
                    str_or_empty(t, seq![Step("pos")]),
                    str_of(at_spec(t, seq![Step("tr"), Step("0"), Step("l"), Step("i")])),
                ),
        ),
{
    let pos = [Step("pos")];
    let tr = [Step("tr"), Step("0"), Step("l"), Step("i")];
    assert(pos@ == seq![Step("pos")]);
    assert(tr@ == seq![Step("tr"), Step("0"), Step("l"), Step("i")]);
    let mut r: Vec<(String, Option<String>)> = Vec::new();
    match items {
        Some(xs) => {
            let mut i: usize = 0;
            while i < xs.len()
                invariant
                    i <= xs.len(),
                    pos@ == seq![Step("pos")],
                    tr@ == seq![Step("tr"), Step("0"), Step("l"), Step("i")],
                    r@.map_values(|p: (String, Option<String>)| (p.0@, optv(p.1))) == xs@.take(
                        i as int,
                    ).map_values(|t: Json| (str_or_empty(t, pos@), str_of(at_spec(t, tr@)))),
                decreases xs.len() - i,
            {
                let x = str_at_or_empty(&xs[i], &pos);
                let y = str_at(&xs[i], &tr);
                let ghost before = r@;
                r.push((x, y));
                assert(r@.map_values(|p: (String, Option<String>)| (p.0@, optv(p.1))) =~= before.map_values(
                    |p: (String, Option<String>)| (p.0@, optv(p.1)),
                ).push((x@, optv(y))));
                assert(xs@.take(i + 1) =~= xs@.take(i as int).push(xs@[i as int]));
                i += 1;
            }
            assert(xs@.take(xs.len() as int) =~= xs@);
        },
        None => {
            assert(r@.map_values(|p: (String, Option<String>)| (p.0@, optv(p.1))) =~= Seq::<
                (Seq<char>, Option<Seq<char>>),
            >::empty());
        },
    }
    r
}

fn groups_of(items: Option<&Vec<Json>>, pos: &[Step], words: &[Step], word: &[Step]) -> (r: Vec<
    (String, Vec<String>),
>)
    ensures
        r@.map_values(|p: (String, Vec<String>)| (p.0@, views(p.1@))) == (match items {
            Some(xs) => xs@,
            None => Seq::<Json>::empty(),
        }).map_values(
            |g: Json| (str_or_empty(g, pos@), present_strs(items_of(at_spec(g, words@)), word@)),
        ),
{
    let mut r: Vec<(String, Vec<String>)> = Vec::new();
    match items {
        Some(xs) => {
            let mut i: usize = 0;
            while i < xs.len()
                invariant
                    i <= xs.len(),
                    r@.map_values(|p: (String, Vec<String>)| (p.0@, views(p.1@))) == xs@.take(
                        i as int,
                    ).map_values(
                        |g: Json|
                            (str_or_empty(g, pos@), present_strs(items_of(at_spec(g, words@)), word@)),
                    ),
                decreases xs.len() - i,
            {
                let p = str_at_or_empty(&xs[i], pos);
                let ws = present_strs_of(items_at(&xs[i], words), word);
                let ghost before = r@;
                r.push((p, ws));
                assert(r@.map_values(|p: (String, Vec<String>)| (p.0@, views(p.1@))) =~= before.map_values(
                    |p: (String, Vec<String>)| (p.0@, views(p.1@)),
                ).push((p@, views(ws@))));
                assert(xs@.take(i + 1) =~= xs@.take(i as int).push(xs@[i as int]));
                i += 1;
            }
            assert(xs@.take(xs.len() as int) =~= xs@);
        },
        None => {
            assert(r@.map_values(|p: (String, Vec<String>)| (p.0@, views(p.1@))) =~= Seq::<
                (Seq<char>, Seq<Seq<char>>),
            >::empty());
        },
    }
    r
}

/// The values of Youdao's body that the card reads.
pub fn youdao_raw_from_json(v: &Json) -> (r: YoudaoRaw)
    ensures
        raw_from_json(r, *v),
{
    let ec_list = [Step("ec"), Step("word"), Step("0"), Step("trs")];
    let ec_item = [Step("tr"), Step("0"), Step("l"), Step("i"), Step("0")];
    let ee_list = [Step("ee"), Step("word"), Step("trs")];
    let syno_list = [Step("syno"), Step("synos")];
    let syno_pos = [Step("syno"), Step("pos")];
    let syno_ws = [Step("syno"), Step("ws")];
    let syno_w = [Step("w")];
    let rel_list = [Step("rel_word"), Step("rels")];
    let rel_pos = [Step("rel"), Step("pos")];
    let rel_words = [Step("rel"), Step("words")];
    let rel_word = [Step("word")];
    let phr_list = [Step("phrs"), Step("phrs")];
    let phr_head = [Step("phr"), Step("headword"), Step("l"), Step("i")];
    let phr_tr = [
        Step("phr"),
        Step("trs"),
        Step("0"),
        Step("tr"),
        Step("l"),
        Step("i"),
    ];
    let sent_list = [Step("blng_sents_part"), Step("sentence-pair")];
    let sent_en = [Step("sentence")];
    let sent_zh = [Step("sentence-translation")];
    let web_list = [Step("web_trans"), Step("web-translation")];
    let web_item = [Step("trans"), Step("0"), Step("value")];
    let wiki_a = [Step("wikipedia_digest"), Step("summarys"), Step("0"), Step("summary")];
    let wiki_b = [Step("wikipedia_digest"), Step("summary"), Step("0"), Step("summary")];
    let etym_a = [Step("etym"), Step("etyms"), Step("zh"), Step("0"), Step("value")];
    let etym_b = [Step("etym"), Step("etyms"), Step("0"), Step("value")];
    assert(ec_list@ =~= seq![Step("ec"), Step("word"), Step("0"), Step("trs")]);
    assert(ec_item@ =~= seq![Step("tr"), Step("0"), Step("l"), Step("i"), Step("0")]);
    assert(ee_list@ =~= seq![Step("ee"), Step("word"), Step("trs")]);
    assert(syno_list@ =~= seq![Step("syno"), Step("synos")]);
    assert(syno_pos@ =~= seq![Step("syno"), Step("pos")]);
    assert(syno_ws@ =~= seq![Step("syno"), Step("ws")]);
    assert(syno_w@ =~= seq![Step("w")]);
    assert(rel_list@ =~= seq![Step("rel_word"), Step("rels")]);
    assert(rel_pos@ =~= seq![Step("rel"), Step("pos")]);
    assert(rel_words@ =~= seq![Step("rel"), Step("words")]);
    assert(rel_word@ =~= seq![Step("word")]);
    assert(phr_list@ =~= seq![Step("phrs"), Step("phrs")]);
    assert(phr_head@ =~= seq![Step("phr"), Step("headword"), Step("l"), Step("i")]);
    assert(phr_tr@ =~= seq![Step("phr"), Step("trs"), Step("0"), Step("tr"), Step("l"), Step("i")]);
    assert(sent_list@ =~= seq![Step("blng_sents_part"), Step("sentence-pair")]);
    assert(sent_en@ =~= seq![Step("sentence")]);
    assert(sent_zh@ =~= seq![Step("sentence-translation")]);
    assert(web_list@ =~= seq![Step("web_trans"), Step("web-translation")]);
    assert(web_item@ =~= seq![Step("trans"), Step("0"), Step("value")]);
    assert(wiki_a@ =~= seq![Step("wikipedia_digest"), Step("summarys"), Step("0"), Step("summary")]);
    assert(wiki_b@ =~= seq![Step("wikipedia_digest"), Step("summary"), Step("0"), Step("summary")]);
    assert(etym_a@ =~= seq![Step("etym"), Step("etyms"), Step("zh"), Step("0"), Step("value")]);
    assert(etym_b@ =~= seq![Step("etym"), Step("etyms"), Step("0"), Step("value")]);
    let raw = YoudaoRaw {
        ec: strs_of_items(items_at(v, &ec_list), &ec_item),
        ee: ee_of(items_at(v, &ee_list)),
        syno: groups_of(items_at(v, &syno_list), &syno_pos, &syno_ws, &syno_w),
        rel: groups_of(items_at(v, &rel_list), &rel_pos, &rel_words, &rel_word),
        phrs: pairs_of(items_at(v, &phr_list), &phr_head, &phr_tr),
        sents: pairs_of(items_at(v, &sent_list), &sent_en, &sent_zh),
        web: strs_of_items(items_at(v, &web_list), &web_item),
        wiki_summarys: str_at(v, &wiki_a),
        wiki_summary: str_at(v, &wiki_b),
        etym_zh: str_at(v, &etym_a),
        etym_first: str_at(v, &etym_b),
    };
    raw
}

/// `r` is what the card shows for the values `raw`: data holding
/// exactly what they give when something is left, else nothing.
pub open spec fn youdao_result(r: Option<YoudaoData>, raw: YoudaoRaw) -> bool {
    match r {
        Some(d) => youdao_data_from(d, raw) && !youdao_empty(d),
        None => forall|d: YoudaoData| youdao_data_from(d, raw) ==> #[trigger] youdao_empty(d),
    }
}

/// What the card shows from Youdao's JSON body: its values read as
/// `youdao_raw_from_json` reads them, then kept as `youdao_from_raw`
/// keeps them.
pub fn youdao_from_json(v: &Json) -> (r: Option<YoudaoData>)
    ensures
        exists|raw: YoudaoRaw| #[trigger] raw_from_json(raw, *v) && youdao_result(r, raw),
{
    let raw = youdao_raw_from_json(v);
    youdao_from_raw(&raw)
}

} // verus!
