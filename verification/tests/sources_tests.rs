use alfred_eudic::cache::CacheKind;
use alfred_eudic::sources::datamuse::datamuse_from_lists;
use alfred_eudic::sources::freedict::{freedict_from_entries, FdRawDef, FdRawEntry, FdRawMeaning, FdRawPhonetic};
use alfred_eudic::sources::mw::{
    mw_audio_url, mw_learners_from_entries, mw_request_path, mw_thesaurus_from_entries, MwLearnersRaw,
    MwPron, MwThesaurusRaw,
};
use alfred_eudic::sources::urban::{clean, urban_entries, UrbanItem};
use alfred_eudic::sources::wikipedia::{
    media_base_for, normalize_image_url, wikipedia_from_raw, WikiRawMedia, WikiRawSummary,
};
use alfred_eudic::sources::wiktionary::{wiktionary_from_english, WkRawDef};
use alfred_eudic::sources::wordnik::{wordnik_definitions_url, wordnik_encode, wordnik_entries, WordnikDef};
use alfred_eudic::sources::youdao::{youdao_from_raw, YoudaoRaw};
use alfred_eudic::sources::{status_verdict, SourceError, SourceKind, URBAN_EXAMPLE_SEP};
use alfred_eudic::url::{encode_path_segment, word_url};

fn s(x: &str) -> String {
    x.to_string()
}

#[test]
fn audio_subdir_rule() {
    assert_eq!(mw_audio_url("test0001").unwrap(), "https://media.merriam-webster.com/audio/prons/en/us/mp3/t/test0001.mp3");
    assert_eq!(mw_audio_url("bixxx").unwrap(), "https://media.merriam-webster.com/audio/prons/en/us/mp3/bix/bixxx.mp3");
    assert_eq!(mw_audio_url("_3test").unwrap(), "https://media.merriam-webster.com/audio/prons/en/us/mp3/number/_3test.mp3");
    assert_eq!(mw_audio_url("3d").unwrap(), "https://media.merriam-webster.com/audio/prons/en/us/mp3/number/3d.mp3");
    assert!(mw_audio_url("").is_none());
}

#[test]
fn encodes_space_slash_and_unicode() {
    assert_eq!(encode_path_segment("blood pressure"), "blood%20pressure");
    assert_eq!(encode_path_segment("AC/DC"), "AC%2FDC");
    assert_eq!(encode_path_segment("naïve"), "na%C3%AFve");
    assert_eq!(encode_path_segment("plain"), "plain");
}

#[test]
fn unreserved_characters_are_kept() {
    assert_eq!(encode_path_segment("a-b_c.d~e"), "a-b_c.d~e");
    assert_eq!(encode_path_segment("?&="), "%3F%26%3D");
}

#[test]
fn source_kinds() {
    assert_eq!(SourceKind::Urban.cache_kind(), CacheKind::Urban);
    assert_eq!(SourceKind::Wordnik.cache_kind(), CacheKind::Wordnik);
    assert_eq!(SourceKind::Urban.name(), "Urban");
    assert_eq!(SourceKind::Wordnik.name(), "Wordnik");
}

#[test]
fn source_error_messages() {
    assert_eq!(SourceError::Http(s("boom")).message(), "HTTP error: boom");
    assert_eq!(SourceError::Timeout.message(), "request timeout");
    assert_eq!(SourceError::BadResponse(s("x")).message(), "bad response: x");
    assert_eq!(SourceError::RateLimited.message(), "rate limited");
    assert_eq!(SourceError::NoApiKey.message(), "no API key configured");
    assert!(matches!(SourceError::from_transport(true, s("t")), SourceError::Timeout));
    assert!(matches!(SourceError::from_transport(false, s("t")), SourceError::Http(m) if m == "t"));
}

fn item(def: &str, ex: &str, up: i64, down: i64) -> UrbanItem {
    UrbanItem { definition: s(def), example: s(ex), thumbs_up: up, thumbs_down: down }
}

#[test]
fn parses_response_and_sorts_by_thumbs_up() {
    let items = vec![
        item("low one", "", 5, 0),
        item("high one [charisma]", "He's got rizz", 500, 3),
        item("mid one", "", 100, 0),
    ];
    let r = urban_entries("rizz", &items);
    assert_eq!(r.len(), 3);
    assert!(r[0].definition.starts_with("high one"));
    assert!(r[0].definition.contains("charisma"));
    assert!(!r[0].definition.contains('['));
    assert_eq!(r[0].extra.as_deref(), Some("👍 500  👎 3"));
    assert_eq!(r[0].definition, format!("high one charisma{}He's got rizz", URBAN_EXAMPLE_SEP));
    assert_eq!(r[1].definition, "mid one");
    assert_eq!(r[2].definition, "low one");
    assert_eq!(r[0].headword, "rizz");
}

#[test]
fn empty_list_returns_empty_vec() {
    assert!(urban_entries("asdfqwer", &vec![]).is_empty());
}

#[test]
fn urban_keeps_top_three_and_ties_in_order() {
    let items = vec![
        item("a", "", 1, 0),
        item("b", "", 7, 0),
        item("c", "", 7, 0),
        item("d", "", 3, 0),
        item("e", "", 9, 0),
    ];
    let r = urban_entries("w", &items);
    let defs: Vec<&str> = r.iter().map(|e| e.definition.as_str()).collect();
    assert_eq!(defs, vec!["e", "b", "c"]);
}

#[test]
fn urban_clean_collapses_and_cuts() {
    assert_eq!(clean("  a [b]\n\n c  "), "a b c");
    let long = "x".repeat(230);
    assert_eq!(clean(&long), format!("{}…", "x".repeat(220)));
}

#[test]
fn http_500_is_bad_response() {
    let v = status_verdict(500, "500 Internal Server Error", false);
    assert!(matches!(v, Some(Err(SourceError::BadResponse(m))) if m == "HTTP 500 Internal Server Error"));
}

#[test]
fn rate_limit_is_distinct_error() {
    assert!(matches!(status_verdict(429, "429 Too Many Requests", false), Some(Err(SourceError::RateLimited))));
}

#[test]
fn http_404_returns_empty() {
    assert!(matches!(status_verdict(404, "404 Not Found", true), Some(Ok(v)) if v.is_empty()));
    assert!(matches!(status_verdict(404, "404 Not Found", false), Some(Err(SourceError::BadResponse(_)))));
    assert!(status_verdict(200, "200 OK", true).is_none());
}

fn wdef(text: Option<&str>, pos: Option<&str>, src: Option<&str>) -> WordnikDef {
    WordnikDef {
        text: text.map(s),
        part_of_speech: pos.map(s),
        source_dictionary: src.map(s),
    }
}

#[test]
fn parses_definitions() {
    let defs = vec![
        wdef(Some("good luck in making unexpected discoveries"), Some("noun"), Some("ahd-5")),
        wdef(Some("the fact of finding interesting things by chance"), Some("noun"), Some("wiktionary")),
    ];
    let r = wordnik_entries("serendipity", &defs);
    assert_eq!(r.len(), 2);
    assert!(r[0].definition.contains("good luck"));
    assert_eq!(r[0].extra.as_deref(), Some("noun · ahd-5"));
}

#[test]
fn drops_entries_with_empty_text() {
    let defs = vec![wdef(Some("good"), None, None), wdef(Some(""), None, None), wdef(Some("   "), None, None)];
    let r = wordnik_entries("x", &defs);
    assert_eq!(r.len(), 1);
    assert!(r[0].extra.is_none());
}

#[test]
fn no_api_key_returns_error() {
    assert!(matches!(wordnik_definitions_url("https://b", "", "x"), Err(SourceError::NoApiKey)));
    assert_eq!(
        wordnik_definitions_url("https://b/word.json", "k", "ad hoc").unwrap(),
        "https://b/word.json/ad+hoc/definitions"
    );
    assert_eq!(wordnik_encode("a/b"), "a%2Fb");
}

fn yraw() -> YoudaoRaw {
    YoudaoRaw {
        ec: vec![],
        ee: vec![],
        syno: vec![],
        rel: vec![],
        phrs: vec![],
        sents: vec![],
        web: vec![],
        wiki_summarys: None,
        wiki_summary: None,
        etym_zh: None,
        etym_first: None,
    }
}

#[test]
fn parses_core_fields() {
    let mut raw = yraw();
    raw.ec = vec![Some(s("n. 测试"))];
    raw.ee = vec![(s("noun"), Some(s("a procedure")))];
    raw.syno = vec![(s("n."), vec![s("trial"), s("exam")])];
    raw.phrs = vec![(s("acid test"), s("严峻考验"))];
    raw.sents = vec![(s("Run the test."), s("运行测试。"))];
    raw.web = vec![Some(s("测试；检验"))];
    raw.wiki_summarys = Some(s("A test is an assessment."));
    raw.etym_zh = Some(s("源自拉丁语"));
    let d = youdao_from_raw(&raw).unwrap();
    assert_eq!(d.ec_zh, vec!["n. 测试"]);
    assert_eq!(d.ee, vec!["noun a procedure"]);
    assert_eq!(d.syno, vec!["n. trial, exam"]);
    assert_eq!(d.phrs, vec!["acid test — 严峻考验"]);
    assert_eq!(d.sents, vec![(s("Run the test."), s("运行测试。"))]);
    assert_eq!(d.web_trans, vec!["测试；检验"]);
    assert_eq!(d.wiki.as_deref(), Some("A test is an assessment."));
    assert_eq!(d.etym.as_deref(), Some("源自拉丁语"));
}

#[test]
fn empty_body_is_none() {
    assert!(youdao_from_raw(&yraw()).is_none());
}

#[test]
fn whitespace_only_values_are_dropped() {
    let mut raw = yraw();
    raw.ec = vec![Some(s("   "))];
    raw.web = vec![Some(s("  "))];
    assert!(youdao_from_raw(&raw).is_none());
}

#[test]
fn phrase_without_translation_is_headword_only() {
    let mut raw = yraw();
    raw.phrs = vec![(s("acid test"), s(""))];
    let d = youdao_from_raw(&raw).unwrap();
    assert_eq!(d.phrs, vec!["acid test"]);
}

#[test]
fn youdao_fallbacks() {
    let mut raw = yraw();
    raw.wiki_summary = Some(s(" second "));
    raw.etym_zh = Some(s("  "));
    raw.etym_first = Some(s("Latin"));
    let d = youdao_from_raw(&raw).unwrap();
    assert_eq!(d.wiki.as_deref(), Some("second"));
    assert_eq!(d.etym.as_deref(), Some("Latin"));
}

fn summary(kind: &str, extract: &str) -> WikiRawSummary {
    WikiRawSummary {
        kind: s(kind),
        title: s("Serendipity"),
        extract: s(extract),
        page_url: Some(s("https://en.wikipedia.org/wiki/Serendipity")),
    }
}

#[test]
fn parses_standard_summary() {
    let w = wikipedia_from_raw(Some(summary("standard", "Serendipity is an unplanned fortunate discovery.")), None).unwrap();
    assert_eq!(w.title, "Serendipity");
    assert!(w.extract.contains("unplanned"));
    assert_eq!(w.url.as_deref(), Some("https://en.wikipedia.org/wiki/Serendipity"));
    assert!(w.images.is_empty());
}

#[test]
fn disambiguation_is_none() {
    assert!(wikipedia_from_raw(Some(summary("disambiguation", "Mercury may refer to")), None).is_none());
}

#[test]
fn no_extract_type_is_none() {
    assert!(wikipedia_from_raw(Some(summary("no-extract", "some residual text")), None).is_none());
    assert!(wikipedia_from_raw(Some(summary("standard", "   ")), None).is_none());
}

#[test]
fn wikipedia_http_404_is_none() {
    assert!(wikipedia_from_raw(None, None).is_none());
}

#[test]
fn wikipedia_images() {
    let media = vec![
        WikiRawMedia { kind: s("image"), srcs: vec![s("bad"), s("//up/a.png")] },
        WikiRawMedia { kind: s("video"), srcs: vec![s("https://v/x.webm")] },
        WikiRawMedia { kind: s("image"), srcs: vec![s("http://up/b.png")] },
    ];
    let w = wikipedia_from_raw(Some(summary("standard", "x")), Some(media)).unwrap();
    assert_eq!(w.images, vec!["https://up/a.png", "http://up/b.png"]);
    let many: Vec<WikiRawMedia> = (0..9)
        .map(|i| WikiRawMedia { kind: s("image"), srcs: vec![format!("https://i/{}.png", i)] })
        .collect();
    let w = wikipedia_from_raw(Some(summary("standard", "x")), Some(many)).unwrap();
    assert_eq!(w.images.len(), 6);
    assert_eq!(w.images[5], "https://i/5.png");
}

#[test]
fn image_urls_normalize() {
    assert_eq!(normalize_image_url(" //x/y ").as_deref(), Some("https://x/y"));
    assert_eq!(normalize_image_url("ftp://x").as_deref(), None);
    assert_eq!(normalize_image_url("").as_deref(), None);
    assert_eq!(media_base_for("http://h/page/summary"), "http://h/page/media-list");
    assert_eq!(media_base_for("http://h/summary/x"), "http://h/media-list/x");
}

#[test]
fn parses_english_section_and_strips_tags() {
    let en = vec![WkRawDef {
        pos: s("Noun"),
        definitions: vec![s("A challenge, trial."), s("A <a href='x'>cupel</a>.")],
    }];
    let d = wiktionary_from_english(Some(en)).unwrap();
    assert_eq!(d.senses.len(), 1);
    assert_eq!(d.senses[0].pos, "Noun");
    assert_eq!(d.senses[0].definitions, vec!["A challenge, trial.", "A cupel."]);
}

#[test]
fn no_english_is_none() {
    assert!(wiktionary_from_english(None).is_none());
    assert!(wiktionary_from_english(Some(vec![])).is_none());
}

fn learners(fl: Option<&str>, ipa: Option<&str>, audio: Option<&str>, defs: Vec<&str>) -> MwLearnersRaw {
    MwLearnersRaw {
        fl: fl.map(s),
        prs: vec![MwPron { ipa: ipa.map(s), audio: audio.map(s) }],
        shortdef: defs.into_iter().map(s).collect(),
    }
}

#[test]
fn learners_parses_entry() {
    let d = mw_learners_from_entries(Some(vec![learners(
        Some("noun"),
        Some("ˈtɛst"),
        Some("test0001"),
        vec!["a set of questions", "a careful study"],
    )]))
    .unwrap();
    assert_eq!(d.pos.as_deref(), Some("noun"));
    assert_eq!(d.phonetic.as_deref(), Some("ˈtɛst"));
    assert!(d.audio_url.unwrap().ends_with("/t/test0001.mp3"));
    assert_eq!(d.short_defs.len(), 2);
}

#[test]
fn learners_no_key_is_none() {
    assert!(mw_request_path("http://unused", "", "test").is_none());
    assert_eq!(mw_request_path("http://b/learners", "k", "ad hoc").as_deref(), Some("http://b/learners/ad%20hoc"));
}

#[test]
fn learners_no_match_string_array_is_none() {
    assert!(mw_learners_from_entries(None).is_none());
}

#[test]
fn thesaurus_collects_syns_ants() {
    let e = MwThesaurusRaw {
        meta: Some((vec![vec![s("essay"), s("experiment")], vec![s("exam")]], vec![vec![s("proof")]])),
    };
    let d = mw_thesaurus_from_entries(Some(vec![e])).unwrap();
    assert_eq!(d.synonym_groups, vec![vec![s("essay"), s("experiment")], vec![s("exam")]]);
    assert_eq!(d.antonym_groups, vec![vec![s("proof")]]);
}

#[test]
fn thesaurus_keeps_all_sense_groups_across_entries() {
    let a = MwThesaurusRaw {
        meta: Some((vec![vec![s("a"), s("b")], vec![s("c"), s("d")]], vec![vec![s("bad")], vec![s("worse")]])),
    };
    let b = MwThesaurusRaw { meta: Some((vec![vec![s("e")], vec![s("f"), s("g")], vec![]], vec![])) };
    let d = mw_thesaurus_from_entries(Some(vec![a, b])).unwrap();
    assert_eq!(
        d.synonym_groups,
        vec![vec![s("a"), s("b")], vec![s("c"), s("d")], vec![s("e")], vec![s("f"), s("g")]],
        "empty groups dropped; non-empty groups preserved in order"
    );
    assert_eq!(d.antonym_groups, vec![vec![s("bad")], vec![s("worse")]]);
}

#[test]
fn thesaurus_no_key_is_none() {
    assert!(mw_request_path("http://unused", "", "test").is_none());
    assert!(mw_thesaurus_from_entries(None).is_none());
}

#[test]
fn collects_syn_ant_related() {
    let d = datamuse_from_lists(vec![s("glad"), s("joyful")], vec![s("sad")], vec![s("cheerful")]).unwrap();
    assert_eq!(d.synonyms, vec!["glad", "joyful"]);
    assert_eq!(d.antonyms, vec!["sad"]);
    assert_eq!(d.related, vec!["cheerful"]);
}

#[test]
fn all_empty_is_none() {
    assert!(datamuse_from_lists(vec![], vec![], vec![]).is_none());
}

#[test]
fn parses_entry() {
    let e = FdRawEntry {
        phonetic: Some(s("/tɛst/")),
        phonetics: vec![FdRawPhonetic { text: Some(s("/tɛst/")), audio: Some(s("https://x/test.mp3")) }],
        origin: Some(s("late Middle English")),
        meanings: vec![FdRawMeaning {
            pos: s("noun"),
            definitions: vec![FdRawDef { definition: s("a procedure"), example: Some(s("a blood test")) }],
            synonyms: vec![s("trial")],
            antonyms: vec![],
        }],
    };
    let d = freedict_from_entries(&vec![e]).unwrap();
    assert_eq!(d.phonetic.as_deref(), Some("/tɛst/"));
    assert_eq!(d.audio.as_deref(), Some("https://x/test.mp3"));
    assert_eq!(d.origin.as_deref(), Some("late Middle English"));
    assert_eq!(d.meanings[0].pos, "noun");
    assert_eq!(d.meanings[0].examples, vec!["a blood test"]);
    assert_eq!(d.meanings[0].synonyms, vec!["trial"]);
}

#[test]
fn not_found_is_none() {
    assert!(freedict_from_entries(&vec![]).is_none());
}

#[test]
fn wiktionary_http_404_is_none() {
    assert!(wiktionary_from_english(None).is_none());
}

#[test]
fn multiword_query_is_path_encoded() {
    assert_eq!(word_url("http://x/definition", " ad hoc "), "http://x/definition/ad%20hoc");
}
