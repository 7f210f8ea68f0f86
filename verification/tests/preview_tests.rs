use alfred_eudic::card::CardSources;
use alfred_eudic::dictionary::StardictEntry;
use alfred_eudic::llm::response::{LlmChinese, LlmEnglish, LlmExample, LlmResult, LlmTech};
use alfred_eudic::preview::blocks::ecdict_zh;
use alfred_eudic::preview::page::{card_body, render_card, LLM_LOADING_HTML, REFRESH_META};
use alfred_eudic::preview::{build_toc, encoded_word, external_links, preview_filename, render_claude_inner};
use alfred_eudic::sources::datamuse::DatamuseData;
use alfred_eudic::sources::mw::{MwLearnersData, MwThesaurusData};
use alfred_eudic::sources::wikipedia::WikipediaSummary;
use alfred_eudic::sources::wiktionary::{WiktionaryData, WkSense};
use alfred_eudic::sources::youdao::YoudaoData;
use alfred_eudic::sources::{DictEntry, URBAN_EXAMPLE_SEP};

fn no_entries() -> Vec<DictEntry> {
    Vec::new()
}

fn entry(word: &str) -> StardictEntry {
    StardictEntry {
        id: 1,
        word: word.to_string(),
        sw: word.to_string(),
        phonetic: None,
        definition: None,
        translation: None,
        pos: None,
        collins: None,
        oxford: None,
        tag: None,
        bnc: None,
        frq: None,
        exchange: None,
        detail: None,
        audio: None,
    }
}

#[test]
fn toc_skips_missing_sections_and_keeps_present_ones() {
    let body = "<section><h2 id=\"ee\">x</h2></section>\
                <section><h2 id=\"wiki\">y</h2></section>";
    let toc = build_toc(body);
    assert!(toc.contains("href=\"#ee\""), "ee anchor present");
    assert!(toc.contains("href=\"#wiki\""), "wiki anchor present");
    assert!(!toc.contains("href=\"#syn\""), "absent sections must not appear");
    assert!(toc.contains("class=\"toc\""), "nav wrapper has toc class");
}

#[test]
fn toc_is_empty_when_no_known_sections() {
    assert!(build_toc("<p>nothing</p>").is_empty());
}

#[test]
fn toc_exact_text() {
    let toc = build_toc("<h2 id=\"urban\">u</h2><h2 id=\"llm\">l</h2>");
    assert_eq!(toc, "<nav class=\"toc\"><a href=\"#llm\">🤖 LLM</a><a href=\"#urban\">🔥 Urban</a></nav>");
}

#[test]
fn empty_everything_is_none() {
    let cs = CardSources::default();
    assert!(render_card("x", &None, &no_entries(), &no_entries(), &None, &cs, false).is_none());
}

#[test]
fn renders_blocks_in_priority_order_and_escapes() {
    let mut cs = CardSources::default();
    cs.datamuse = Some(DatamuseData {
        synonyms: vec!["glad".into()],
        antonyms: vec!["sad".into()],
        related: vec![],
    });
    cs.wikipedia = Some(WikipediaSummary {
        title: "Happy".into(),
        extract: "Happiness <is> good".into(),
        url: Some("https://w/Happy".into()),
        images: vec![],
    });
    let wordnik = vec![DictEntry {
        headword: "happy".into(),
        definition: "feeling <xref>joy</xref>".into(),
        extra: Some("adjective".into()),
    }];
    let html = render_card("ha<ppy", &None, &wordnik, &no_entries(), &None, &cs, false).unwrap();
    let i_ee = html.find("🔤 English-English").unwrap();
    let i_syn = html.find("🔄 Synonyms").unwrap();
    let i_wiki = html.find("📖 Wikipedia").unwrap();
    assert!(i_ee < i_syn && i_syn < i_wiki, "block order must follow priority");
    assert!(html.contains("feeling joy"), "xref stripped");
    assert!(html.contains("ha&lt;ppy"), "title escaped");
    assert!(html.contains("Happiness &lt;is&gt; good"), "wiki escaped");
}

#[test]
fn youdao_wiki_digest_is_never_used_as_fallback() {
    let mut cs = CardSources::default();
    let mut yd = YoudaoData::default();
    yd.wiki = Some("Splendid may refer to:".into());
    yd.ec_zh = vec!["adj. 灿烂的".into()];
    cs.youdao = Some(yd);
    let html = render_card("splendid", &None, &no_entries(), &no_entries(), &None, &cs, false).unwrap();
    assert!(!html.contains("📖 Wikipedia"), "wiki block must be absent when only youdao digest exists");
    assert!(!html.contains("Splendid may refer to:"), "disambiguation string must not leak in");
}

#[test]
fn skips_blocks_without_data() {
    let mut cs = CardSources::default();
    cs.wikipedia = Some(WikipediaSummary {
        title: "T".into(),
        extract: "Only wiki here".into(),
        url: None,
        images: vec![],
    });
    let html = render_card("t", &None, &no_entries(), &no_entries(), &None, &cs, false).unwrap();
    assert!(html.contains("📖 Wikipedia"));
    assert!(!html.contains("🔤 English-English"));
    assert!(!html.contains("🔄 Synonyms"));
}

#[test]
fn urban_example_separator_renders_em_and_no_unclosed_on_literal_text() {
    let cs = CardSources::default();
    let urban = vec![DictEntry {
        headword: "x".into(),
        definition: format!("plain  e.g. text{}an actual example", URBAN_EXAMPLE_SEP),
        extra: None,
    }];
    let html = render_card("x", &None, &no_entries(), &urban, &None, &cs, false).unwrap();
    assert_eq!(html.matches("<br><em>e.g. ").count(), 1);
    assert!(html.contains("plain  e.g. text"));
    assert!(html.contains("an actual example"));
}

#[test]
fn llm_block_skipped_when_translations_empty() {
    let cs = CardSources::default();
    let r = LlmResult { english: None, tech: None, chinese: None };
    assert!(render_card("x", &None, &no_entries(), &no_entries(), &Some(r), &cs, false).is_none());
}

#[test]
fn loading_card_has_placeholder_and_refresh() {
    let cs = CardSources::default();
    let html = render_card("word", &None, &no_entries(), &no_entries(), &None, &cs, true).unwrap();
    assert!(html.contains(REFRESH_META));
    assert!(html.contains(LLM_LOADING_HTML));
    assert!(html.contains("⏳ Still thinking…</span> this section will appear automatically in ~15–25 seconds. You can keep scrolling the rest of the card."));
    assert!(html.contains("<a href=\"#llm\">🤖 LLM</a>"));
}

#[test]
fn finished_card_has_no_refresh() {
    let mut cs = CardSources::default();
    cs.wikipedia = Some(WikipediaSummary {
        title: "T".into(),
        extract: "text".into(),
        url: None,
        images: vec![],
    });
    let html = render_card("t", &None, &no_entries(), &no_entries(), &None, &cs, false).unwrap();
    assert!(!html.contains("http-equiv"));
}

fn sample_answer() -> LlmResult {
    LlmResult {
        english: Some(LlmEnglish {
            definitions: vec!["a lucky find".into()],
            examples: vec![
                LlmExample { scenario: "internet".into(), sentence: "What <luck>!".into() },
                LlmExample { scenario: "pub".into(), sentence: "".into() },
                LlmExample { scenario: "pub".into(), sentence: "Cheers".into() },
            ],
        }),
        tech: Some(LlmTech { is_tech_term: false, domains: vec!["x".into()], explanation: None }),
        chinese: Some(LlmChinese {
            translations: vec!["机缘".into(), "巧合".into()],
            usage_notes: Some("书面".into()),
        }),
    }
}

#[test]
fn loading_ignores_the_answer() {
    let cs = CardSources::default();
    let a = card_body("w", &None, &no_entries(), &no_entries(), &None, &cs, true);
    let b = card_body("w", &None, &no_entries(), &no_entries(), &Some(sample_answer()), &cs, true);
    assert_eq!(a, b);
}

#[test]
fn claude_inner_exact() {
    let inner = render_claude_inner(&sample_answer());
    assert_eq!(
        inner,
        "<h3>📖 English meaning</h3><ol><li>a lucky find</li></ol>\
<p><span class=\"src\">Examples by register</span></p><ul>\
<li><span class=\"src\">🌍 Internet</span> What &lt;luck&gt;!</li>\
<li><span class=\"src\">pub</span> Cheers</li></ul>\
<h3>🀄 Chinese</h3><p>机缘; 巧合</p><p><span class=\"src\">用法:</span> 书面</p>"
    );
}

#[test]
fn claude_inner_tech_needs_tech_term() {
    let r = LlmResult {
        english: None,
        tech: Some(LlmTech {
            is_tech_term: true,
            domains: vec!["SQL".into(), "ops".into()],
            explanation: Some("  ".into()),
        }),
        chinese: None,
    };
    assert_eq!(
        render_claude_inner(&r),
        "<h3>💻 Tech use</h3><p><span class=\"src\">Used in:</span> SQL · ops</p>"
    );
    assert_eq!(render_claude_inner(&LlmResult { english: None, tech: None, chinese: None }), "");
}

#[test]
fn preview_filename_examples() {
    assert_eq!(preview_filename("  Hello World "), "preview-hello_world.html");
    assert_eq!(preview_filename("你好"), "preview-__blank.html");
    assert_eq!(preview_filename(""), "preview-blank.html");
    let long = "a".repeat(100);
    assert_eq!(preview_filename(&long), format!("preview-{}.html", "a".repeat(60)));
}

#[test]
fn filename_ignores_case_and_padding() {
    assert_eq!(preview_filename("AS"), preview_filename(" as "));
    assert_ne!(preview_filename("as"), preview_filename("ass"));
}

#[test]
fn external_links_are_encoded() {
    assert_eq!(encoded_word(" ad hoc "), "ad%20hoc");
    let links = external_links("ad hoc");
    assert_eq!(links.len(), 8);
    assert_eq!(links[0].0, "Wikipedia");
    assert_eq!(links[0].1, "https://en.wikipedia.org/wiki/ad%20hoc");
    assert_eq!(links[7].0, "Youdao");
    assert_eq!(links[7].1, "https://www.youdao.com/result?word=ad%20hoc&lang=en");
}

#[test]
fn english_english_caps_secondary_sources() {
    let mut cs = CardSources::default();
    cs.mw_learners = Some(MwLearnersData {
        pos: Some("noun".into()),
        phonetic: None,
        audio_url: None,
        short_defs: (1..=7).map(|i| format!("d{}", i)).collect(),
    });
    cs.wiktionary = Some(WiktionaryData {
        senses: vec![
            WkSense { pos: "Noun".into(), definitions: vec!["a".into(), "b".into(), "c".into()] },
            WkSense { pos: "".into(), definitions: vec!["d".into(), "e".into(), "f".into()] },
        ],
    });
    let html = render_card("t", &None, &no_entries(), &no_entries(), &None, &cs, false).unwrap();
    assert!(html.contains("<li>d5<span class=\"meta\">noun</span></li><li><span class=\"src\">… (+2 more — click M-W Learner's above)</span></li>"));
    assert!(!html.contains("<li>d6"));
    assert!(html.contains("<li>e</li><li><span class=\"src\">… (+1 more — click Wiktionary above)</span></li>"));
    assert!(!html.contains("<li>f</li>"));
}

#[test]
fn thesaurus_groups_are_labelled_by_sense() {
    let mut cs = CardSources::default();
    cs.mw_thesaurus = Some(MwThesaurusData {
        synonym_groups: vec![vec!["exam".into(), "quiz".into()], vec![], vec!["trial".into()]],
        antonym_groups: vec![vec!["proof".into()]],
    });
    let html = render_card("test", &None, &no_entries(), &no_entries(), &None, &cs, false).unwrap();
    assert!(html.contains("<span class=\"src\">sense 1 (2):</span><span>exam, quiz</span>"));
    assert!(html.contains("<span class=\"src\">sense 3 (1):</span><span>trial</span>"));
    assert!(!html.contains("sense 2"));
    assert!(html.contains("<span class=\"src\">(1):</span><span>proof</span>"));
}

#[test]
fn chinese_and_tags_from_ecdict() {
    let mut e = entry("test");
    e.translation = Some("n. 测试\\检验\nv. 试验".into());
    e.exchange = Some("s:tests".into());
    e.tag = Some("".into());
    e.collins = Some(7);
    e.phonetic = Some("test".into());
    assert_eq!(ecdict_zh(&Some(e.clone())), "n. 测试/检验; v. 试验");
    let cs = CardSources::default();
    let html = render_card("test", &Some(e), &no_entries(), &no_entries(), &None, &cs, false).unwrap();
    assert!(html.contains("<h3>📕 ECDICT</h3><p>n. 测试/检验; v. 试验</p>"));
    assert!(html.contains("<p>s:tests</p>"));
    assert!(!html.contains("Exam:"));
    assert!(html.contains(&format!("<p>Collins {}</p>", "⭐️".repeat(5))));
    assert!(html.contains("<p class=\"ph\">/test/</p>"));
    assert!(html.contains("<h3>📕 ECDICT</h3><p>/test/</p>"));
}

#[test]
fn ecdict_definition_used_when_no_translation() {
    let mut e = entry("w");
    e.definition = Some("a\nb".into());
    assert_eq!(ecdict_zh(&Some(e)), "a; b");
    assert_eq!(ecdict_zh(&None), "");
}

#[test]
fn pronunciation_and_phonetic_fallback() {
    let mut cs = CardSources::default();
    cs.mw_learners = Some(MwLearnersData {
        pos: None,
        phonetic: Some("ˈtɛst".into()),
        audio_url: Some("https://a/t.mp3".into()),
        short_defs: vec![],
    });
    let html = render_card("test", &None, &no_entries(), &no_entries(), &None, &cs, false).unwrap();
    assert!(html.contains("<p class=\"ph\">/ˈtɛst/</p>"));
    assert!(html.contains("<p><a href=\"https://a/t.mp3\">▶ play audio</a></p>"));
    assert!(html.contains("<h3>📗 <a href=\"https://learnersdictionary.com/definition/test\">M-W Learner's →</a></h3>"));
}

#[test]
fn phrases_and_etymology_from_youdao() {
    let mut cs = CardSources::default();
    let mut yd = YoudaoData::default();
    yd.phrs = vec!["acid test — 严峻考验".into()];
    yd.sents = vec![("Run the test.".into(), "运行测试。".into())];
    yd.etym = Some("源自拉丁语".into());
    yd.web_trans = vec!["测试".into(), "检验".into()];
    cs.youdao = Some(yd);
    let html = render_card("test", &None, &no_entries(), &no_entries(), &None, &cs, false).unwrap();
    assert!(html.contains("<ul><li>acid test — 严峻考验</li></ul><p>Run the test.<span class=\"meta\">运行测试。</span></p>"));
    assert!(html.contains("<h2 id=\"etym\">🌱 Etymology</h2>"));
    assert!(html.contains("<p><span class=\"src\">Web:</span> 测试; 检验</p>"));
}

#[test]
fn wikipedia_images_and_link() {
    let mut cs = CardSources::default();
    cs.wikipedia = Some(WikipediaSummary {
        title: "T".into(),
        extract: "x".into(),
        url: Some("https://w/T".into()),
        images: vec!["https://i/1.png".into()],
    });
    let html = render_card("t", &None, &no_entries(), &no_entries(), &None, &cs, false).unwrap();
    assert!(html.contains("<div class=\"img-grid\"><img src=\"https://i/1.png\" loading=\"lazy\"></div><a class=\"wiki-link\" href=\"https://w/T\">📖 Read on Wikipedia →</a></section>"));
}

#[test]
fn blank_tech_explanation_is_not_usable() {
    let r = LlmResult {
        english: None,
        tech: Some(LlmTech { is_tech_term: true, domains: vec![], explanation: Some(String::new()) }),
        chinese: None,
    };
    assert_eq!(render_claude_inner(&r), "");
    let cs = CardSources::default();
    assert!(render_card("x", &None, &no_entries(), &no_entries(), &Some(r), &cs, false).is_none());
}
