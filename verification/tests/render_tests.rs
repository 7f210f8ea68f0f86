use alfred_eudic::dictionary::StardictEntry;
use alfred_eudic::llm::response::{LlmChinese, LlmEnglish, LlmExample, LlmResult};
use alfred_eudic::render::{
    render_dict, render_ecdict, render_error, render_llm, render_no_api_key, source_emoji, truncate,
    README_CONFIG_URL,
};
use alfred_eudic::sources::{DictEntry, SourceKind};

fn entry(word: &str) -> StardictEntry {
    StardictEntry {
        id: 1,
        word: word.to_string(),
        sw: word.to_string(),
        phonetic: None,
        definition: None,
        translation: None,
        pos: None,
        collins: None,
        oxford: None,
        tag: None,
        bnc: None,
        frq: None,
        exchange: None,
        detail: None,
        audio: None,
    }
}

#[test]
fn dict_first_item_has_emoji_prefix() {
    let entries = vec![
        DictEntry { headword: "rizz".into(), definition: "charisma".into(), extra: None },
        DictEntry { headword: "rizz".into(), definition: "skill".into(), extra: None },
    ];
    let items = render_dict(&entries, SourceKind::Urban);
    assert!(items[0].title.starts_with("🔥"));
    assert!(!items[1].title.starts_with("🔥"));
}

#[test]
fn llm_renders_translations() {
    let r = LlmResult {
        english: Some(LlmEnglish {
            definitions: vec![],
            examples: vec![LlmExample { scenario: "casual".into(), sentence: "What a serendipity!".into() }],
        }),
        tech: None,
        chinese: Some(LlmChinese {
            translations: vec!["机缘".to_string(), "巧合".to_string()],
            usage_notes: None,
        }),
    };
    let items = render_llm(&r, "serendipity");
    assert_eq!(items.len(), 1);
    let subtitle = items[0].subtitle.clone().unwrap_or_default();
    assert!(subtitle.contains("机缘"));
    assert!(subtitle.contains("巧合"));
}

#[test]
fn error_item_sets_bypass_variable() {
    let item = render_error("Wordnik", "timeout", "rizz");
    let var = item.variables.iter().find(|(k, _)| k == "BYPASS_CACHE").map(|(_, v)| v.as_str());
    assert_eq!(var, Some("1"));
}

#[test]
fn long_definition_is_truncated() {
    let long = "a".repeat(500);
    let entries = vec![DictEntry { headword: "x".into(), definition: long, extra: None }];
    let items = render_dict(&entries, SourceKind::Wordnik);
    let subtitle = items[0].subtitle.clone().unwrap_or_default();
    assert!(subtitle.contains('…'));
}

#[test]
fn truncate_exact() {
    assert_eq!(truncate("short"), "short");
    let exact = "b".repeat(220);
    assert_eq!(truncate(&exact), exact);
    let long = "é".repeat(221);
    assert_eq!(truncate(&long), format!("{}…", "é".repeat(220)));
}

#[test]
fn source_emojis() {
    assert_eq!(source_emoji(SourceKind::Urban), "🔥");
    assert_eq!(source_emoji(SourceKind::Wordnik), "📘");
}

#[test]
fn dict_row_fields() {
    let entries = vec![DictEntry {
        headword: "serendipity".into(),
        definition: "good luck".into(),
        extra: Some("noun · ahd-5".into()),
    }];
    let rows = render_dict(&entries, SourceKind::Wordnik);
    assert_eq!(rows[0].title, "📘 serendipity");
    assert_eq!(rows[0].subtitle.as_deref(), Some("good luck"));
    assert_eq!(rows[0].subtitle_aside, "noun · ahd-5");
    assert_eq!(rows[0].arg.as_deref(), Some("serendipity"));
    assert_eq!(rows[0].cmd_subtitle.as_deref(), Some("good luck"));
    assert_eq!(rows[0].alt_subtitle.as_deref(), Some("noun · ahd-5"));
}

#[test]
fn llm_without_translations_has_no_row() {
    let r = LlmResult { english: None, tech: None, chinese: None };
    assert!(render_llm(&r, "x").is_empty());
}

#[test]
fn llm_row_without_example() {
    let r = LlmResult {
        english: None,
        tech: None,
        chinese: Some(LlmChinese { translations: vec!["译".into()], usage_notes: None }),
    };
    let rows = render_llm(&r, "w");
    assert_eq!(rows[0].title, "🤖 w");
    assert_eq!(rows[0].subtitle.as_deref(), Some("译"));
    assert_eq!(rows[0].cmd_subtitle.as_deref(), Some("译"));
    assert!(rows[0].alt_subtitle.is_none());
}

#[test]
fn ecdict_rows() {
    let mut a = entry("apple");
    a.translation = Some("n. 苹果\nn. 苹果树".into());
    a.phonetic = Some("'æpl".into());
    a.collins = Some(3);
    a.oxford = Some(1);
    a.bnc = Some(0);
    a.frq = Some(1234);
    a.tag = Some("zk gk".into());
    a.exchange = Some("s:apples".into());
    let b = entry("applet");
    let rows = render_ecdict(&vec![a, b]);
    assert_eq!(rows.len(), 2);
    assert_eq!(rows[0].title, "📕 apple");
    assert_eq!(rows[0].title_aside, "⭐️⭐️⭐️");
    assert_eq!(rows[0].subtitle.as_deref(), Some("n. 苹果; n. 苹果树"));
    assert_eq!(rows[0].subtitle_aside, "'æpl");
    assert_eq!(rows[0].cmd_subtitle.as_deref(), Some("s:apples"));
    assert_eq!(
        rows[0].alt_subtitle.as_deref(),
        Some("COLLINS: ⭐️⭐️⭐️; OXFORD 3000; COCA: 1234; zk gk")
    );
    assert_eq!(rows[1].title, "   applet");
    assert_eq!(rows[1].subtitle.as_deref(), Some(""));
    assert_eq!(rows[1].alt_subtitle.as_deref(), Some(""));
}

#[test]
fn no_api_key_row() {
    let row = render_no_api_key("LLM");
    assert_eq!(row.title, "⚙️ LLM 未配置 API key");
    assert_eq!(row.subtitle.as_deref(), Some("回车查看配置说明"));
    assert_eq!(row.arg.as_deref(), Some(README_CONFIG_URL));
}

#[test]
fn error_row_fields() {
    let row = render_error("Urban", "rate limited", "rizz");
    assert_eq!(row.title, "⚠️ Urban: rate limited");
    assert_eq!(row.subtitle.as_deref(), Some("回车重试（绕过缓存）"));
    assert_eq!(row.arg.as_deref(), Some("rizz"));
}

#[test]
fn urban_list_rows_show_example_as_eg() {
    let sep = alfred_eudic::sources::URBAN_EXAMPLE_SEP;
    let e = vec![DictEntry { headword: "rizz".into(), definition: format!("charm{}He's got rizz", sep), extra: None }];
    let rows = render_dict(&e, SourceKind::Urban);
    assert_eq!(rows[0].subtitle.as_deref(), Some("charm  e.g. He's got rizz"));
    assert_eq!(rows[0].cmd_subtitle.as_deref(), Some("charm  e.g. He's got rizz"));
    let rows = render_dict(&e, SourceKind::Wordnik);
    assert_eq!(rows[0].cmd_subtitle.as_deref(), Some(format!("charm{}He's got rizz", sep).as_str()));
}
