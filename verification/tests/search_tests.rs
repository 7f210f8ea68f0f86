use alfred_eudic::dictionary::StardictEntry;
use alfred_eudic::llm::response::{LlmChinese, LlmResult};
use alfred_eudic::llm::LlmError;
use alfred_eudic::search::{
    bypass_cache, db_path, list_rows, llm_loading, llm_outcome, llm_should_run, parse_query,
    reads_llm_cache, source_rows, too_short, too_short_row,
};
use alfred_eudic::sources::{DictEntry, SourceError, SourceKind};

fn entry(word: &str) -> StardictEntry {
    StardictEntry {
        id: 1,
        word: word.to_string(),
        sw: word.to_string(),
        phonetic: None,
        definition: None,
        translation: None,
        pos: None,
        collins: None,
        oxford: None,
        tag: None,
        bnc: None,
        frq: None,
        exchange: None,
        detail: None,
        audio: None,
    }
}

fn dict(word: &str, def: &str) -> DictEntry {
    DictEntry { headword: word.into(), definition: def.into(), extra: None }
}

#[test]
fn bang_prefix_requests_fresh_data() {
    let q = parse_query("  ! rizz ");
    assert_eq!(q.spell, "rizz");
    assert!(q.bypass_prefix);
    let q = parse_query(" hello world ");
    assert_eq!(q.spell, "hello world");
    assert!(!q.bypass_prefix);
    let q = parse_query("!!x");
    assert_eq!(q.spell, "!x");
    assert!(q.bypass_prefix);
}

#[test]
fn one_byte_queries_are_too_short() {
    assert!(too_short(""));
    assert!(too_short("a"));
    assert!(!too_short("ab"));
    assert!(!too_short("好"));
    assert_eq!(too_short_row().title, "Input more than one letter");
}

#[test]
fn bypass_from_prefix_or_variable() {
    assert!(bypass_cache(true, &None));
    assert!(bypass_cache(false, &Some("1".into())));
    assert!(!bypass_cache(false, &Some("0".into())));
    assert!(!bypass_cache(false, &None));
}

#[test]
fn llm_runs_for_short_words_with_key() {
    assert!(llm_should_run("serendipity", "k"));
    assert!(!llm_should_run("serendipity", ""));
    assert!(!llm_should_run(&"a".repeat(51), "k"));
    assert!(llm_should_run(&"a".repeat(50), "k"));
    assert!(reads_llm_cache(true, false));
    assert!(!reads_llm_cache(true, true));
}

fn answer() -> LlmResult {
    LlmResult {
        english: None,
        tech: None,
        chinese: Some(LlmChinese { translations: vec!["机缘".into()], usage_notes: None }),
    }
}

#[test]
fn llm_outcome_cases() {
    assert!(matches!(llm_outcome(Some(answer()), "w", "k"), Some(Ok(_))));
    assert!(matches!(llm_outcome(None, "w", ""), Some(Err(LlmError::NoApiKey))));
    assert!(llm_outcome(None, "w", "k").is_none());
    assert!(llm_outcome(None, &"a".repeat(60), "").is_none());
}

#[test]
fn loading_has_no_list_row() {
    let run = llm_should_run("word", "key");
    assert!(llm_loading(run, &None));
    assert!(!llm_loading(run, &Some(answer())));
    assert!(llm_outcome(None, "word", "key").is_none());
}

#[test]
fn db_path_needs_non_empty_value() {
    assert_eq!(db_path(&Some("/x.db".into())), Some("/x.db".to_string()));
    assert_eq!(db_path(&Some("".into())), None);
    assert_eq!(db_path(&None), None);
}

#[test]
fn source_rows_cases() {
    let rows = source_rows("Urban", SourceKind::Urban, Ok(vec![dict("a", "1"), dict("a", "2")]), "a");
    assert_eq!(rows.len(), 1);
    assert_eq!(rows[0].cmd_subtitle.as_deref(), Some("1"));
    assert!(source_rows("Urban", SourceKind::Urban, Ok(vec![]), "a").is_empty());
    let rows = source_rows("Wordnik", SourceKind::Wordnik, Err(SourceError::NoApiKey), "a");
    assert_eq!(rows[0].title, "⚙️ Wordnik 未配置 API key");
    let rows = source_rows("Urban", SourceKind::Urban, Err(SourceError::Timeout), "a");
    assert_eq!(rows[0].title, "⚠️ Urban: request timeout");
    assert_eq!(rows[0].variables, vec![("BYPASS_CACHE".to_string(), "1".to_string())]);
}

#[test]
fn list_order_and_card() {
    let ecdict = vec![entry("apple"), entry("applet")];
    let rows = list_rows(
        "apple",
        &ecdict,
        Ok(vec![dict("apple", "wn")]),
        Err(SourceError::RateLimited),
        Some(Ok(answer())),
        &Some("/tmp/preview-apple.html".into()),
    );
    let titles: Vec<&str> = rows.iter().map(|r| r.title.as_str()).collect();
    assert_eq!(
        titles,
        vec!["apple", "📕 apple", "📘 apple", "⚠️ Urban: rate limited", "🤖 apple", "   applet"]
    );
    assert_eq!(rows[0].arg.as_deref(), Some("apple"));
    assert_eq!(rows[0].subtitle.as_deref(), Some("Type enter to check in Eudic"));
    for r in &rows {
        assert_eq!(r.quicklookurl.as_deref(), Some("/tmp/preview-apple.html"));
    }
    for r in &rows[1..] {
        assert_eq!(r.arg.as_deref(), Some("/tmp/preview-apple.html"));
    }
}

#[test]
fn list_without_card_keeps_args() {
    let rows = list_rows("zz", &vec![], Ok(vec![]), Ok(vec![]), Some(Err(LlmError::NoApiKey)), &None);
    assert_eq!(rows.len(), 2);
    assert_eq!(rows[1].title, "⚙️ LLM 未配置 API key");
    assert!(rows[1].quicklookurl.is_none());
    assert!(rows[1].arg.as_deref().unwrap().starts_with("https://github.com/"));
}

#[test]
fn llm_error_row_retries() {
    let rows = list_rows(
        "zz",
        &vec![],
        Ok(vec![]),
        Ok(vec![]),
        Some(Err(LlmError::ApiError { status: 400, body: "bad".into() })),
        &None,
    );
    assert_eq!(rows[1].title, "⚠️ LLM: API error 400");
}
