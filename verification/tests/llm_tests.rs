use alfred_eudic::llm::prompt::{user, USER_HEAD};
use alfred_eudic::llm::response::{
    extract_json_object, require_sections, unfenced, LlmChinese, LlmEnglish, LlmResult,
};
use alfred_eudic::llm::{
    bad_envelope, bad_json, reply_text, require_api_key, status_error, ContentBlock, LlmError,
};

fn block(kind: &str, text: &str) -> ContentBlock {
    ContentBlock { kind: kind.to_string(), text: text.to_string() }
}

#[test]
fn parses_full_three_sections() {
    let json = "{\n  \"english\": {\"definitions\": [\"a fortunate accidental discovery\"]},\n  \"chinese\": {\"translations\": [\"机缘巧合\", \"意外之喜\"]}\n}";
    assert_eq!(extract_json_object(json).unwrap(), json);
}

#[test]
fn parses_partial_chinese_only() {
    let raw = r#"{"chinese":{"translations":["译"]}}"#;
    assert_eq!(extract_json_object(raw).unwrap(), raw);
    let r = LlmResult {
        english: None,
        tech: None,
        chinese: Some(LlmChinese { translations: vec!["译".into()], usage_notes: None }),
    };
    let kept = require_sections(r.clone()).unwrap();
    assert_eq!(kept, r);
}

#[test]
fn fenced_json() {
    let r = extract_json_object("```json\n{\"english\":{\"definitions\":[\"d\"]}}\n```").unwrap();
    assert_eq!(r, "{\"english\":{\"definitions\":[\"d\"]}}");
}

#[test]
fn surrounding_prose() {
    let r = extract_json_object("Here: {\"chinese\":{\"translations\":[\"译\"]}} done").unwrap();
    assert_eq!(r, "{\"chinese\":{\"translations\":[\"译\"]}}");
}

#[test]
fn rejects_no_braces() {
    assert_eq!(extract_json_object("hello"), Err("no '{' in output".to_string()));
    assert_eq!(extract_json_object("{ open"), Err("no '}' in output".to_string()));
    assert_eq!(extract_json_object("} then {"), Err("malformed JSON braces".to_string()));
}

#[test]
fn rejects_all_sections_empty() {
    assert_eq!(extract_json_object("{}").unwrap(), "{}");
    let empty = LlmResult { english: None, tech: None, chinese: None };
    assert_eq!(
        require_sections(empty),
        Err("LLM result has no english/tech/chinese sections".to_string())
    );
    let en = LlmResult {
        english: Some(LlmEnglish { definitions: vec![], examples: vec![] }),
        tech: None,
        chinese: None,
    };
    assert!(require_sections(en).is_ok());
}

#[test]
fn unfenced_without_language_line() {
    assert_eq!(unfenced("```{\"a\":1}```"), "{\"a\":1}");
    assert_eq!(unfenced("  plain  "), "plain");
}

#[test]
fn no_api_key() {
    assert!(matches!(require_api_key(""), Err(LlmError::NoApiKey)));
    assert!(require_api_key("k").is_ok());
}

#[test]
fn http_400_is_api_error() {
    match status_error(400, "invalid_request".into()) {
        Some(LlmError::ApiError { status, body }) => {
            assert_eq!(status, 400);
            assert_eq!(body, "invalid_request");
        }
        _ => panic!("expected ApiError"),
    }
    assert!(status_error(200, String::new()).is_none());
}

#[test]
fn refusal_stop_reason() {
    let r = reply_text(&Some("refusal".into()), &vec![block("text", "")]);
    assert!(matches!(r, Err(LlmError::Refused)));
}

#[test]
fn first_text_block_is_the_reply() {
    let r = reply_text(&Some("end_turn".into()), &vec![block("tool_use", "x"), block("text", "hi"), block("text", "no")]);
    assert_eq!(r.unwrap(), "hi");
    let r = reply_text(&None, &vec![block("tool_use", "x")]);
    assert!(matches!(r, Err(LlmError::BadJson(m)) if m == "no text block"));
}

#[test]
fn non_json_text_is_bad_json() {
    let text = reply_text(&None, &vec![block("text", "I don't know this word")]).unwrap();
    let err = extract_json_object(&text).map_err(bad_json).unwrap_err();
    assert!(matches!(err, LlmError::BadJson(_)));
    assert!(matches!(bad_envelope("eof"), LlmError::BadJson(m) if m == "envelope: eof"));
}

#[test]
fn llm_error_messages() {
    assert_eq!(LlmError::Http("x".into()).message(), "HTTP error: x");
    assert_eq!(LlmError::Timeout.message(), "request timeout");
    assert_eq!(LlmError::BadJson("y".into()).message(), "bad JSON: y");
    assert_eq!(LlmError::ApiError { status: 529, body: "busy".into() }.message(), "API error 529");
    assert_eq!(LlmError::Refused.message(), "refused by model");
    assert_eq!(LlmError::NoApiKey.message(), "no API key configured");
    assert!(matches!(LlmError::from_transport(true, "t".into()), LlmError::Timeout));
}

#[test]
fn prompt_quotes_the_word_safely() {
    let p = user("say \"hi\"");
    assert!(p.starts_with(USER_HEAD));
    assert!(p.starts_with("Word: \"say 'hi'\". Output exactly this JSON shape"));
    assert!(p.ends_with("never leave a required string empty."));
}
