use alfred_eudic::json::{at, items_at, str_at, str_at_or_empty, Json, Step};
use alfred_eudic::sources::youdao_body::{youdao_from_json, youdao_raw_from_json};

fn st(s: &str) -> Json {
    Json::Str(s.to_string())
}

fn arr(xs: Vec<Json>) -> Json {
    Json::Arr(xs)
}

fn obj(ms: Vec<(&str, Json)>) -> Json {
    Json::Obj(ms.into_iter().map(|(k, v)| (k.to_string(), v)).collect())
}

#[test]
fn lookups_follow_keys_and_positions() {
    let v = obj(vec![("a", arr(vec![obj(vec![("b", st("x"))]), st("y")])), ("n", Json::Other)]);
    assert_eq!(str_at(&v, &[Step("a"), Step("0"), Step("b")]).as_deref(), Some("x"));
    assert_eq!(str_at(&v, &[Step("a"), Step("1")]).as_deref(), Some("y"));
    assert!(str_at(&v, &[Step("a"), Step("2")]).is_none());
    assert!(str_at(&v, &[Step("n")]).is_none());
    assert!(at(&v, &[Step("missing")]).is_none());
    assert_eq!(str_at_or_empty(&v, &[Step("n")]), "");
    assert_eq!(items_at(&v, &[Step("a")]).map(|xs| xs.len()), Some(2));
    assert!(items_at(&v, &[Step("n")]).is_none());
}

fn youdao_body() -> Json {
    obj(vec![
        ("ec", obj(vec![("word", arr(vec![obj(vec![("trs", arr(vec![obj(vec![("tr", arr(vec![obj(vec![("l", obj(vec![("i", arr(vec![st("n. 测试")]))]))])]))])]))])]))])),
        ("ee", obj(vec![("word", obj(vec![("trs", arr(vec![obj(vec![("pos", st("noun")), ("tr", arr(vec![obj(vec![("l", obj(vec![("i", st("a procedure"))]))])]))])]))]))])),
        ("syno", obj(vec![("synos", arr(vec![obj(vec![("syno", obj(vec![("pos", st("n.")), ("ws", arr(vec![obj(vec![("w", st("trial"))]), obj(vec![("w", st("exam"))])]))]))])]))])),
        ("phrs", obj(vec![("phrs", arr(vec![obj(vec![("phr", obj(vec![("headword", obj(vec![("l", obj(vec![("i", st("acid test"))]))])), ("trs", arr(vec![obj(vec![("tr", obj(vec![("l", obj(vec![("i", st("严峻考验"))]))]))])]))]))])]))])),
        ("blng_sents_part", obj(vec![("sentence-pair", arr(vec![obj(vec![("sentence", st("Run the test.")), ("sentence-translation", st("运行测试。"))])]))])),
        ("web_trans", obj(vec![("web-translation", arr(vec![obj(vec![("trans", arr(vec![obj(vec![("value", st("测试；检验"))])]))])]))])),
        ("wikipedia_digest", obj(vec![("summarys", arr(vec![obj(vec![("summary", st("A test is an assessment."))])]))])),
        ("etym", obj(vec![("etyms", obj(vec![("zh", arr(vec![obj(vec![("value", st("源自拉丁语"))])]))]))])),
    ])
}

#[test]
fn youdao_json_core_fields() {
    let d = youdao_from_json(&youdao_body()).unwrap();
    assert_eq!(d.ec_zh, vec!["n. 测试"]);
    assert_eq!(d.ee, vec!["noun a procedure"]);
    assert_eq!(d.syno, vec!["n. trial, exam"]);
    assert_eq!(d.phrs, vec!["acid test — 严峻考验"]);
    assert_eq!(d.sents, vec![("Run the test.".to_string(), "运行测试。".to_string())]);
    assert_eq!(d.web_trans, vec!["测试；检验"]);
    assert_eq!(d.wiki.as_deref(), Some("A test is an assessment."));
    assert_eq!(d.etym.as_deref(), Some("源自拉丁语"));
}

#[test]
fn youdao_json_empty_object_is_none() {
    assert!(youdao_from_json(&obj(vec![])).is_none());
    assert!(youdao_from_json(&Json::Other).is_none());
}

#[test]
fn youdao_json_mistyped_values_are_absent() {
    let v = obj(vec![
        ("ec", obj(vec![("word", arr(vec![obj(vec![("trs", arr(vec![obj(vec![("tr", Json::Other)])]))])]))])),
        ("etym", obj(vec![("etyms", arr(vec![obj(vec![("value", st("Latin"))])]))])),
    ]);
    let raw = youdao_raw_from_json(&v);
    assert_eq!(raw.ec, vec![None]);
    assert_eq!(raw.etym_first.as_deref(), Some("Latin"));
    let d = youdao_from_json(&v).unwrap();
    assert!(d.ec_zh.is_empty());
    assert_eq!(d.etym.as_deref(), Some("Latin"));
}

#[test]
fn tokens_follow_pointer_rules() {
    let v = obj(vec![("0", st("zero-key")), ("list", arr(vec![st("a"), st("b")]))]);
    assert_eq!(str_at(&v, &[Step("0")]).as_deref(), Some("zero-key"));
    assert_eq!(str_at(&v, &[Step("list"), Step("1")]).as_deref(), Some("b"));
    assert!(str_at(&v, &[Step("list"), Step("01")]).is_none());
    assert!(str_at(&v, &[Step("list"), Step("+1")]).is_none());
    assert!(str_at(&v, &[Step("list"), Step("")]).is_none());
    assert!(str_at(&v, &[Step("list"), Step("x")]).is_none());
    assert!(str_at(&v, &[Step("list"), Step("99999999999999999999999")]).is_none());
}
