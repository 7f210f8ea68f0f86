use alfred_eudic::dictionary::{ecdict_query, search_params, SEARCH_LIMIT};

#[test]
fn prefix_match_finds_apple_and_appendix() {
    assert_eq!(search_params("app", 10), Some(("app%".to_string(), 10)));
}

#[test]
fn malicious_quote_does_not_inject() {
    // The quote travels as a bound parameter of the LIKE pattern.
    assert_eq!(search_params("a' OR '1'='1", 10), Some(("a' OR '1'='1%".to_string(), 10)));
}

#[test]
fn literal_percent_does_not_act_as_wildcard() {
    assert_eq!(search_params("100%", 10), Some(("100\\%%".to_string(), 10)));
    assert_eq!(search_params("a_b\\c", 10), Some(("a\\_b\\\\c%".to_string(), 10)));
}

#[test]
fn empty_query_finds_nothing_and_limit_is_capped() {
    assert_eq!(search_params("", 10), None);
    assert_eq!(search_params("x", 5000), Some(("x%".to_string(), 1000)));
    assert_eq!(SEARCH_LIMIT, 30);
}

#[test]
fn query_drops_whitespace() {
    assert_eq!(ecdict_query(" ad  hoc "), "adhoc");
}
