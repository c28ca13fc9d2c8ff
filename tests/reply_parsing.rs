use nl2sql::reply::parse_llm_response;

#[test]
fn parses_three_fields_in_order() {
    let r = parse_llm_response("SQL: SELECT * FROM cars;\nEXPLANATION: returns all rows\nCONFIDENCE: 0.95");
    assert_eq!(r.sql_query, "SELECT * FROM cars;");
    assert_eq!(r.explanation.as_deref(), Some("returns all rows"));
    assert_eq!(r.confidence_text.as_deref(), Some("0.95"));
    let c: f64 = r.confidence_text.unwrap().parse().unwrap();
    assert_eq!(c, 0.95);
}

#[test]
fn missing_sql_marker_gives_fallback() {
    let r = parse_llm_response("I cannot answer that.");
    assert_eq!(r.sql_query, "SELECT * FROM cars LIMIT 10;");
    assert!(r.explanation.is_none());
    assert!(r.confidence_text.is_none());
}

#[test]
fn non_numeric_confidence_is_dropped() {
    let r = parse_llm_response("SQL: SELECT 1\nEXPLANATION: one\nCONFIDENCE: abc");
    assert_eq!(r.sql_query, "SELECT 1");
    assert_eq!(r.explanation.as_deref(), Some("one"));
    assert_eq!(r.confidence_text.as_deref(), Some("abc"));
    assert!(r.confidence_text.unwrap().parse::<f64>().is_err());
}

#[test]
fn sql_without_explanation_runs_to_end() {
    let r = parse_llm_response("Here it is.\nSQL:\n  SELECT id FROM cars WHERE hp > 100;  \n");
    assert_eq!(r.sql_query, "SELECT id FROM cars WHERE hp > 100;");
    assert!(r.explanation.is_none());
}

#[test]
fn explanation_is_found_independently() {
    let r = parse_llm_response("EXPLANATION: why\nCONFIDENCE: 0.5");
    assert_eq!(r.sql_query, "SELECT * FROM cars LIMIT 10;");
    assert_eq!(r.explanation.as_deref(), Some("why"));
    assert_eq!(r.confidence_text.as_deref(), Some("0.5"));
}

#[test]
fn empty_reply_gives_fallback() {
    let r = parse_llm_response("");
    assert_eq!(r.sql_query, "SELECT * FROM cars LIMIT 10;");
}

#[test]
fn trims_unicode_white_space() {
    let r = parse_llm_response("SQL:\u{3000}\u{a0}SELECT 2\u{2003}\tEXPLANATION:x");
    assert_eq!(r.sql_query, "SELECT 2");
    assert_eq!(r.explanation.as_deref(), Some("x"));
}

#[test]
fn leading_text_before_markers() {
    let r = parse_llm_response("Sure, here it is.\nSQL: SELECT hp FROM cars\nEXPLANATION:  picks hp \nCONFIDENCE: abc ");
    assert_eq!(r.sql_query, "SELECT hp FROM cars");
    assert_eq!(r.explanation.as_deref(), Some("picks hp"));
    assert_eq!(r.confidence_text.as_deref(), Some("abc"));
}
