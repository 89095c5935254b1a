use imap_mailbox::query::{build_keyword_query, build_since_query, format_query_date, QueryDate};

#[test]
fn keyword_query_two_fields_or_combined() {
    let fields = vec!["subject".to_string(), "from".to_string()];
    let q = build_keyword_query(Some(&fields), "invoice", None);
    assert_eq!(q, "OR SUBJECT \"invoice\" FROM \"invoice\"");
}

#[test]
fn keyword_query_unknown_field_falls_back_to_text() {
    let fields = vec!["flavor".to_string()];
    let q = build_keyword_query(Some(&fields), "invoice", None);
    assert_eq!(q, "TEXT \"invoice\"");
}

#[test]
fn keyword_query_no_fields_is_text() {
    let q = build_keyword_query(None, "hello", None);
    assert_eq!(q, "TEXT \"hello\"");
    let empty: Vec<String> = Vec::new();
    let q2 = build_keyword_query(Some(&empty), "hello", None);
    assert_eq!(q2, "TEXT \"hello\"");
}

#[test]
fn keyword_query_field_names_ignore_case() {
    let fields = vec!["Subject".to_string(), "BODY".to_string()];
    let q = build_keyword_query(Some(&fields), "x", None);
    assert_eq!(q, "OR SUBJECT \"x\" BODY \"x\"");
}

#[test]
fn keyword_query_three_fields_left_associative() {
    let fields = vec!["text".to_string(), "to".to_string(), "from".to_string()];
    let q = build_keyword_query(Some(&fields), "a", None);
    assert_eq!(q, "OR OR TEXT \"a\" TO \"a\" FROM \"a\"");
}

#[test]
fn keyword_query_appends_date_filter() {
    let fields = vec!["subject".to_string()];
    let d = QueryDate { year: 2025, month: 1, day: 31 };
    let q = build_keyword_query(Some(&fields), "invoice", Some(d));
    assert_eq!(q, "SUBJECT \"invoice\" SINCE 31-Jan-2025");
}

#[test]
fn since_query_formats_date_or_all() {
    let d = QueryDate { year: 2024, month: 12, day: 5 };
    assert_eq!(build_since_query(Some(d)), "SINCE 05-Dec-2024");
    assert_eq!(build_since_query(None), "ALL");
}

#[test]
fn query_date_pads_day_and_year() {
    let d = QueryDate { year: 987, month: 7, day: 3 };
    assert_eq!(format_query_date(d), "03-Jul-0987");
}
