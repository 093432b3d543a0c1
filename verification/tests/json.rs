use peka_vault::json::{parse_json_bytes, parse_json_text, Json};

fn s(text: &str) -> Json {
    Json::String(text.to_string())
}

#[test]
fn text_is_read_into_a_tree() {
    assert_eq!(parse_json_text("null"), Some(Json::Null));
    assert_eq!(parse_json_text(" true "), Some(Json::Bool(true)));
    assert_eq!(parse_json_text("0"), Some(Json::Unsigned(0)));
    assert_eq!(parse_json_text("18446744073709551615"), Some(Json::Unsigned(u64::MAX)));
    assert_eq!(parse_json_text("18446744073709551616"), Some(Json::OtherNumber));
    assert_eq!(parse_json_text("-1"), Some(Json::OtherNumber));
    assert_eq!(parse_json_text("-0"), Some(Json::OtherNumber));
    assert_eq!(parse_json_text("1.0"), Some(Json::OtherNumber));
    assert_eq!(parse_json_text("1e2"), Some(Json::OtherNumber));
    assert_eq!(parse_json_text("\"a\\n\\u00e9\\\"\""), Some(s("a\n\u{e9}\"")));
    assert_eq!(parse_json_text("[]"), Some(Json::Array(vec![])));
    assert_eq!(parse_json_text("{}"), Some(Json::Object(vec![])));
    assert_eq!(
        parse_json_text("{\"b\":[1,\"x\",null,{\"c\":false}],\"a\":2}"),
        Some(Json::Object(vec![
            (
                "b".to_string(),
                Json::Array(vec![
                    Json::Unsigned(1),
                    s("x"),
                    Json::Null,
                    Json::Object(vec![("c".to_string(), Json::Bool(false))]),
                ])
            ),
            ("a".to_string(), Json::Unsigned(2)),
        ]))
    );
}

#[test]
fn a_repeated_key_keeps_its_last_value() {
    assert_eq!(
        parse_json_text("{\"a\":1,\"b\":2,\"a\":3}"),
        Some(Json::Object(vec![("a".to_string(), Json::Unsigned(3)), ("b".to_string(), Json::Unsigned(2))]))
    );
}

#[test]
fn what_is_no_json_is_refused() {
    for text in ["", " ", "nul", "{", "[1,]", "{\"a\":}", "{a:1}", "1 2", "'x'", "\"unterminated", "01"] {
        assert_eq!(parse_json_text(text), None);
        assert_eq!(parse_json_bytes(text.as_bytes()), None);
    }
    assert_eq!(parse_json_bytes(&[0xff, 0xfe]), None);
    assert_eq!(parse_json_bytes(&[b'"', 0xff, b'"']), None);
}

#[test]
fn bytes_are_read_like_text() {
    assert_eq!(parse_json_bytes(b"{\"a\":[true]}"), parse_json_text("{\"a\":[true]}"));
    assert_eq!(parse_json_bytes("\"\u{1F511}\"".as_bytes()), Some(s("\u{1F511}")));
}

#[test]
fn nesting_has_a_limit() {
    let deep = |n: usize| format!("{}{}", "[".repeat(n), "]".repeat(n));
    let mut expected = Json::Array(vec![]);
    for _ in 1..100 {
        expected = Json::Array(vec![expected]);
    }
    assert_eq!(parse_json_text(&deep(100)), Some(expected));
    assert_eq!(parse_json_text(&deep(200)), None);
    assert_eq!(parse_json_text(&deep(100_000)), None);
}
