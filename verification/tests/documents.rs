use storyboard_client::json::find_member;
use storyboard_client::Json;

fn text(s: &str) -> Json {
    Json::Text(s.to_string())
}

fn member(name: &str, value: Json) -> (String, Json) {
    (name.to_string(), value)
}

#[test]
fn the_literals_are_read() {
    assert_eq!(Json::parse("null"), Some(Json::Null));
    assert_eq!(Json::parse("true"), Some(Json::Bool(true)));
    assert_eq!(Json::parse("false"), Some(Json::Bool(false)));
    assert_eq!(Json::parse(" \n\ttrue  "), Some(Json::Bool(true)));
}

#[test]
fn whole_numbers_are_read_with_their_value() {
    assert_eq!(Json::parse("0"), Some(Json::Number(Some(0))));
    assert_eq!(Json::parse("19"), Some(Json::Number(Some(19))));
    assert_eq!(Json::parse("-7"), Some(Json::Number(Some(-7))));
    assert_eq!(Json::parse("2147483648"), Some(Json::Number(Some(2147483648))));
    assert_eq!(Json::parse("9223372036854775807"), Some(Json::Number(Some(i64::MAX))));
    assert_eq!(Json::parse("-9223372036854775808"), Some(Json::Number(Some(i64::MIN))));
}

#[test]
fn other_numbers_are_read_without_a_value() {
    assert_eq!(Json::parse("1.5"), Some(Json::Number(None)));
    assert_eq!(Json::parse("1.0"), Some(Json::Number(None)));
    assert_eq!(Json::parse("1e3"), Some(Json::Number(None)));
    assert_eq!(Json::parse("9223372036854775808"), Some(Json::Number(None)));
    assert_eq!(Json::parse("-0"), Some(Json::Number(None)));
}

#[test]
fn strings_are_read_with_their_escapes_resolved() {
    assert_eq!(Json::parse("\"\""), Some(text("")));
    assert_eq!(Json::parse("\"stx\""), Some(text("stx")));
    assert_eq!(Json::parse("\"a\\\"b\\\\c\\nd\""), Some(text("a\"b\\c\nd")));
    assert_eq!(Json::parse("\"\\u00e9\""), Some(text("\u{e9}")));
}

#[test]
fn arrays_keep_their_order() {
    assert_eq!(Json::parse("[]"), Some(Json::Array(vec![])));
    assert_eq!(
        Json::parse("[3, \"a\", null, [true]]"),
        Some(Json::Array(vec![
            Json::Number(Some(3)),
            text("a"),
            Json::Null,
            Json::Array(vec![Json::Bool(true)]),
        ]))
    );
}

#[test]
fn objects_hold_each_name_once_in_the_order_of_the_names() {
    assert_eq!(Json::parse("{}"), Some(Json::Object(vec![])));
    assert_eq!(
        Json::parse("{\"b\": 1, \"a\": {\"c\": null}}"),
        Some(Json::Object(vec![
            member("a", Json::Object(vec![member("c", Json::Null)])),
            member("b", Json::Number(Some(1))),
        ]))
    );
    assert_eq!(
        Json::parse("{\"a\": 1, \"a\": 2}"),
        Some(Json::Object(vec![member("a", Json::Number(Some(2)))]))
    );
}

#[test]
fn what_is_not_json_is_not_read() {
    assert_eq!(Json::parse(""), None);
    assert_eq!(Json::parse("   "), None);
    assert_eq!(Json::parse("{"), None);
    assert_eq!(Json::parse("[1,]"), None);
    assert_eq!(Json::parse("{\"a\" 1}"), None);
    assert_eq!(Json::parse("nul"), None);
    assert_eq!(Json::parse("[] []"), None);
    assert_eq!(Json::parse("<html></html>"), None);
    assert_eq!(Json::parse("'a'"), None);
}

#[test]
fn the_first_member_of_a_name_is_found() {
    let members = vec![
        member("a", Json::Number(Some(1))),
        member("b", Json::Null),
        member("a", Json::Number(Some(2))),
    ];
    assert_eq!(find_member(&members, "a"), Some(&Json::Number(Some(1))));
    assert_eq!(find_member(&members, "b"), Some(&Json::Null));
    assert_eq!(find_member(&members, "c"), None);
    assert_eq!(find_member(&members, ""), None);
    assert_eq!(find_member(&members, "A"), None);
    assert_eq!(find_member(&Vec::new(), "a"), None);
}
