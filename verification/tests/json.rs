use webex_courier::json::{Json, Member};

fn member(key: &str, value: Json) -> Member {
    Member { key: key.to_string(), value }
}

fn text(value: &str) -> Json {
    Json::Text(value.to_string())
}

fn number(digits: &str) -> Json {
    Json::Number(digits.to_string())
}

#[test]
fn parse_reads_scalars() {
    assert_eq!(Json::parse("null"), Ok(Json::Null));
    assert_eq!(Json::parse("true"), Ok(Json::Bool(true)));
    assert_eq!(Json::parse("false"), Ok(Json::Bool(false)));
    assert_eq!(Json::parse("17"), Ok(number("17")));
    assert_eq!(Json::parse("-4"), Ok(number("-4")));
    assert_eq!(Json::parse("2.5"), Ok(number("2.5")));
    assert_eq!(Json::parse("\"P123\""), Ok(text("P123")));
    assert_eq!(Json::parse("\"a\\nb\""), Ok(text("a\nb")));
    assert_eq!(Json::parse("  \"padded\"  "), Ok(text("padded")));
}

#[test]
fn parse_reads_nested_documents() {
    let parsed = Json::parse("{\"items\":[{\"id\":\"P123\",\"age\":3},[],{}],\"ok\":true}");
    let expected = Json::Object(vec![
        member(
            "items",
            Json::Array(vec![
                Json::Object(vec![member("age", number("3")), member("id", text("P123"))]),
                Json::Array(vec![]),
                Json::Object(vec![]),
            ]),
        ),
        member("ok", Json::Bool(true)),
    ]);
    assert_eq!(parsed, Ok(expected));
}

#[test]
fn parse_keeps_the_last_of_equal_keys() {
    let parsed = Json::parse("{\"id\":\"first\",\"id\":\"second\"}");
    assert_eq!(parsed, Ok(Json::Object(vec![member("id", text("second"))])));
}

#[test]
fn parse_rejects_what_is_no_document() {
    assert_eq!(
        Json::parse(""),
        Err("EOF while parsing a value at line 1 column 0".to_string())
    );
    assert_eq!(
        Json::parse("{\"items\":"),
        Err("EOF while parsing a value at line 1 column 9".to_string())
    );
    assert_eq!(
        Json::parse("{\"items\":[}"),
        Err("expected value at line 1 column 11".to_string())
    );
    assert_eq!(
        Json::parse("[1] 2"),
        Err("trailing characters at line 1 column 5".to_string())
    );
    assert_eq!(
        Json::parse("<html>"),
        Err("expected value at line 1 column 1".to_string())
    );
}

#[test]
fn member_finds_the_value_under_a_key() {
    let document = Json::Object(vec![
        member("a", number("1")),
        member("b", text("two")),
        member("", Json::Null),
    ]);
    assert_eq!(document.member("a"), Some(&number("1")));
    assert_eq!(document.member("b"), Some(&text("two")));
    assert_eq!(document.member(""), Some(&Json::Null));
    assert_eq!(document.member("c"), None);
    assert_eq!(document.member("A"), None);
}

#[test]
fn member_takes_the_first_of_equal_keys() {
    let document = Json::Object(vec![member("k", number("1")), member("k", number("2"))]);
    assert_eq!(document.member("k"), Some(&number("1")));
}

#[test]
fn member_of_what_is_no_object_is_none() {
    assert_eq!(Json::Null.member("a"), None);
    assert_eq!(Json::Bool(true).member("a"), None);
    assert_eq!(number("1").member("a"), None);
    assert_eq!(text("a").member("a"), None);
    assert_eq!(Json::Array(vec![text("a")]).member("a"), None);
    assert_eq!(Json::Object(vec![]).member("a"), None);
}

#[test]
fn as_array_hands_out_the_items_of_an_array_only() {
    let items = vec![number("1"), Json::Null];
    assert_eq!(Json::Array(vec![number("1"), Json::Null]).as_array(), Some(&items));
    assert_eq!(Json::Array(vec![]).as_array(), Some(&vec![]));
    assert_eq!(Json::Null.as_array(), None);
    assert_eq!(text("[]").as_array(), None);
    assert_eq!(Json::Object(vec![]).as_array(), None);
}

#[test]
fn as_text_hands_out_the_characters_of_a_string_only() {
    assert_eq!(text("P123").as_text(), Some("P123"));
    assert_eq!(text("").as_text(), Some(""));
    assert_eq!(number("123").as_text(), None);
    assert_eq!(Json::Null.as_text(), None);
    assert_eq!(Json::Bool(false).as_text(), None);
    assert_eq!(Json::Array(vec![text("a")]).as_text(), None);
}
