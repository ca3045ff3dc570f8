use rust_browser_control::json::{
    double_of, json_bytes, json_pretty, json_text, parse_json, unsigned_of, Fields, Json,
};

fn read(text: &str) -> Json {
    parse_json(text.as_bytes()).unwrap()
}

#[test]
fn documents_are_read_and_written() {
    for text in [
        "null",
        "true",
        "0",
        "18446744073709551615",
        "-3",
        "1.5",
        "5.0",
        "\"a\\\"\\n\u{e9}\"",
        "[]",
        "[1,[2,{}],\"x\"]",
        "{\"a\":1,\"b\":{\"c\":[null,false]}}",
    ] {
        assert_eq!(json_text(&read(text)), text);
        assert_eq!(json_bytes(&read(text)), text.as_bytes());
        assert_eq!(json_text(&read(text).duplicate()), text);
    }
}

#[test]
fn documents_are_indented() {
    assert_eq!(
        json_pretty(&read("{\"b\":[1,2],\"a\":{}}")),
        "{\n  \"a\": {},\n  \"b\": [\n    1,\n    2\n  ]\n}"
    );
}

#[test]
fn what_is_no_document_is_refused_in_words() {
    assert_eq!(parse_json(b"{").unwrap_err(), "EOF while parsing an object at line 1 column 1");
    assert!(parse_json(b"[1,]").is_err());
    assert!(parse_json(b"\xff").is_err());
    assert!(parse_json(b"").is_err());
}

#[test]
fn a_later_field_replaces_an_earlier_one() {
    let twice = read("{\"a\":1,\"a\":2}");
    assert_eq!(twice.get("a").unwrap().as_u64(), Some(2));
    let built = Fields::new()
        .with("a", Json::unsigned(1))
        .with("b", Json::Bool(true))
        .with("a", Json::text("x"))
        .object();
    assert_eq!(json_text(&built), "{\"a\":\"x\",\"b\":true}");
    assert_eq!(built.get("a").unwrap().as_str(), Some("x"));
    assert_eq!(built.take("a").unwrap(), Json::text("x"));
}

#[test]
fn fields_are_found() {
    let doc = read("{\"s\":\"t\",\"n\":7,\"b\":false,\"neg\":-7,\"f\":7.0,\"list\":[1]}");
    assert_eq!(doc.get("s").unwrap().as_str(), Some("t"));
    assert_eq!(doc.get("n").unwrap().as_u64(), Some(7));
    assert_eq!(doc.get("b").unwrap().as_bool(), Some(false));
    assert_eq!(doc.get("neg").unwrap().as_u64(), None);
    assert_eq!(doc.get("f").unwrap().as_u64(), None);
    assert_eq!(doc.get("s").unwrap().as_u64(), None);
    assert_eq!(doc.get("n").unwrap().as_str(), None);
    assert_eq!(doc.get("n").unwrap().as_bool(), None);
    assert!(doc.get("missing").is_none());
    assert!(Json::Null.get("s").is_none());
    assert!(read("[1]").get("0").is_none());
    assert!(read("{}").take("x").is_none());
}

#[test]
fn documents_are_built() {
    assert_eq!(json_text(&Json::single(Json::Null)), "[null]");
    assert_eq!(json_text(&Fields::new().object()), "{}");
    assert_eq!(json_text(&Json::Number(unsigned_of(3))), "3");
}

#[test]
fn numbers_become_doubles() {
    let double = |text: &str| match read(text) {
        Json::Number(n) => double_of(&n).to_string(),
        _ => unreachable!(),
    };
    assert_eq!(double("3"), "3.0");
    assert_eq!(double("-3"), "-3.0");
    assert_eq!(double("2.5"), "2.5");
    match read("18446744073709551615") {
        Json::Number(n) => assert_eq!(double_of(&n).as_f64(), Some(18446744073709551615.0)),
        _ => unreachable!(),
    }
}
