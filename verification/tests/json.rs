use bitvora::Json;
use serde_json::Number;

#[test]
fn parse_reads_each_kind_of_value() {
    assert!(matches!(Json::parse("null"), Ok(Json::Null)));
    assert!(matches!(Json::parse("true"), Ok(Json::Bool(true))));
    assert!(matches!(Json::parse("false"), Ok(Json::Bool(false))));
    assert!(matches!(Json::parse("\"a\\nb\""), Ok(Json::Text(text)) if text == "a\nb"));
    match Json::parse("5000").unwrap() {
        Json::Number(number) => {
            assert_eq!(number.as_u64(), Some(5000));
            assert_eq!(number.as_i64(), Some(5000));
        }
        other => panic!("expected a number, got {:?}", other),
    }
    match Json::parse("-7").unwrap() {
        Json::Number(number) => {
            assert_eq!(number.as_u64(), None);
            assert_eq!(number.as_i64(), Some(-7));
        }
        other => panic!("expected a number, got {:?}", other),
    }
    match Json::parse("0.5").unwrap() {
        Json::Number(number) => {
            assert_eq!(number.as_u64(), None);
            assert_eq!(number.as_i64(), None);
            assert_eq!(number.as_f64(), Some(0.5));
        }
        other => panic!("expected a number, got {:?}", other),
    }
    match Json::parse("[1, \"two\", [null]]").unwrap() {
        Json::Array(items) => {
            assert_eq!(items.len(), 3);
            assert!(matches!(&items[0], Json::Number(n) if n.as_u64() == Some(1)));
            assert!(matches!(&items[1], Json::Text(text) if text == "two"));
            assert!(matches!(&items[2], Json::Array(inner) if matches!(inner[..], [Json::Null])));
        }
        other => panic!("expected an array, got {:?}", other),
    }
    match Json::parse("{\"a\": {\"b\": true}}").unwrap() {
        Json::Object(fields) => {
            assert_eq!(fields.len(), 1);
            assert_eq!(fields[0].0, "a");
            assert!(matches!(fields[0].1.get("b"), Some(Json::Bool(true))));
        }
        other => panic!("expected an object, got {:?}", other),
    }
}

#[test]
fn parse_refuses_what_is_not_one_document() {
    for text in ["", " ", "{", "}", "[1,]", "{\"a\":}", "nul", "1 2", "{\"a\":1}x", "'a'"] {
        assert!(Json::parse(text).is_err(), "{:?} was read", text);
    }
}

#[test]
fn get_finds_the_member_of_an_object() {
    let tree = Json::parse("{\"status\":200,\"message\":\"ok\",\"data\":null}").unwrap();
    assert!(matches!(tree.get("status"), Some(Json::Number(n)) if n.as_u64() == Some(200)));
    assert!(matches!(tree.get("message"), Some(Json::Text(text)) if text == "ok"));
    assert!(matches!(tree.get("data"), Some(Json::Null)));
    assert!(tree.get("Status").is_none());
    assert!(tree.get("").is_none());
}

#[test]
fn get_finds_nothing_in_what_is_no_object() {
    assert!(Json::Null.get("a").is_none());
    assert!(Json::Bool(true).get("a").is_none());
    assert!(Json::Text("a".to_string()).get("a").is_none());
    assert!(Json::Number(Number::from(1u64)).get("a").is_none());
    assert!(Json::Array(vec![Json::Object(vec![("a".to_string(), Json::Null)])])
        .get("a")
        .is_none());
    assert!(Json::Object(vec![]).get("a").is_none());
}

#[test]
fn get_takes_the_later_of_two_members_with_one_name() {
    let tree = Json::Object(vec![
        ("a".to_string(), Json::Bool(false)),
        ("b".to_string(), Json::Null),
        ("a".to_string(), Json::Bool(true)),
    ]);
    assert!(matches!(tree.get("a"), Some(Json::Bool(true))));
    assert!(matches!(tree.get("b"), Some(Json::Null)));
}

#[test]
fn render_writes_compact_json() {
    assert_eq!(Json::Null.render(), "null");
    assert_eq!(Json::Bool(true).render(), "true");
    assert_eq!(Json::Number(Number::from(3600u64)).render(), "3600");
    assert_eq!(Json::Number(Number::from_f64(21.0).unwrap()).render(), "21.0");
    assert_eq!(Json::Text("a \"b\"\n".to_string()).render(), "\"a \\\"b\\\"\\n\"");
    assert_eq!(Json::Array(vec![Json::Null, Json::Bool(false)]).render(), "[null,false]");
    assert_eq!(Json::Array(vec![]).render(), "[]");
    assert_eq!(Json::Object(vec![]).render(), "{}");
    let tree = Json::Object(vec![
        ("a".to_string(), Json::Array(vec![Json::Text("x".to_string())])),
        ("b".to_string(), Json::Object(vec![("c".to_string(), Json::Null)])),
    ]);
    assert_eq!(tree.render(), "{\"a\":[\"x\"],\"b\":{\"c\":null}}");
}

#[test]
fn render_keeps_the_later_of_two_members_with_one_name() {
    let tree = Json::Object(vec![
        ("a".to_string(), Json::Bool(false)),
        ("a".to_string(), Json::Bool(true)),
    ]);
    assert_eq!(tree.render(), "{\"a\":true}");
}

#[test]
fn what_is_rendered_parses_to_the_same_text_again() {
    let text = "{\"data\":[{\"id\":\"t-1\",\"n\":-3},{\"id\":\"t-2\",\"n\":2.5}],\"ok\":true}";
    let tree = Json::parse(text).unwrap();
    assert_eq!(tree.render(), text);
}
