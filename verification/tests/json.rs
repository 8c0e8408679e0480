use light_example::json::{add_item, number, put, text, text_array, Json, Member};
use serde_json::{Number, Value};

#[test]
fn a_document_is_written_as_serde_json_writes_it() {
    let mut inner: Vec<Member> = Vec::new();
    put(&mut inner, "z", Json::Null);
    put(&mut inner, "a", Json::Bool(true));
    let mut items: Vec<Json> = Vec::new();
    add_item(&mut items, number(3));
    add_item(&mut items, text("q\"\n\u{e4}"));
    add_item(&mut items, Json::Object(inner));
    let mut members: Vec<Member> = Vec::new();
    put(&mut members, "items", Json::Array(items));
    put(
        &mut members,
        "names",
        text_array(&vec!["x".to_string(), "y".to_string()]),
    );
    put(&mut members, "empty", text_array(&vec![]));
    let document = Json::Object(members);
    let written = document.to_text();
    assert_eq!(
        written,
        "{\"empty\":[],\"items\":[3,\"q\\\"\\n\u{e4}\",{\"a\":true,\"z\":null}],\"names\":[\"x\",\"y\"]}"
    );
    assert_eq!(
        serde_json::from_str::<Value>(&written)
            .expect("valid JSON")
            .to_string(),
        written
    );
}

#[test]
fn numbers_keep_their_kind() {
    assert_eq!(number(u64::MAX).to_text(), "18446744073709551615");
    assert_eq!(number(u64::MAX).as_u64(), Some(u64::MAX));
    let negative = Json::Number(Number::from(-5));
    assert_eq!(negative.as_u64(), None);
    assert_eq!(negative.to_text(), "-5");
    let half = Json::Number(Number::from_f64(0.5).expect("finite"));
    assert_eq!(half.as_u64(), None);
    assert_eq!(half.to_text(), "0.5");
}

#[test]
fn of_two_members_with_one_name_the_last_counts() {
    let mut members: Vec<Member> = Vec::new();
    put(&mut members, "a", number(1));
    put(&mut members, "b", number(2));
    put(&mut members, "a", number(3));
    let document = Json::Object(members);
    assert_eq!(document.u64_at("a"), Some(3));
    assert_eq!(document.to_text(), "{\"a\":3,\"b\":2}");
}

#[test]
fn documents_are_read_by_their_shape() {
    let mut members: Vec<Member> = Vec::new();
    put(&mut members, "t", text("x"));
    put(&mut members, "b", Json::Bool(false));
    put(&mut members, "l", Json::Array(vec![Json::Null]));
    let document = Json::Object(members);
    assert!(document.is_object());
    assert!(!Json::Null.is_object());
    assert_eq!(document.text_at("t"), Some("x"));
    assert_eq!(document.text_at("b"), None);
    assert_eq!(document.text_at("T"), None);
    assert_eq!(document.bool_at("b"), Some(false));
    assert_eq!(document.bool_at("t"), None);
    assert_eq!(document.array_at("l").map(|items| items.len()), Some(1));
    assert!(document.array_at("t").is_none());
    assert!(document.get("x").is_none());
    assert!(Json::Array(vec![]).get("t").is_none());
    assert_eq!(text("y").as_str(), Some("y"));
    assert_eq!(Json::Bool(true).as_bool(), Some(true));
    assert_eq!(text("true").as_bool(), None);
    assert!(text("y").as_array().is_none());
}
