use firebae_cm::{Error, Json, ObjectBuilder};

fn text(doc: &Json) -> String {
    String::from_utf8(doc.encode().unwrap()).unwrap()
}

fn parse(text: &str) -> Json {
    Json::parse(text.as_bytes()).unwrap()
}

#[test]
fn encode_writes_compact_json() {
    assert_eq!(text(&Json::Null), "null");
    assert_eq!(text(&Json::Bool(true)), "true");
    assert_eq!(text(&Json::Bool(false)), "false");
    assert_eq!(text(&Json::Text("a\"b".to_string())), "\"a\\\"b\"");
    assert_eq!(text(&Json::integer(-12)), "-12");
    assert_eq!(text(&Json::integer(i64::MAX)), "9223372036854775807");
    assert_eq!(text(&Json::integer(i64::MIN)), "-9223372036854775808");
    assert_eq!(text(&Json::Array(vec![Json::Null, Json::integer(1)])), "[null,1]");
    assert_eq!(text(&Json::Array(Vec::new())), "[]");
    assert_eq!(text(&Json::Object(Vec::new())), "{}");
    let object = Json::Object(vec![
        ("b".to_string(), Json::integer(1)),
        ("a".to_string(), Json::Array(vec![Json::Object(Vec::new())])),
    ]);
    assert_eq!(
        serde_json::from_str::<serde_json::Value>(&text(&object)).unwrap(),
        serde_json::from_str::<serde_json::Value>(r#"{"a":[{}],"b":1}"#).unwrap()
    );
}

#[test]
fn the_last_entry_of_a_key_counts() {
    let object = Json::Object(vec![
        ("k".to_string(), Json::integer(1)),
        ("k".to_string(), Json::integer(2)),
    ]);
    assert_eq!(text(&object), r#"{"k":2}"#);
    assert_eq!(text(object.get("k").unwrap()), "2");
    let (key, value) = object.single_entry().unwrap();
    assert_eq!(key, "k");
    assert_eq!(text(value), "2");
}

#[test]
fn parse_reads_every_kind() {
    assert!(matches!(parse("null"), Json::Null));
    assert!(matches!(parse(" true "), Json::Bool(true)));
    assert!(matches!(parse("\"s\""), Json::Text(s) if s == "s"));
    assert!(matches!(parse("[1,[2]]"), Json::Array(items) if items.len() == 2));
    assert!(matches!(parse("{\"a\":1,\"b\":2}"), Json::Object(entries) if entries.len() == 2));
    assert_eq!(parse("17").as_unsigned(), Some(17));
    assert_eq!(parse("18446744073709551615").as_unsigned(), Some(u64::MAX));
    assert_eq!(parse("0").as_unsigned(), Some(0));
    assert_eq!(parse("-17").as_unsigned(), None);
    assert_eq!(parse("17.0").as_unsigned(), None);
    assert_eq!(parse("\"17\"").as_unsigned(), None);
    assert_eq!(Json::integer(17).as_unsigned(), Some(17));
    assert_eq!(Json::integer(-1).as_unsigned(), None);
}

#[test]
fn parse_refuses_what_is_no_json() {
    for bad in ["", "{", "[1,]", "nul", "{\"a\":1,}", "1 2", "'a'"] {
        match Json::parse(bad.as_bytes()) {
            Err(Error::JsonSerialize(reason)) => assert!(!reason.is_empty()),
            other => panic!("unexpected outcome for {:?}: {:?}", bad, other),
        }
    }
    assert!(matches!(Json::parse(&[0xff, 0xfe]), Err(Error::JsonSerialize(_))));
}

#[test]
fn parse_then_encode_keeps_the_document() {
    let source = r#"{"a":[1,-2,3.5,"x",true,null,{"b":{}}],"c":"d"}"#;
    assert_eq!(text(&parse(source)), source);
}

#[test]
fn get_finds_the_value_of_a_key() {
    let object = parse(r#"{"a":1,"b":"x"}"#);
    assert_eq!(text(object.get("a").unwrap()), "1");
    assert_eq!(text(object.get("b").unwrap()), "\"x\"");
    assert!(object.get("c").is_none());
    assert!(object.get("").is_none());
    assert!(parse("[1]").get("a").is_none());
    assert!(Json::Null.get("a").is_none());
}

#[test]
fn single_entry_wants_exactly_one_key() {
    let one = parse(r#"{"a":1}"#);
    let (key, value) = one.single_entry().unwrap();
    assert_eq!(key, "a");
    assert_eq!(text(value), "1");
    assert!(parse("{}").single_entry().is_none());
    assert!(parse(r#"{"a":1,"b":2}"#).single_entry().is_none());
    assert!(parse(r#"{"a":1,"b":2,"c":3}"#).single_entry().is_none());
    assert!(parse("[1]").single_entry().is_none());
    assert!(parse("\"a\"").single_entry().is_none());
}

#[test]
fn duplicate_is_a_deep_copy() {
    let source = r#"{"a":[1,{"b":[true,null,"x",2.5]}],"c":{}}"#;
    let doc = parse(source);
    assert_eq!(text(&doc.duplicate()), source);
    assert_eq!(text(&doc.clone()), source);
}

#[test]
fn of_texts_is_an_array_of_strings() {
    assert_eq!(text(&Json::of_texts(&vec!["a".to_string(), "b".to_string()])), r#"["a","b"]"#);
    assert_eq!(text(&Json::of_texts(&Vec::new())), "[]");
}

#[test]
fn builder_leaves_absent_fields_out() {
    let doc = ObjectBuilder::new()
        .text("a", &Some("x".to_string()))
        .text("b", &None)
        .flag("c", Some(false))
        .flag("d", None)
        .text_list("e", &Some(vec!["y".to_string()]))
        .text_list("f", &None)
        .put("g", Some(Json::Null))
        .put("h", None)
        .finish();
    assert_eq!(
        serde_json::from_str::<serde_json::Value>(&text(&doc)).unwrap(),
        serde_json::from_str::<serde_json::Value>(r#"{"a":"x","c":false,"e":["y"],"g":null}"#).unwrap()
    );
    assert_eq!(text(&ObjectBuilder::new().finish()), "{}");
}

#[test]
fn a_later_entry_replaces_an_earlier_one_wherever_it_stands() {
    let object = Json::Object(vec![
        ("b".to_string(), Json::integer(1)),
        ("a".to_string(), Json::integer(2)),
        ("b".to_string(), Json::integer(3)),
        ("c".to_string(), Json::Object(vec![
            ("k".to_string(), Json::Text("first".to_string())),
            ("k".to_string(), Json::Text("second".to_string())),
            ("k".to_string(), Json::Text("third".to_string())),
        ])),
        ("a".to_string(), Json::Null),
        ("b".to_string(), Json::Bool(true)),
    ]);
    assert_eq!(text(&object), r#"{"a":null,"b":true,"c":{"k":"third"}}"#);
    assert_eq!(text(object.get("b").unwrap()), "true");
    assert_eq!(text(object.get("a").unwrap()), "null");
    assert_eq!(text(&object.duplicate()), r#"{"a":null,"b":true,"c":{"k":"third"}}"#);
}

#[test]
fn builder_given_a_key_twice_keeps_the_last_value() {
    let doc = ObjectBuilder::new()
        .put("k", Some(Json::integer(1)))
        .put("j", Some(Json::integer(2)))
        .put("k", Some(Json::integer(3)))
        .put("j", None)
        .finish();
    assert_eq!(text(&doc), r#"{"j":2,"k":3}"#);
}

#[test]
fn an_integer_reads_back_as_unsigned_where_it_is_not_negative() {
    assert_eq!(Json::integer(0).as_unsigned(), Some(0));
    assert_eq!(Json::integer(i64::MAX).as_unsigned(), Some(i64::MAX as u64));
    assert_eq!(Json::integer(-1).as_unsigned(), None);
    assert_eq!(Json::integer(i64::MIN).as_unsigned(), None);
}
