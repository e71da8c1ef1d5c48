use lsctl::codec::{document_text, document_text_pretty, parse_document, table_text};
use lsctl::json::{get_member, set_member, Json};
use lsctl::merge::merge_pair;

fn number(n: u64) -> Json {
    Json::Number(serde_json::Number::from(n))
}

#[test]
fn text_is_read_as_a_document() {
    let doc = parse_document(r#"{"b":[true,null,"s",7,-7,1.5],"a":{}}"#).unwrap();
    assert_eq!(
        doc,
        Json::Object(vec![
            ("a".to_string(), Json::Object(vec![])),
            (
                "b".to_string(),
                Json::Array(vec![
                    Json::Bool(true),
                    Json::Null,
                    Json::String("s".to_string()),
                    number(7),
                    Json::Number(serde_json::Number::from(-7)),
                    Json::Number(serde_json::Number::from_f64(1.5).unwrap()),
                ])
            ),
        ])
    );
    assert!(parse_document("{").is_err());
    assert!(parse_document("").is_err());
    assert!(parse_document(r#"{"a":1} x"#).is_err());
}

#[test]
fn a_document_is_written_as_json() {
    let doc = Json::Object(vec![
        ("b".to_string(), Json::Array(vec![number(1), Json::Null])),
        ("a".to_string(), Json::String("x\"y".to_string())),
    ]);
    assert_eq!(document_text(&doc).unwrap(), r#"{"a":"x\"y","b":[1,null]}"#);
    assert_eq!(
        document_text_pretty(&doc).unwrap(),
        "{\n  \"a\": \"x\\\"y\",\n  \"b\": [\n    1,\n    null\n  ]\n}"
    );
    assert_eq!(parse_document(&document_text(&doc).unwrap()).unwrap().get("a"), doc.get("a"));
}

#[test]
fn a_later_member_shadows_an_earlier_one() {
    let doc = Json::Object(vec![
        ("a".to_string(), number(1)),
        ("b".to_string(), number(2)),
        ("a".to_string(), number(3)),
    ]);
    assert_eq!(doc.get("a"), Some(&number(3)));
    assert_eq!(doc.get("c"), None);
    assert_eq!(Json::Array(vec![]).get("a"), None);
    assert_eq!(document_text(&doc).unwrap(), r#"{"a":3,"b":2}"#);
    assert_eq!(table_text(&doc).unwrap(), "a = 3\nb = 2\n");
    assert_eq!(document_text(&doc.duplicate()).unwrap(), r#"{"a":3,"b":2}"#);
    let merged = merge_pair(&doc, &Json::Object(vec![("b".to_string(), number(5))]));
    assert_eq!(document_text(&merged).unwrap(), r#"{"a":3,"b":5}"#);
}

#[test]
fn members_are_set_in_place_or_at_the_end() {
    let mut members = vec![("a".to_string(), number(1)), ("b".to_string(), number(2))];
    set_member(&mut members, "a".to_string(), number(9));
    set_member(&mut members, "c".to_string(), Json::Null);
    assert_eq!(
        members,
        vec![
            ("a".to_string(), number(9)),
            ("b".to_string(), number(2)),
            ("c".to_string(), Json::Null),
        ]
    );
    assert_eq!(get_member(&members, "b"), Some(&number(2)));
    assert_eq!(get_member(&members, "d"), None);
}

#[test]
fn a_document_is_written_as_toml_where_toml_can_hold_it() {
    let doc = parse_document(r#"{"title":"t","n":-3,"x":1.5,"on":true,"list":["a","b"],
        "table":{"k":"v"},"rows":[{"a":1},{"a":2}]}"#)
    .unwrap();
    assert_eq!(
        table_text(&doc).unwrap(),
        "list = [\"a\", \"b\"]\nn = -3\non = true\ntitle = \"t\"\nx = 1.5\n\n[[rows]]\na = 1\n\n[[rows]]\na = 2\n\n[table]\nk = \"v\"\n"
    );
    assert_eq!(table_text(&parse_document(r#"{"a":null}"#).unwrap()), None);
    assert_eq!(table_text(&parse_document(r#"{"a":[{"b":null}]}"#).unwrap()), None);
    assert_eq!(table_text(&parse_document(r#"{"a":18446744073709551615}"#).unwrap()), None);
    assert_eq!(
        table_text(&parse_document(r#"{"a":9223372036854775807}"#).unwrap()).unwrap(),
        "a = 9223372036854775807\n"
    );
    assert_eq!(table_text(&parse_document(r#"[1]"#).unwrap()).unwrap(), "[1]");
    assert_eq!(table_text(&Json::Null), None);
}
