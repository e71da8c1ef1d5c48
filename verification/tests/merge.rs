use lsctl::codec::{document_text, parse_document};
use lsctl::json::Json;
use lsctl::merge::{merge, merge_documents, merge_pair};

fn doc(text: &str) -> Json {
    parse_document(text).unwrap()
}

fn text(doc: &Json) -> String {
    document_text(doc).unwrap()
}

#[test]
fn merge_of_one_document_is_that_document() {
    let a = doc(r#"{"name":"app","scaling":{"memory":512},"regions":["ord","lhr"]}"#);
    let merged = merge_documents(&vec![doc(&text(&a))]);
    assert_eq!(merged, a);
}

#[test]
fn merge_overrides_member_by_member() {
    let merged = merge_documents(&vec![
        doc(r#"{"a":{"x":1,"y":2}}"#),
        doc(r#"{"a":{"y":3,"z":4}}"#),
    ]);
    assert_eq!(text(&merged), r#"{"a":{"x":1,"y":3,"z":4}}"#);
}

#[test]
fn merge_replaces_arrays() {
    let merged = merge_documents(&vec![doc(r#"{"a":[1,2]}"#), doc(r#"{"a":[3]}"#)]);
    assert_eq!(text(&merged), r#"{"a":[3]}"#);
    assert_ne!(text(&merged), r#"{"a":[1,2,3]}"#);
}

#[test]
fn merge_keeps_a_null_of_the_later_document() {
    let merged = merge_pair(&doc(r#"{"a":1,"b":2}"#), &doc(r#"{"a":null,"c":null}"#));
    assert_eq!(text(&merged), r#"{"a":null,"b":2,"c":null}"#);
}

#[test]
fn merge_in_place_matches_merge_pair() {
    let mut base = doc(r#"{"a":{"x":1},"b":[1]}"#);
    let patch = doc(r#"{"a":{"y":{"z":true}},"b":"s"}"#);
    let expected = merge_pair(&base, &patch);
    merge(&mut base, &patch);
    assert_eq!(base, expected);
    assert_eq!(text(&base), r#"{"a":{"x":1,"y":{"z":true}},"b":"s"}"#);
}
