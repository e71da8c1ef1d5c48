use lsctl::codec::{document_text, parse_document};
use lsctl::merge::merge_pair;

fn ours(base: &str, patch: &str) -> String {
    let merged = merge_pair(&parse_document(base).unwrap(), &parse_document(patch).unwrap());
    document_text(&merged).unwrap()
}

fn theirs(base: &str, patch: &str) -> String {
    let mut doc: serde_json::Value = serde_json::from_str(base).unwrap();
    let patch: serde_json::Value = serde_json::from_str(patch).unwrap();
    json_patch::merge(&mut doc, &patch);
    serde_json::to_string(&doc).unwrap()
}

#[test]
fn merge_agrees_with_merge_patch_on_documents_without_null() {
    let cases = [
        (r#"{"a":{"x":1,"y":2}}"#, r#"{"a":{"y":3,"z":4}}"#),
        (r#"{"a":[1,2]}"#, r#"{"a":[3]}"#),
        (r#"{"a":1}"#, r#"{"b":{"c":{"d":[{}]}}}"#),
        (r#"{"a":{"b":{"c":1,"d":2}},"e":"f"}"#, r#"{"a":{"b":{"c":{"x":true}}},"e":{"g":1}}"#),
        (r#"{"a":{"b":1}}"#, r#"{"a":"s"}"#),
        (r#"{"a":{"b":1}}"#, r#"[1,2]"#),
        (r#"{"a":{"b":1}}"#, r#""text""#),
        (r#"{"a":{"b":1}}"#, r#"{}"#),
        (r#"{}"#, r#"{"a":{"b":1}}"#),
        (r#"{"name":"app","services":[{"p":1}],"scaling":{"memory":256}}"#,
         r#"{"services":[],"scaling":{"min_count":2},"regions":["ord"]}"#),
    ];
    for (base, patch) in cases {
        assert_eq!(ours(base, patch), theirs(base, patch), "{} <- {}", base, patch);
    }
}

#[test]
fn merge_replaces_what_is_no_object() {
    assert_eq!(ours(r#"[1,2]"#, r#"{"a":1}"#), r#"{"a":1}"#);
    assert_eq!(ours(r#"7"#, r#"{"a":{"b":null}}"#), r#"{"a":{"b":null}}"#);
    assert_eq!(ours(r#"{"a":1}"#, r#"null"#), r#"null"#);
}
