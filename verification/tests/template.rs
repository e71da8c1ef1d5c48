use lsctl::template::{render, render_chars, render_environment, TemplateError};

#[test]
fn environment_is_substituted() {
    let out = render_environment(r#"{"name":"{{environment}}"}"#, "prod").unwrap();
    assert_eq!(out, r#"{"name":"prod"}"#);
}

#[test]
fn every_occurrence_is_substituted() {
    let out = render_environment("{{environment}}-a-{{environment}}{{environment}}", "dev").unwrap();
    assert_eq!(out, "dev-a-devdev");
}

#[test]
fn unknown_placeholders_are_left_untouched() {
    let text = r#"{"name":"{{region}}","other":"{{ environment }}"}"#;
    assert_eq!(render_environment(text, "prod").unwrap(), text);
}

#[test]
fn text_without_placeholders_is_unchanged() {
    let text = r#"{"a":{"b":{"c":[1,2,{"d":null}]}}}"#;
    assert_eq!(render_environment(text, "prod").unwrap(), text);
    assert_eq!(render_environment("", "prod").unwrap(), "");
}

#[test]
fn unclosed_delimiter_is_an_error() {
    assert_eq!(render_environment("a {{environment", "prod"), Err(TemplateError { position: 2 }));
    assert_eq!(
        render_environment("{{environment}} and {{", "prod"),
        Err(TemplateError { position: 20 })
    );
    assert_eq!(render_environment("{{}", "prod"), Err(TemplateError { position: 0 }));
}

#[test]
fn closing_delimiters_alone_are_plain_text() {
    assert_eq!(render_environment("}} x }}", "prod").unwrap(), "}} x }}");
}

#[test]
fn the_value_is_not_rendered_again() {
    assert_eq!(render_environment("{{environment}}", "{{environment}}").unwrap(), "{{environment}}");
    assert_eq!(render_environment("{{environment}}", "{{").unwrap(), "{{");
}

#[test]
fn other_names_can_be_bound() {
    assert_eq!(render("to {{who}}, from {{me}}", "who", "you").unwrap(), "to you, from {{me}}");
    let text: Vec<char> = "x{{n}}y".chars().collect();
    let name: Vec<char> = "n".chars().collect();
    let value: Vec<char> = "é✓".chars().collect();
    let out: String = render_chars(&text, &name, &value).unwrap().into_iter().collect();
    assert_eq!(out, "xé✓y");
}

#[test]
fn an_embedded_placeholder_is_found() {
    assert_eq!(render_environment("{{{environment}}}", "p").unwrap(), "{p}");
}
