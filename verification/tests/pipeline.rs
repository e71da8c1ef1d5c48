use lsctl::environment::{secret_requests, MissingReference, ResolutionFailure, SecretRequest};
use lsctl::models::DeployConfig;
use lsctl::pipeline::{generate, platform_text, Failure, PipelineError};

fn texts(items: &[&str]) -> Vec<String> {
    items.iter().map(|s| s.to_string()).collect()
}

const MINIMAL: &str = r#"{"name":"app","organization":"org","default_region":"ord"}"#;

#[test]
fn minimal_configuration_has_no_placeholders_for_absent_parts() {
    let out = generate(&texts(&[MINIMAL]), "dev", &vec![]).unwrap();
    assert_eq!(out.text, "app = \"app\"\n\n[env]\n");
    assert!(out.failures.is_empty());
}

#[test]
fn specific_scope_overrides_all() {
    let source = r#"{"name":"app","organization":"org","default_region":"ord",
        "environment":{"all":[{"key":"A","value":"1"}],"prod":[{"key":"A","value":"2"}]}}"#;
    let out = generate(&texts(&[source]), "prod", &vec![]).unwrap();
    assert_eq!(out.text, "app = \"app\"\n\n[env]\nA = \"2\"\n");
    let out = generate(&texts(&[source]), "dev", &vec![]).unwrap();
    assert_eq!(out.text, "app = \"app\"\n\n[env]\nA = \"1\"\n");
}

#[test]
fn other_scopes_are_ignored() {
    let source = r#"{"name":"app","organization":"org","default_region":"ord",
        "environment":{"all":[{"key":"A","value":"1"}],"dev":[{"key":"B","value":"d"}],
                       "prod":[{"key":"C","value":"p"}]}}"#;
    let out = generate(&texts(&[source]), "prod", &vec![]).unwrap();
    assert_eq!(out.text, "app = \"app\"\n\n[env]\nA = \"1\"\nC = \"p\"\n");
}

const TWO_SECRETS: &str = r#"{"name":"app","organization":"org","default_region":"ord",
    "gcp_kms":{"project":"p","key_ring":"r","key":"k","location":"l"},
    "environment":{"all":[{"key":"ONE","from_gcp_kms":{"value":"Y2lwaGVyMQ=="}},
                          {"key":"TWO","from_gcp_kms":{"value":"Y2lwaGVyMg=="}}]}}"#;

#[test]
fn a_failed_lookup_only_leaves_its_variable_out() {
    let outcomes = vec![Err("denied".to_string()), Ok("two".to_string())];
    let out = generate(&texts(&[TWO_SECRETS]), "dev", &outcomes).unwrap();
    assert_eq!(out.text, "app = \"app\"\n\n[env]\nTWO = \"two\"\n");
    assert_eq!(
        out.failures,
        vec![ResolutionFailure { key: "ONE".to_string(), message: "denied".to_string() }]
    );
}

#[test]
fn a_lookup_without_an_outcome_has_failed() {
    let out = generate(&texts(&[TWO_SECRETS]), "dev", &vec![Ok("one".to_string())]).unwrap();
    assert_eq!(out.text, "app = \"app\"\n\n[env]\nONE = \"one\"\n");
    assert_eq!(
        out.failures,
        vec![ResolutionFailure { key: "TWO".to_string(), message: String::new() }]
    );
}

#[test]
fn requests_follow_the_variables() {
    let source = r#"{"name":"app","organization":"org","default_region":"ord",
        "gcp_kms":{"project":"p","key_ring":"r","key":"k","location":"l"},
        "gcp_ssm":{"project":"s"},
        "environment":{"all":[{"key":"A","value":"1"},
                              {"key":"B","from_gcp_ssm":{"name":"n","version":7}}],
                       "prod":[{"key":"C","from_gcp_kms":{"value":"Yw=="}}],
                       "dev":[{"key":"D","from_gcp_kms":{"value":"ZA=="}}]}}"#;
    let config = DeployConfig::new(&texts(&[source]), "prod").unwrap();
    let requests = secret_requests(&config, "prod").unwrap();
    assert_eq!(
        requests,
        vec![
            SecretRequest::Fetch { project: "s".to_string(), name: "n".to_string(), version: 7 },
            SecretRequest::Decrypt {
                project: "p".to_string(),
                location: "l".to_string(),
                key_ring: "r".to_string(),
                key: "k".to_string(),
                ciphertext: "Yw==".to_string(),
            },
        ]
    );
    let outcomes = vec![Ok("secret".to_string()), Ok("plain".to_string())];
    let out = platform_text(config, "prod", &outcomes).unwrap();
    assert_eq!(out.text, "app = \"app\"\n\n[env]\nA = \"1\"\nB = \"secret\"\nC = \"plain\"\n");
}

#[test]
fn a_missing_key_reference_stops_the_pipeline() {
    let source = r#"{"name":"app","organization":"org","default_region":"ord",
        "environment":{"staging":[{"key":"A","from_gcp_kms":{"value":"eA=="}}]}}"#;
    let err = DeployConfig::new(&texts(&[source]), "prod").unwrap_err();
    assert_eq!(err, PipelineError::MissingCredentialReference { reference: MissingReference::Kms });
    assert_eq!(err.kind(), Failure::MissingCredentialReference(MissingReference::Kms));
}

#[test]
fn a_missing_secret_store_reference_stops_the_pipeline() {
    let source = r#"{"name":"app","organization":"org","default_region":"ord",
        "gcp_kms":{"project":"p","key_ring":"r","key":"k","location":"l"},
        "environment":{"all":[{"key":"A","from_gcp_kms":{"value":"eA=="}},
                              {"key":"B","from_gcp_ssm":{"name":"n","version":1}}]}}"#;
    let err = generate(&texts(&[source]), "prod", &vec![]).unwrap_err();
    assert_eq!(
        err,
        PipelineError::MissingCredentialReference { reference: MissingReference::SecretStore }
    );
}

#[test]
fn text_that_is_no_json_is_a_parse_error() {
    let err = generate(&texts(&[MINIMAL, "{"]), "dev", &vec![]).unwrap_err();
    assert_eq!(err.kind(), Failure::ConfigParse);
}

#[test]
fn a_missing_member_is_a_parse_error() {
    let err = generate(&texts(&[r#"{"name":"app","organization":"org"}"#]), "dev", &vec![])
        .unwrap_err();
    assert_eq!(err, PipelineError::ConfigParse { message: "default_region".to_string() });
}

#[test]
fn a_malformed_template_is_a_render_error() {
    let source = r#"{"name":"{{environment","organization":"org","default_region":"ord"}"#;
    let err = generate(&texts(&[source]), "dev", &vec![]).unwrap_err();
    assert_eq!(err.kind(), Failure::TemplateRender);
}

#[test]
fn sources_are_merged_and_rendered() {
    let base = r#"{"name":"app-{{environment}}","organization":"org","default_region":"ord",
        "kill_timeout":5,"services":[]}"#;
    let over = r#"{"kill_timeout":9,"kill_signal":"sigTerm",
        "environment":{"all":[{"key":"ENV","value":"{{environment}}"}]}}"#;
    let out = generate(&texts(&[base, over]), "prod", &vec![]).unwrap();
    assert_eq!(
        out.text,
        "app = \"app-prod\"\nkill_signal = \"SIGTERM\"\nkill_timeout = 9\nservices = []\n\n[env]\nENV = \"prod\"\n"
    );
}

#[test]
fn the_pipeline_is_repeatable() {
    let outcomes = vec![Ok("one".to_string()), Err("gone".to_string())];
    let first = generate(&texts(&[TWO_SECRETS, MINIMAL]), "dev", &outcomes);
    let second = generate(&texts(&[TWO_SECRETS, MINIMAL]), "dev", &outcomes);
    assert_eq!(first, second);
    assert_eq!(first.unwrap().text.as_bytes(), second.unwrap().text.as_bytes());
}

#[test]
fn errors_say_what_went_wrong() {
    let say = |e: PipelineError| e.describe();
    assert_eq!(
        say(PipelineError::ConfigRead { path: "fly.json".to_string(), message: "gone".to_string() }),
        "Failed to read file fly.json: gone"
    );
    assert_eq!(
        say(PipelineError::ConfigParse { message: "name".to_string() }),
        "Failed to parse the deploy config: name"
    );
    assert_eq!(
        say(PipelineError::TemplateRender { position: 120 }),
        "Failed to render the deploy config: no closing delimiter after position 120"
    );
    assert_eq!(
        say(PipelineError::MissingCredentialReference { reference: MissingReference::Kms }),
        "gcp_kms config is not set"
    );
    assert_eq!(
        say(PipelineError::MissingCredentialReference { reference: MissingReference::SecretStore }),
        "gcp_ssm config is not set"
    );
    assert_eq!(
        say(PipelineError::Io { path: "fly.toml".to_string(), message: "full".to_string() }),
        "Error creating file fly.toml: full"
    );
    assert_eq!(say(PipelineError::Aborted), "Aborted");
    assert_eq!(PipelineError::Aborted.kind(), Failure::Aborted);
    assert_eq!(
        PipelineError::Io { path: String::new(), message: String::new() }.kind(),
        Failure::Io
    );
    assert_eq!(
        PipelineError::ConfigRead { path: String::new(), message: String::new() }.kind(),
        Failure::ConfigRead
    );
    let failure = ResolutionFailure { key: "TOKEN".to_string(), message: "denied".to_string() };
    assert_eq!(failure.describe(), "Error resolving TOKEN: denied");
}

#[test]
fn a_number_that_toml_cannot_hold_stops_the_writing() {
    let source = r#"{"name":"app","organization":"org","default_region":"ord",
        "kill_timeout":18446744073709551615}"#;
    let err = generate(&texts(&[source]), "dev", &vec![]).unwrap_err();
    assert_eq!(
        err,
        PipelineError::ConfigParse {
            message: "the platform configuration cannot be written as TOML".to_string()
        }
    );
}

#[test]
fn the_place_of_the_unclosed_delimiter_is_told() {
    let source = r#"{"name":"{{environment","organization":"org","default_region":"ord"}"#;
    let err = DeployConfig::new(&texts(&[source]), "dev").unwrap_err();
    assert_eq!(err, PipelineError::TemplateRender { position: 32 });
}

#[test]
fn a_whole_run_tells_the_lookups_that_failed() {
    let outcomes = vec![Err("denied".to_string()), Err("gone".to_string())];
    let out = generate(&texts(&[TWO_SECRETS]), "dev", &outcomes).unwrap();
    assert_eq!(
        out.failures,
        vec![
            ResolutionFailure { key: "ONE".to_string(), message: "denied".to_string() },
            ResolutionFailure { key: "TWO".to_string(), message: "gone".to_string() },
        ]
    );
    assert_eq!(out.text, "app = \"app\"\n\n[env]\n");
}
