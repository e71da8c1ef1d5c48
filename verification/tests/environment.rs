use lsctl::environment::{
    resolve_environment, select_variables, validate_references, MissingReference, Resolution,
    ResolutionFailure,
};
use lsctl::models::{
    DeployConfig, EnvironmentTable, EnvironmentVariable, EnvironmentVariableValue, FlyGcpKms,
    FlyScaling, StringMap,
};

fn literal(key: &str, value: &str) -> EnvironmentVariable {
    EnvironmentVariable {
        key: key.to_string(),
        value: EnvironmentVariableValue::Value(value.to_string()),
    }
}

fn encrypted(key: &str) -> EnvironmentVariable {
    EnvironmentVariable {
        key: key.to_string(),
        value: EnvironmentVariableValue::FromGcpKms { value: "Y2lwaGVy".to_string() },
    }
}

fn stored(key: &str) -> EnvironmentVariable {
    EnvironmentVariable {
        key: key.to_string(),
        value: EnvironmentVariableValue::FromGcpSsm { name: "n".to_string(), version: 1 },
    }
}

fn map(entries: &[(&str, &str)]) -> StringMap {
    StringMap { entries: entries.iter().map(|(k, v)| (k.to_string(), v.to_string())).collect() }
}

fn config(table: EnvironmentTable) -> DeployConfig {
    DeployConfig {
        name: "app".to_string(),
        organization: "org".to_string(),
        default_region: "ord".to_string(),
        regions: vec![],
        backup_regions: vec![],
        scaling: FlyScaling::default(),
        gcp_kms: None,
        gcp_ssm: None,
        database: None,
        kill_signal: None,
        kill_timeout: None,
        build: None,
        deploy: None,
        statics: None,
        services: None,
        mounts: None,
        environment: Some(table),
    }
}

#[test]
fn all_comes_before_the_own_scope() {
    let table = EnvironmentTable {
        scopes: vec![
            ("prod".to_string(), vec![literal("A", "2")]),
            ("dev".to_string(), vec![literal("A", "3")]),
            ("all".to_string(), vec![literal("A", "1"), literal("B", "b")]),
        ],
    };
    assert_eq!(
        select_variables(&table, "prod"),
        vec![literal("A", "1"), literal("B", "b"), literal("A", "2")]
    );
    assert_eq!(select_variables(&table, "test"), vec![literal("A", "1"), literal("B", "b")]);
    assert_eq!(select_variables(&table, "all"), vec![literal("A", "1"), literal("B", "b")]);
    let resolved = resolve_environment(&select_variables(&table, "prod"), &vec![]);
    assert_eq!(resolved.environment, map(&[("A", "2"), ("B", "b")]));
    assert!(resolved.failures.is_empty());
}

#[test]
fn a_failure_leaves_the_value_of_all_in_place() {
    let variables = vec![literal("A", "1"), encrypted("A"), stored("B"), encrypted("C")];
    let outcomes =
        vec![Err("no key".to_string()), Ok("b".to_string()), Err("no access".to_string())];
    assert_eq!(
        resolve_environment(&variables, &outcomes),
        Resolution {
            environment: map(&[("A", "1"), ("B", "b")]),
            failures: vec![
                ResolutionFailure { key: "A".to_string(), message: "no key".to_string() },
                ResolutionFailure { key: "C".to_string(), message: "no access".to_string() },
            ],
        }
    );
}

#[test]
fn outcomes_beyond_the_lookups_are_not_read() {
    let variables = vec![encrypted("A")];
    let outcomes = vec![Ok("a".to_string()), Ok("b".to_string())];
    assert_eq!(resolve_environment(&variables, &outcomes).environment, map(&[("A", "a")]));
}

#[test]
fn references_are_needed_whatever_the_scope() {
    let table = |variables: Vec<EnvironmentVariable>| EnvironmentTable {
        scopes: vec![("all".to_string(), vec![]), ("staging".to_string(), variables)],
    };
    assert_eq!(validate_references(&config(table(vec![literal("A", "1")]))), Ok(()));
    assert_eq!(
        validate_references(&config(table(vec![stored("A"), encrypted("B")]))),
        Err(MissingReference::Kms)
    );
    assert_eq!(
        validate_references(&config(table(vec![stored("A")]))),
        Err(MissingReference::SecretStore)
    );
    let mut with_key = config(table(vec![encrypted("B")]));
    with_key.gcp_kms = Some(FlyGcpKms {
        project: "p".to_string(),
        key_ring: "r".to_string(),
        key: "k".to_string(),
        location: "l".to_string(),
    });
    assert_eq!(validate_references(&with_key), Ok(()));
    let shadowed = EnvironmentTable {
        scopes: vec![
            ("dev".to_string(), vec![encrypted("A")]),
            ("dev".to_string(), vec![literal("A", "1")]),
        ],
    };
    assert_eq!(validate_references(&config(shadowed)), Ok(()));
}
