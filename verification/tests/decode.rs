use lsctl::codec::parse_document;
use lsctl::decode::decode;
use lsctl::models::{
    DeployConfig, EnvironmentTable, EnvironmentVariable, EnvironmentVariableValue,
    FlyAutoscalingBalanceMethod, FlyBuild, FlyDatabase, FlyDatabasePostgres, FlyDeploy,
    FlyDeployStrategy, FlyGcpKms, FlyGcpSsm, FlyKillSignal, FlyMount, FlyScaling, FlyService,
    FlyServiceConcurrency, FlyServiceHttpCheck, FlyServiceHttpCheckProtocol, FlyServicePort,
    FlyServicePortHandler, FlyServiceProtocol, FlyServiceTcpCheck, FlyStatic, FlyVmSize, StringMap,
};

fn read(text: &str) -> Result<DeployConfig, String> {
    decode(&parse_document(text).unwrap())
}

fn minimal() -> DeployConfig {
    DeployConfig {
        name: "app".to_string(),
        organization: "org".to_string(),
        default_region: "ord".to_string(),
        regions: vec![],
        backup_regions: vec![],
        scaling: FlyScaling::default(),
        gcp_kms: None,
        gcp_ssm: None,
        database: None,
        kill_signal: None,
        kill_timeout: None,
        build: None,
        deploy: None,
        statics: None,
        services: None,
        mounts: None,
        environment: None,
    }
}

#[test]
fn a_minimal_configuration_gets_the_defaults() {
    let config = read(r#"{"name":"app","organization":"org","default_region":"ord"}"#).unwrap();
    assert_eq!(config, minimal());
    assert_eq!(config.scaling.memory, 256);
    assert_eq!(config.scaling.min_count, 1);
    assert_eq!(config.scaling.max_count, 1);
    assert_eq!(config.scaling.vm_size, FlyVmSize::SharedCpu1x);
    assert_eq!(config.scaling.balance_method, FlyAutoscalingBalanceMethod::Balanced);
}

#[test]
fn members_that_are_null_or_unknown_are_not_read() {
    let config = read(
        r#"{"name":"app","organization":"org","default_region":"ord","build":null,
            "kill_timeout":null,"services":null,"environment":null,"comment":[1.5,{"x":-3}]}"#,
    )
    .unwrap();
    assert_eq!(config, minimal());
}

#[test]
fn every_part_is_read() {
    let config = read(
        r#"{
        "name":"app","organization":"org","default_region":"ord",
        "regions":["lhr"],"backup_regions":["ams","fra"],
        "scaling":{"memory":512,"vm_size":"dedicated-cpu-2x","min_count":2,"max_count":5,
                   "balance_method":"standard"},
        "gcp_kms":{"project":"p","key_ring":"r","key":"k","location":"l"},
        "gcp_ssm":{"project":"s"},
        "database":{"postgres":{"cluster_size":3}},
        "kill_signal":"sigInt","kill_timeout":30,
        "build":{"builder":"b","image":"i","dockerfile":"d","build_target":"t",
                 "buildpacks":["x","y"],"args":{"A":"1"}},
        "deploy":{"release_command":"migrate","strategy":"bluegreen"},
        "statics":[{"guest_path":"/public","url_prefix":"/static"}],
        "services":[{"internal_port":3000,"processes":["app"],
            "concurrency":{"hard_limit":25,"soft_limit":20,"type":"connections"},
            "ports":[{"port":80,"handlers":["http"]},
                     {"port":443,"force_https":true,"handlers":["tls","http"]}],
            "tcp_checks":[{"interval":15,"grace_period":"1s","timeout":2,"restart_limit":0}],
            "http_checks":[{"interval":"10s","grace_period":"5s","method":"get",
                            "path":"/health","protocol":"https","timeout":"2s",
                            "restart_limit":3,"tls_skip_verify":false,
                            "headers":{"X-Check":"1"}}],
            "protocol":"udp"}],
        "mounts":[{"source":"data","destination":"/data"}],
        "environment":{"all":[{"key":"A","value":"1"},
                              {"key":"B","from_gcp_kms":{"value":"Yg=="}},
                              {"key":"C","from_gcp_ssm":{"name":"c","version":65535}}],
                       "prod":[]}
    }"#,
    )
    .unwrap();
    let expected = DeployConfig {
        name: "app".to_string(),
        organization: "org".to_string(),
        default_region: "ord".to_string(),
        regions: vec!["lhr".to_string()],
        backup_regions: vec!["ams".to_string(), "fra".to_string()],
        scaling: FlyScaling {
            memory: 512,
            vm_size: FlyVmSize::DedicatedCpu2x,
            min_count: 2,
            max_count: 5,
            balance_method: FlyAutoscalingBalanceMethod::Standard,
        },
        gcp_kms: Some(FlyGcpKms {
            project: "p".to_string(),
            key_ring: "r".to_string(),
            key: "k".to_string(),
            location: "l".to_string(),
        }),
        gcp_ssm: Some(FlyGcpSsm { project: "s".to_string() }),
        database: Some(FlyDatabase {
            postgres: Some(FlyDatabasePostgres {
                cluster_size: 3,
                vm_size: FlyVmSize::SharedCpu1x,
                volume_size: 0,
            }),
        }),
        kill_signal: Some(FlyKillSignal::SigInt),
        kill_timeout: Some(30),
        build: Some(FlyBuild {
            builder: Some("b".to_string()),
            image: Some("i".to_string()),
            dockerfile: Some("d".to_string()),
            build_target: Some("t".to_string()),
            buildpacks: Some(vec!["x".to_string(), "y".to_string()]),
            args: Some(StringMap { entries: vec![("A".to_string(), "1".to_string())] }),
        }),
        deploy: Some(FlyDeploy {
            release_command: Some("migrate".to_string()),
            strategy: Some(FlyDeployStrategy::Bluegreen),
        }),
        statics: Some(vec![FlyStatic {
            guest_path: "/public".to_string(),
            url_prefix: "/static".to_string(),
        }]),
        services: Some(vec![FlyService {
            internal_port: 3000,
            processes: vec!["app".to_string()],
            concurrency: FlyServiceConcurrency {
                hard_limit: Some(25),
                soft_limit: Some(20),
                the_type: "connections".to_string(),
            },
            ports: vec![
                FlyServicePort {
                    port: 80,
                    force_https: None,
                    handlers: vec![FlyServicePortHandler::Http],
                },
                FlyServicePort {
                    port: 443,
                    force_https: Some(true),
                    handlers: vec![FlyServicePortHandler::Tls, FlyServicePortHandler::Http],
                },
            ],
            tcp_checks: Some(vec![FlyServiceTcpCheck {
                interval: Some(15),
                grace_period: Some("1s".to_string()),
                timeout: Some(2),
                restart_limit: Some(0),
            }]),
            http_checks: Some(vec![FlyServiceHttpCheck {
                interval: Some("10s".to_string()),
                grace_period: Some("5s".to_string()),
                method: Some("get".to_string()),
                path: Some("/health".to_string()),
                protocol: Some(FlyServiceHttpCheckProtocol::Https),
                timeout: Some("2s".to_string()),
                restart_limit: Some(3),
                tls_skip_verify: Some(false),
                headers: Some(StringMap { entries: vec![("X-Check".to_string(), "1".to_string())] }),
            }]),
            protocol: Some(FlyServiceProtocol::Udp),
        }]),
        mounts: Some(vec![FlyMount { source: "data".to_string(), destination: "/data".to_string() }]),
        environment: Some(EnvironmentTable {
            scopes: vec![
                (
                    "all".to_string(),
                    vec![
                        EnvironmentVariable {
                            key: "A".to_string(),
                            value: EnvironmentVariableValue::Value("1".to_string()),
                        },
                        EnvironmentVariable {
                            key: "B".to_string(),
                            value: EnvironmentVariableValue::FromGcpKms {
                                value: "Yg==".to_string(),
                            },
                        },
                        EnvironmentVariable {
                            key: "C".to_string(),
                            value: EnvironmentVariableValue::FromGcpSsm {
                                name: "c".to_string(),
                                version: 65535,
                            },
                        },
                    ],
                ),
                ("prod".to_string(), vec![]),
            ],
        }),
    };
    assert_eq!(config, expected);
}

#[test]
fn names_of_kill_signals_and_sizes() {
    let with = |member: &str| {
        read(&format!(
            r#"{{"name":"a","organization":"o","default_region":"r",{}}}"#,
            member
        ))
    };
    for (name, signal) in [
        ("sigInt", FlyKillSignal::SigInt),
        ("sigTerm", FlyKillSignal::SigTerm),
        ("sigQuit", FlyKillSignal::SigQuit),
        ("sigUsr1", FlyKillSignal::SigUsr1),
        ("sigUsr2", FlyKillSignal::SigUsr2),
        ("sigKill", FlyKillSignal::SigKill),
        ("sigStop", FlyKillSignal::SigStop),
    ] {
        let config = with(&format!(r#""kill_signal":"{}""#, name)).unwrap();
        assert_eq!(config.kill_signal, Some(signal));
    }
    assert_eq!(with(r#""kill_signal":"SIGINT""#), Err("kill_signal".to_string()));
    for (name, size) in [
        ("shared-cpu-1x", FlyVmSize::SharedCpu1x),
        ("dedicated-cpu-1x", FlyVmSize::DedicatedCpu1x),
        ("dedicated-cpu-2x", FlyVmSize::DedicatedCpu2x),
        ("dedicated-cpu-4x", FlyVmSize::DedicatedCpu4x),
        ("dedicated-cpu-8x", FlyVmSize::DedicatedCpu8x),
    ] {
        let config = with(&format!(r#""scaling":{{"vm_size":"{}"}}"#, name)).unwrap();
        assert_eq!(config.scaling.vm_size, size);
    }
    for (name, strategy) in [
        ("canary", FlyDeployStrategy::Canary),
        ("rolling", FlyDeployStrategy::Rolling),
        ("bluegreen", FlyDeployStrategy::Bluegreen),
        ("immediate", FlyDeployStrategy::Immediate),
    ] {
        let config = with(&format!(r#""deploy":{{"strategy":"{}"}}"#, name)).unwrap();
        assert_eq!(config.deploy.unwrap().strategy, Some(strategy));
    }
    let config = with(r#""scaling":{"balance_method":"static"}"#).unwrap();
    assert!(config.scaling.balance_method.is_static());
}

#[test]
fn what_is_wrong_is_named() {
    let refused = |text: &str, key: &str| assert_eq!(read(text), Err(key.to_string()), "{}", text);
    refused(r#"[]"#, "");
    refused(r#"{"organization":"o","default_region":"r"}"#, "name");
    refused(r#"{"name":null,"organization":"o","default_region":"r"}"#, "name");
    refused(r#"{"name":"a","organization":7,"default_region":"r"}"#, "organization");
    refused(r#"{"name":"a","organization":"o","default_region":"r","regions":null}"#, "regions");
    refused(r#"{"name":"a","organization":"o","default_region":"r","regions":["x",1]}"#, "regions");
    refused(r#"{"name":"a","organization":"o","default_region":"r","scaling":null}"#, "scaling");
    refused(
        r#"{"name":"a","organization":"o","default_region":"r","scaling":{"memory":-1}}"#,
        "memory",
    );
    refused(
        r#"{"name":"a","organization":"o","default_region":"r","scaling":{"memory":1.5}}"#,
        "memory",
    );
    refused(
        r#"{"name":"a","organization":"o","default_region":"r","scaling":{"vm_size":"huge"}}"#,
        "vm_size",
    );
    refused(r#"{"name":"a","organization":"o","default_region":"r","kill_timeout":"5"}"#, "kill_timeout");
    refused(r#"{"name":"a","organization":"o","default_region":"r","gcp_kms":{"project":"p"}}"#, "key_ring");
    refused(r#"{"name":"a","organization":"o","default_region":"r","build":[]}"#, "build");
    refused(
        r#"{"name":"a","organization":"o","default_region":"r","build":{"args":{"A":1}}}"#,
        "args",
    );
    refused(r#"{"name":"a","organization":"o","default_region":"r","statics":[{"guest_path":"g"}]}"#, "url_prefix");
    refused(r#"{"name":"a","organization":"o","default_region":"r","mounts":{}}"#, "mounts");
    refused(
        r#"{"name":"a","organization":"o","default_region":"r","services":[{"internal_port":1,
            "processes":[],"ports":[]}]}"#,
        "concurrency",
    );
    refused(
        r#"{"name":"a","organization":"o","default_region":"r","services":[{"internal_port":1,
            "processes":[],"concurrency":{"type":"c"},"ports":[{"port":1,"handlers":["ftp"]}]}]}"#,
        "handlers",
    );
    refused(
        r#"{"name":"a","organization":"o","default_region":"r","environment":{"all":[{"key":"A"}]}}"#,
        "environment",
    );
    refused(
        r#"{"name":"a","organization":"o","default_region":"r",
            "environment":{"all":[{"key":"A","from_gcp_ssm":{"name":"n","version":65536}}]}}"#,
        "environment",
    );
    refused(r#"{"name":"a","organization":"o","default_region":"r","environment":[]}"#, "environment");
}

#[test]
fn the_source_of_a_variable_is_found_by_its_member() {
    let config = read(
        r#"{"name":"a","organization":"o","default_region":"r",
            "environment":{"all":[{"key":"A","value":"v","from_gcp_kms":{"value":"c"}},
                                  {"key":"B","value":"v","from_gcp_ssm":{"name":"n","version":0}}]}}"#,
    )
    .unwrap();
    let table = config.environment.unwrap();
    let all = table.get("all").unwrap();
    assert_eq!(all[0].value, EnvironmentVariableValue::FromGcpKms { value: "c".to_string() });
    assert_eq!(
        all[1].value,
        EnvironmentVariableValue::FromGcpSsm { name: "n".to_string(), version: 0 }
    );
    assert!(table.get("prod").is_none());
}
