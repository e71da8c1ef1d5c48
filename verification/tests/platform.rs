use lsctl::authoring::{deploy_document, sample_config, sample_text};
use lsctl::codec::{document_text, table_text};
use lsctl::decode::decode;
use lsctl::encode::platform_document;
use lsctl::models::{EnvironmentVariableValue, FlyKillSignal, StringMap};
use lsctl::pipeline::generate;
use lsctl::project::project;

#[test]
fn sample_configuration() {
    let config = sample_config("shop", "acme", true);
    assert_eq!(config.name, "shop");
    assert_eq!(config.organization, "acme");
    assert_eq!(config.default_region, "ord");
    let postgres = config.database.unwrap().postgres.unwrap();
    assert_eq!((postgres.cluster_size, postgres.volume_size), (2, 1));
    let table = config.environment.unwrap();
    let all = table.get("all").unwrap();
    assert_eq!(all.len(), 3);
    assert_eq!(all[0].key, "PLAINTEXT_VALUE");
    assert_eq!(all[0].value, EnvironmentVariableValue::Value("plaintext value".to_string()));
    assert_eq!(
        all[2].value,
        EnvironmentVariableValue::FromGcpSsm { name: "ssm name".to_string(), version: 1 }
    );
    let service = &config.services.unwrap()[0];
    assert_eq!(service.internal_port, 3000);
    assert_eq!(service.ports.len(), 2);
    assert_eq!(service.ports[1].port, 443);
    assert_eq!(service.concurrency.hard_limit, Some(25));
    assert!(sample_config("shop", "acme", false).database.unwrap().postgres.is_none());
}

#[test]
fn a_written_configuration_is_read_back() {
    let mut config = sample_config("shop", "acme", true);
    config.kill_signal = Some(FlyKillSignal::SigUsr2);
    config.regions = vec!["lhr".to_string()];
    let doc = deploy_document(&config);
    assert_eq!(decode(&doc), Ok(sample_config("shop", "acme", true)).map(|mut c| {
        c.kill_signal = Some(FlyKillSignal::SigUsr2);
        c.regions = vec!["lhr".to_string()];
        c
    }));
    let text = document_text(&doc).unwrap();
    assert!(text.contains(r#""kill_signal":"sigUsr2""#));
    assert!(text.contains(r#""protocol":"tcp""#));
    assert!(!text.contains("null"));
    let pretty = sample_text("shop", "acme", false).unwrap();
    assert!(pretty.starts_with("{\n  \"backup_regions\": [],\n  \"database\": {},\n"));
}

#[test]
fn platform_configuration_of_the_sample() {
    let config = sample_config("shop", "acme", true);
    let environment = StringMap {
        entries: vec![("B".to_string(), "2".to_string()), ("A".to_string(), "1".to_string())],
    };
    let platform = project(config, environment);
    assert_eq!(platform.app, "shop");
    let text = table_text(&platform_document(&platform)).unwrap();
    let expected = "app = \"shop\"\n\n[[services]]\ninternal_port = 3000\nprocesses = [\"app\"]\n\n[[services.http_checks]]\ngrace_period = \"5s\"\ninterval = \"10000\"\nmethod = \"get\"\npath = \"/api/health\"\nprotocol = \"http\"\ntimeout = \"2000\"\n\n[[services.ports]]\nhandlers = [\"http\"]\nport = 80\n\n[[services.ports]]\nforce_https = true\nhandlers = [\"tls\", \"http\"]\nport = 443\n\n[services.concurrency]\nhard_limit = 25\nsoft_limit = 20\ntype = \"connections\"\n\n[env]\nA = \"1\"\nB = \"2\"\n";
    assert_eq!(text, expected);
    assert!(!text.contains("protocol = \"tcp\""));
    assert!(!text.contains("null"));
}

#[test]
fn pipeline_output_for_a_full_configuration() {
    let source = r#"{"name":"shop","organization":"acme","default_region":"ord",
        "kill_signal":"sigQuit","kill_timeout":5,
        "build":{"image":"registry/{{environment}}","args":{"MODE":"{{environment}}"}},
        "deploy":{"strategy":"rolling"},
        "statics":[{"guest_path":"/p","url_prefix":"/s"}],
        "mounts":[{"source":"data","destination":"/data"}],
        "services":[{"internal_port":8080,"processes":["web"],"protocol":"tcp",
                     "concurrency":{"type":"requests"},"ports":[],
                     "tcp_checks":[{"interval":10}]}]}"#;
    let out = generate(&vec![source.to_string()], "prod", &vec![]).unwrap();
    let expected = "app = \"shop\"\nkill_signal = \"SIGQUIT\"\nkill_timeout = 5\n\n[[mounts]]\ndestination = \"/data\"\nsource = \"data\"\n\n[[services]]\ninternal_port = 8080\nports = []\nprocesses = [\"web\"]\n\n[[services.tcp_checks]]\ninterval = 10\n\n[services.concurrency]\ntype = \"requests\"\n\n[[statics]]\nguest_path = \"/p\"\nurl_prefix = \"/s\"\n\n[build]\nimage = \"registry/prod\"\n\n[build.args]\nMODE = \"prod\"\n\n[deploy]\nstrategy = \"rolling\"\n\n[env]\n";
    assert_eq!(out.text, expected);
}
