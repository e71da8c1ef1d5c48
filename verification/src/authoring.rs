//! Writing a deploy configuration as a document, and the configuration
//! that a new application starts from.

use vstd::prelude::*;
use crate::assoc::{lemma_to_map_push, to_map};
use crate::codec::{document_text_pretty, json_text_pretty, number_from_u64};
use crate::encode::{
    build_doc, concurrency_doc, deploy_doc, http_check_writer, list_doc, mount_writer, port_writer,
    static_writer, tcp_check_writer, texts_doc, unsigned_doc, write_build, write_concurrency,
    write_deploy, write_http_checks, write_mounts, write_ports, write_statics, write_tcp_checks,
    write_texts,
};
use crate::json::{item_views, member_map, member_views, set_member, Json, JsonView};
use crate::models::{
    scope_views, DeployConfig, DeployConfigView, EnvironmentTable, EnvironmentVariable,
    EnvironmentVariableValue, EnvironmentVariableValueView, EnvironmentVariableView, FlyDatabase,
    FlyDatabasePostgres, FlyGcpKms, FlyGcpKmsView, FlyGcpSsm, FlyGcpSsmView, FlyKillSignal,
    FlyScaling, FlyService, FlyServiceConcurrency, FlyServiceConcurrencyView, FlyServiceHttpCheck,
    FlyServiceHttpCheckProtocol, FlyServiceHttpCheckView, FlyServicePort, FlyServicePortHandler,
    FlyServicePortView, FlyServiceProtocol, FlyServiceView, FlyVmSize,
};
use crate::views::views;

verus! {

/// The name of a kill signal in a deploy configuration.
pub open spec fn kill_signal_name(s: FlyKillSignal) -> Seq<char> {
    match s {
        FlyKillSignal::SigInt => "sigInt"@,
        FlyKillSignal::SigTerm => "sigTerm"@,
        FlyKillSignal::SigQuit => "sigQuit"@,
        FlyKillSignal::SigUsr1 => "sigUsr1"@,
        FlyKillSignal::SigUsr2 => "sigUsr2"@,
        FlyKillSignal::SigKill => "sigKill"@,
        FlyKillSignal::SigStop => "sigStop"@,
    }
}

/// The name of a transport in a deploy configuration.
pub open spec fn service_protocol_label(p: FlyServiceProtocol) -> Seq<char> {
    match p {
        FlyServiceProtocol::Tcp => "tcp"@,
        FlyServiceProtocol::Udp => "udp"@,
    }
}

fn write_kill_signal_name(s: FlyKillSignal) -> (r: String)
    ensures
        r@ == kill_signal_name(s),
{
    match s {
        FlyKillSignal::SigInt => String::from_str("sigInt"),
        FlyKillSignal::SigTerm => String::from_str("sigTerm"),
        FlyKillSignal::SigQuit => String::from_str("sigQuit"),
        FlyKillSignal::SigUsr1 => String::from_str("sigUsr1"),
        FlyKillSignal::SigUsr2 => String::from_str("sigUsr2"),
        FlyKillSignal::SigKill => String::from_str("sigKill"),
        FlyKillSignal::SigStop => String::from_str("sigStop"),
    }
}

fn write_service_protocol(p: FlyServiceProtocol) -> (r: String)
    ensures
        r@ == service_protocol_label(p),
{
    match p {
        FlyServiceProtocol::Tcp => String::from_str("tcp"),
        FlyServiceProtocol::Udp => String::from_str("udp"),
    }
}

/// The document of an environment variable: its key, and the member that
/// says where its value comes from.
pub open spec fn variable_doc(v: EnvironmentVariableView) -> JsonView {
    let m = Map::<Seq<char>, JsonView>::empty().insert("key"@, JsonView::String(v.key));
    JsonView::Object(
        match v.value {
            EnvironmentVariableValueView::Value(s) => m.insert("value"@, JsonView::String(s)),
            EnvironmentVariableValueView::FromGcpKms { value } => m.insert(
                "from_gcp_kms"@,
                JsonView::Object(
                    Map::<Seq<char>, JsonView>::empty().insert("value"@, JsonView::String(value)),
                ),
            ),
            EnvironmentVariableValueView::FromGcpSsm { name, version } => m.insert(
                "from_gcp_ssm"@,
                JsonView::Object(
                    Map::<Seq<char>, JsonView>::empty().insert(
                        "name"@,
                        JsonView::String(name),
                    ).insert("version"@, unsigned_doc(version as u64)),
                ),
            ),
        },
    )
}

/// What writes one variable of a list.
pub open spec fn variable_writer() -> spec_fn(EnvironmentVariableView) -> JsonView {
    |v: EnvironmentVariableView| variable_doc(v)
}

/// The document of an environment table: a list of variables for each
/// scope.
pub open spec fn table_doc(t: Map<Seq<char>, Seq<EnvironmentVariableView>>) -> JsonView {
    JsonView::Object(
        Map::new(
            |k: Seq<char>| t.contains_key(k),
            |k: Seq<char>| list_doc(t[k], variable_writer()),
        ),
    )
}

fn write_variable(v: &EnvironmentVariable) -> (r: Json)
    ensures
        r@ == variable_doc(v@),
{
    let mut members: Vec<(String, Json)> = Vec::new();
    assert(member_views(members@) =~= Seq::empty());
    set_member(&mut members, String::from_str("key"), Json::String(v.key.clone()));
    match &v.value {
        EnvironmentVariableValue::Value(s) => {
            set_member(&mut members, String::from_str("value"), Json::String(s.clone()));
        },
        EnvironmentVariableValue::FromGcpKms { value } => {
            let mut inner: Vec<(String, Json)> = Vec::new();
            assert(member_views(inner@) =~= Seq::empty());
            set_member(&mut inner, String::from_str("value"), Json::String(value.clone()));
            set_member(&mut members, String::from_str("from_gcp_kms"), Json::Object(inner));
        },
        EnvironmentVariableValue::FromGcpSsm { name, version } => {
            let mut inner: Vec<(String, Json)> = Vec::new();
            assert(member_views(inner@) =~= Seq::empty());
            set_member(&mut inner, String::from_str("name"), Json::String(name.clone()));
            set_member(
                &mut inner,
                String::from_str("version"),
                Json::Number(number_from_u64(*version as u64)),
            );
            set_member(&mut members, String::from_str("from_gcp_ssm"), Json::Object(inner));
        },
    }
    Json::Object(members)
}

fn write_variables(items: &Vec<EnvironmentVariable>) -> (r: Json)
    ensures
        r@ == list_doc(views(items@), variable_writer()),
{
    let mut out: Vec<Json> = Vec::new();
    let mut i: usize = 0;
    while i < items.len()
        invariant
            i <= items.len(),
            out.len() == i,
            forall|j: int| 0 <= j < i ==> (#[trigger] out[j])@ == variable_doc(items[j]@),
        decreases items.len() - i,
    {
        let item = write_variable(&items[i]);
        out.push(item);
        i += 1;
    }
    assert(item_views(out@) =~= Seq::new(
        views(items@).len(),
        |j: int| variable_writer()(views(items@)[j]),
    ));
    Json::Array(out)
}

fn write_table(table: &EnvironmentTable) -> (r: Json)
    ensures
        r@ == table_doc(table@),
{
    let mut members: Vec<(String, Json)> = Vec::new();
    let mut i: usize = 0;
    let ghost sv = scope_views(table.scopes@);
    assert(member_views(members@) =~= Seq::empty());
    assert(sv.take(0) =~= Seq::empty());
    assert(member_map(members@) =~= table_doc(to_map(sv.take(0)))->Object_0);
    while i < table.scopes.len()
        invariant
            sv == scope_views(table.scopes@),
            i <= table.scopes.len(),
            JsonView::Object(member_map(members@)) == table_doc(to_map(sv.take(i as int))),
        decreases table.scopes.len() - i,
    {
        let ghost before = member_map(members@);
        let ghost seen = to_map(sv.take(i as int));
        let key = table.scopes[i].0.clone();
        let value = write_variables(&table.scopes[i].1);
        proof {
            assert(sv.take(i + 1) =~= sv.take(i as int).push(sv[i as int]));
            lemma_to_map_push(sv.take(i as int), sv[i as int].0, sv[i as int].1);
            assert(before.insert(key@, value@) =~= table_doc(
                seen.insert(sv[i as int].0, sv[i as int].1),
            )->Object_0);
        }
        set_member(&mut members, key, value);
        i += 1;
    }
    assert(sv.take(table.scopes.len() as int) =~= sv);
    Json::Object(members)
}

/// The document of a key reference.
pub open spec fn gcp_kms_doc(v: FlyGcpKmsView) -> JsonView {
    let m = Map::<Seq<char>, JsonView>::empty();
    let m = m.insert("project"@, JsonView::String(v.project));
    let m = m.insert("key_ring"@, JsonView::String(v.key_ring));
    let m = m.insert("key"@, JsonView::String(v.key));
    let m = m.insert("location"@, JsonView::String(v.location));
    JsonView::Object(m)
}

fn write_gcp_kms(v: &FlyGcpKms) -> (r: Json)
    ensures
        r@ == gcp_kms_doc(v@),
{
    let mut members: Vec<(String, Json)> = Vec::new();
    assert(member_views(members@) =~= Seq::empty());
    let value = Json::String(v.project.clone());
    set_member(&mut members, String::from_str("project"), value);
    let value = Json::String(v.key_ring.clone());
    set_member(&mut members, String::from_str("key_ring"), value);
    let value = Json::String(v.key.clone());
    set_member(&mut members, String::from_str("key"), value);
    let value = Json::String(v.location.clone());
    set_member(&mut members, String::from_str("location"), value);
    Json::Object(members)
}

/// The document of a secret store reference.
pub open spec fn gcp_ssm_doc(v: FlyGcpSsmView) -> JsonView {
    let m = Map::<Seq<char>, JsonView>::empty();
    let m = m.insert("project"@, JsonView::String(v.project));
    JsonView::Object(m)
}

fn write_gcp_ssm(v: &FlyGcpSsm) -> (r: Json)
    ensures
        r@ == gcp_ssm_doc(v@),
{
    let mut members: Vec<(String, Json)> = Vec::new();
    assert(member_views(members@) =~= Seq::empty());
    let value = Json::String(v.project.clone());
    set_member(&mut members, String::from_str("project"), value);
    Json::Object(members)
}

/// The document of a Postgres cluster.
pub open spec fn postgres_doc(v: FlyDatabasePostgres) -> JsonView {
    let m = Map::<Seq<char>, JsonView>::empty();
    let m = m.insert("cluster_size"@, unsigned_doc(v.cluster_size));
    let m = m.insert("vm_size"@, JsonView::String(v.vm_size.name()));
    let m = m.insert("volume_size"@, unsigned_doc(v.volume_size));
    JsonView::Object(m)
}

fn write_postgres(v: &FlyDatabasePostgres) -> (r: Json)
    ensures
        r@ == postgres_doc(*v),
{
    let mut members: Vec<(String, Json)> = Vec::new();
    assert(member_views(members@) =~= Seq::empty());
    let value = Json::Number(number_from_u64(v.cluster_size));
    set_member(&mut members, String::from_str("cluster_size"), value);
    let value = Json::String(v.vm_size.to_string());
    set_member(&mut members, String::from_str("vm_size"), value);
    let value = Json::Number(number_from_u64(v.volume_size));
    set_member(&mut members, String::from_str("volume_size"), value);
    Json::Object(members)
}

/// The document of a database part.
pub open spec fn database_doc(v: FlyDatabase) -> JsonView {
    let m = Map::<Seq<char>, JsonView>::empty();
    let m = match v.postgres {
        Some(x) => m.insert("postgres"@, postgres_doc(x)),
        None => m,
    };
    JsonView::Object(m)
}

fn write_database(v: &FlyDatabase) -> (r: Json)
    ensures
        r@ == database_doc(*v),
{
    let mut members: Vec<(String, Json)> = Vec::new();
    assert(member_views(members@) =~= Seq::empty());
    match &v.postgres {
        Some(x) => {
            let value = write_postgres(x);
            set_member(&mut members, String::from_str("postgres"), value);
        },
        None => {},
    }
    Json::Object(members)
}

/// The document of a scaling policy.
pub open spec fn scaling_doc(v: FlyScaling) -> JsonView {
    let m = Map::<Seq<char>, JsonView>::empty();
    let m = m.insert("memory"@, unsigned_doc(v.memory));
    let m = m.insert("vm_size"@, JsonView::String(v.vm_size.name()));
    let m = m.insert("min_count"@, unsigned_doc(v.min_count));
    let m = m.insert("max_count"@, unsigned_doc(v.max_count));
    let m = m.insert("balance_method"@, JsonView::String(v.balance_method.name()));
    JsonView::Object(m)
}

fn write_scaling(v: &FlyScaling) -> (r: Json)
    ensures
        r@ == scaling_doc(*v),
{
    let mut members: Vec<(String, Json)> = Vec::new();
    assert(member_views(members@) =~= Seq::empty());
    let value = Json::Number(number_from_u64(v.memory));
    set_member(&mut members, String::from_str("memory"), value);
    let value = Json::String(v.vm_size.to_string());
    set_member(&mut members, String::from_str("vm_size"), value);
    let value = Json::Number(number_from_u64(v.min_count));
    set_member(&mut members, String::from_str("min_count"), value);
    let value = Json::Number(number_from_u64(v.max_count));
    set_member(&mut members, String::from_str("max_count"), value);
    let value = Json::String(v.balance_method.to_string());
    set_member(&mut members, String::from_str("balance_method"), value);
    Json::Object(members)
}

/// The document of a service in a deploy configuration: its transport is written too.
pub open spec fn authored_service_doc(v: FlyServiceView) -> JsonView {
    let m = Map::<Seq<char>, JsonView>::empty();
    let m = m.insert("internal_port"@, unsigned_doc(v.internal_port));
    let m = m.insert("processes"@, texts_doc(v.processes));
    let m = m.insert("concurrency"@, concurrency_doc(v.concurrency));
    let m = m.insert("ports"@, list_doc(v.ports, port_writer()));
    let m = match v.tcp_checks {
        Some(x) => m.insert("tcp_checks"@, list_doc(x, tcp_check_writer())),
        None => m,
    };
    let m = match v.http_checks {
        Some(x) => m.insert("http_checks"@, list_doc(x, http_check_writer())),
        None => m,
    };
    let m = match v.protocol {
        Some(x) => m.insert("protocol"@, JsonView::String(service_protocol_label(x))),
        None => m,
    };
    JsonView::Object(m)
}

fn write_authored_service(v: &FlyService) -> (r: Json)
    ensures
        r@ == authored_service_doc(v@),
{
    let mut members: Vec<(String, Json)> = Vec::new();
    assert(member_views(members@) =~= Seq::empty());
    let value = Json::Number(number_from_u64(v.internal_port));
    set_member(&mut members, String::from_str("internal_port"), value);
    let value = write_texts(&v.processes);
    set_member(&mut members, String::from_str("processes"), value);
    let value = write_concurrency(&v.concurrency);
    set_member(&mut members, String::from_str("concurrency"), value);
    let value = write_ports(&v.ports);
    set_member(&mut members, String::from_str("ports"), value);
    match &v.tcp_checks {
        Some(x) => {
            let value = write_tcp_checks(x);
            set_member(&mut members, String::from_str("tcp_checks"), value);
        },
        None => {},
    }
    match &v.http_checks {
        Some(x) => {
            let value = write_http_checks(x);
            set_member(&mut members, String::from_str("http_checks"), value);
        },
        None => {},
    }
    match &v.protocol {
        Some(x) => {
            let value = Json::String(write_service_protocol(*x));
            set_member(&mut members, String::from_str("protocol"), value);
        },
        None => {},
    }
    Json::Object(members)
}

/// What writes one item of a list of this kind.
pub open spec fn authored_service_writer() -> spec_fn(FlyServiceView) -> JsonView {
    |v: FlyServiceView| authored_service_doc(v)
}

fn write_authored_services(items: &Vec<FlyService>) -> (r: Json)
    ensures
        r@ == list_doc(views(items@), authored_service_writer()),
{
    let mut out: Vec<Json> = Vec::new();
    let mut i: usize = 0;
    while i < items.len()
        invariant
            i <= items.len(),
            out.len() == i,
            forall|j: int| 0 <= j < i ==> (#[trigger] out[j])@ == authored_service_doc(items[j]@),
        decreases items.len() - i,
    {
        let item = write_authored_service(&items[i]);
        out.push(item);
        i += 1;
    }
    assert(item_views(out@) =~= Seq::new(
        views(items@).len(),
        |j: int| authored_service_writer()(views(items@)[j]),
    ));
    Json::Array(out)
}


/// The document of a deploy configuration: a member for each part that is
/// there, and none for a part that is not.
pub open spec fn authored_doc(v: DeployConfigView) -> JsonView {
    let m = Map::<Seq<char>, JsonView>::empty();
    let m = m.insert("name"@, JsonView::String(v.name));
    let m = m.insert("organization"@, JsonView::String(v.organization));
    let m = m.insert("default_region"@, JsonView::String(v.default_region));
    let m = m.insert("regions"@, texts_doc(v.regions));
    let m = m.insert("backup_regions"@, texts_doc(v.backup_regions));
    let m = m.insert("scaling"@, scaling_doc(v.scaling));
    let m = match v.gcp_kms {
        Some(x) => m.insert("gcp_kms"@, gcp_kms_doc(x)),
        None => m,
    };
    let m = match v.gcp_ssm {
        Some(x) => m.insert("gcp_ssm"@, gcp_ssm_doc(x)),
        None => m,
    };
    let m = match v.database {
        Some(x) => m.insert("database"@, database_doc(x)),
        None => m,
    };
    let m = match v.kill_signal {
        Some(x) => m.insert("kill_signal"@, JsonView::String(kill_signal_name(x))),
        None => m,
    };
    let m = match v.kill_timeout {
        Some(x) => m.insert("kill_timeout"@, unsigned_doc(x)),
        None => m,
    };
    let m = match v.build {
        Some(x) => m.insert("build"@, build_doc(x)),
        None => m,
    };
    let m = match v.deploy {
        Some(x) => m.insert("deploy"@, deploy_doc(x)),
        None => m,
    };
    let m = match v.statics {
        Some(x) => m.insert("statics"@, list_doc(x, static_writer())),
        None => m,
    };
    let m = match v.services {
        Some(x) => m.insert("services"@, list_doc(x, authored_service_writer())),
        None => m,
    };
    let m = match v.mounts {
        Some(x) => m.insert("mounts"@, list_doc(x, mount_writer())),
        None => m,
    };
    let m = match v.environment {
        Some(x) => m.insert("environment"@, table_doc(x)),
        None => m,
    };
    JsonView::Object(m)
}

/// Writes a deploy configuration as a document.
pub fn deploy_document(v: &DeployConfig) -> (r: Json)
    ensures
        r@ == authored_doc(v@),
{
    let mut members: Vec<(String, Json)> = Vec::new();
    assert(member_views(members@) =~= Seq::empty());
    let value = Json::String(v.name.clone());
    set_member(&mut members, String::from_str("name"), value);
    let value = Json::String(v.organization.clone());
    set_member(&mut members, String::from_str("organization"), value);
    let value = Json::String(v.default_region.clone());
    set_member(&mut members, String::from_str("default_region"), value);
    let value = write_texts(&v.regions);
    set_member(&mut members, String::from_str("regions"), value);
    let value = write_texts(&v.backup_regions);
    set_member(&mut members, String::from_str("backup_regions"), value);
    let value = write_scaling(&v.scaling);
    set_member(&mut members, String::from_str("scaling"), value);
    match &v.gcp_kms {
        Some(x) => {
            let value = write_gcp_kms(x);
            set_member(&mut members, String::from_str("gcp_kms"), value);
        },
        None => {},
    }
    match &v.gcp_ssm {
        Some(x) => {
            let value = write_gcp_ssm(x);
            set_member(&mut members, String::from_str("gcp_ssm"), value);
        },
        None => {},
    }
    match &v.database {
        Some(x) => {
            let value = write_database(x);
            set_member(&mut members, String::from_str("database"), value);
        },
        None => {},
    }
    match &v.kill_signal {
        Some(x) => {
            let value = Json::String(write_kill_signal_name(*x));
            set_member(&mut members, String::from_str("kill_signal"), value);
        },
        None => {},
    }
    match &v.kill_timeout {
        Some(x) => {
            let value = Json::Number(number_from_u64(*x));
            set_member(&mut members, String::from_str("kill_timeout"), value);
        },
        None => {},
    }
    match &v.build {
        Some(x) => {
            let value = write_build(x);
            set_member(&mut members, String::from_str("build"), value);
        },
        None => {},
    }
    match &v.deploy {
        Some(x) => {
            let value = write_deploy(x);
            set_member(&mut members, String::from_str("deploy"), value);
        },
        None => {},
    }
    match &v.statics {
        Some(x) => {
            let value = write_statics(x);
            set_member(&mut members, String::from_str("statics"), value);
        },
        None => {},
    }
    match &v.services {
        Some(x) => {
            let value = write_authored_services(x);
            set_member(&mut members, String::from_str("services"), value);
        },
        None => {},
    }
    match &v.mounts {
        Some(x) => {
            let value = write_mounts(x);
            set_member(&mut members, String::from_str("mounts"), value);
        },
        None => {},
    }
    match &v.environment {
        Some(x) => {
            let value = write_table(x);
            set_member(&mut members, String::from_str("environment"), value);
        },
        None => {},
    }
    Json::Object(members)
}


/// The variables that a new configuration shows: one of each kind.
pub open spec fn sample_variables() -> Seq<EnvironmentVariableView> {
    seq![
        EnvironmentVariableView {
            key: "PLAINTEXT_VALUE"@,
            value: EnvironmentVariableValueView::Value("plaintext value"@),
        },
        EnvironmentVariableView {
            key: "FROM_GCP_KMS_VALUE"@,
            value: EnvironmentVariableValueView::FromGcpKms { value: "kms string"@ },
        },
        EnvironmentVariableView {
            key: "FROM_GCP_SSM_VALUE"@,
            value: EnvironmentVariableValueView::FromGcpSsm { name: "ssm name"@, version: 1 },
        },
    ]
}

/// The service that a new configuration shows: a web application behind
/// the ports 80 and 443, with a health check.
pub open spec fn sample_service() -> FlyServiceView {
    FlyServiceView {
        internal_port: 3000,
        processes: seq!["app"@],
        concurrency: FlyServiceConcurrencyView {
            hard_limit: Some(25),
            soft_limit: Some(20),
            the_type: "connections"@,
        },
        ports: seq![
            FlyServicePortView {
                port: 80,
                force_https: None,
                handlers: seq![FlyServicePortHandler::Http],
            },
            FlyServicePortView {
                port: 443,
                force_https: Some(true),
                handlers: seq![FlyServicePortHandler::Tls, FlyServicePortHandler::Http],
            },
        ],
        tcp_checks: None,
        http_checks: Some(
            seq![
                FlyServiceHttpCheckView {
                    interval: Some("10000"@),
                    grace_period: Some("5s"@),
                    method: Some("get"@),
                    path: Some("/api/health"@),
                    protocol: Some(FlyServiceHttpCheckProtocol::Http),
                    timeout: Some("2000"@),
                    restart_limit: None,
                    tls_skip_verify: None,
                    headers: None,
                },
            ],
        ),
        protocol: Some(FlyServiceProtocol::Tcp),
    }
}

/// The configuration that a new application starts from.
pub open spec fn sample(
    name: Seq<char>,
    organization: Seq<char>,
    database: bool,
) -> DeployConfigView {
    DeployConfigView {
        name,
        organization,
        default_region: "ord"@,
        regions: Seq::empty(),
        backup_regions: Seq::empty(),
        scaling: FlyScaling::initial(),
        gcp_kms: None,
        gcp_ssm: None,
        database: Some(
            FlyDatabase {
                postgres: if database {
                    Some(
                        FlyDatabasePostgres {
                            cluster_size: 2,
                            vm_size: FlyVmSize::SharedCpu1x,
                            volume_size: 1,
                        },
                    )
                } else {
                    None
                },
            },
        ),
        kill_signal: None,
        kill_timeout: None,
        build: None,
        deploy: None,
        statics: None,
        services: Some(seq![sample_service()]),
        mounts: None,
        environment: Some(
            Map::<Seq<char>, Seq<EnvironmentVariableView>>::empty().insert(
                "all"@,
                sample_variables(),
            ),
        ),
    }
}

fn sample_service_value() -> (r: FlyService)
    ensures
        r@ == sample_service(),
{
    let mut processes: Vec<String> = Vec::new();
    processes.push(String::from_str("app"));
    let mut plain: Vec<FlyServicePortHandler> = Vec::new();
    plain.push(FlyServicePortHandler::Http);
    let mut secure: Vec<FlyServicePortHandler> = Vec::new();
    secure.push(FlyServicePortHandler::Tls);
    secure.push(FlyServicePortHandler::Http);
    let mut ports: Vec<FlyServicePort> = Vec::new();
    ports.push(FlyServicePort { port: 80, force_https: None, handlers: plain });
    ports.push(FlyServicePort { port: 443, force_https: Some(true), handlers: secure });
    let mut checks: Vec<FlyServiceHttpCheck> = Vec::new();
    checks.push(
        FlyServiceHttpCheck {
            interval: Some(String::from_str("10000")),
            grace_period: Some(String::from_str("5s")),
            method: Some(String::from_str("get")),
            path: Some(String::from_str("/api/health")),
            protocol: Some(FlyServiceHttpCheckProtocol::Http),
            timeout: Some(String::from_str("2000")),
            restart_limit: None,
            tls_skip_verify: None,
            headers: None,
        },
    );
    let r = FlyService {
        internal_port: 3000,
        processes,
        concurrency: FlyServiceConcurrency {
            hard_limit: Some(25),
            soft_limit: Some(20),
            the_type: String::from_str("connections"),
        },
        ports,
        tcp_checks: None,
        http_checks: Some(checks),
        protocol: Some(FlyServiceProtocol::Tcp),
    };
    proof {
        assert(r@.processes =~= sample_service().processes);
        assert(r.ports[0]@.handlers =~= sample_service().ports[0].handlers);
        assert(r.ports[1]@.handlers =~= sample_service().ports[1].handlers);
        assert(r@.ports =~= sample_service().ports);
        assert(r@.http_checks->0 =~= sample_service().http_checks->0);
    }
    r
}

/// The configuration that a new application starts from: it is named, has
/// a database part, with a Postgres cluster where `database` says so, one
/// web service, and one environment variable of each kind.
pub fn sample_config(name: &str, organization: &str, database: bool) -> (r: DeployConfig)
    ensures
        r@ == sample(name@, organization@, database),
{
    let mut variables: Vec<EnvironmentVariable> = Vec::new();
    variables.push(
        EnvironmentVariable {
            key: String::from_str("PLAINTEXT_VALUE"),
            value: EnvironmentVariableValue::Value(String::from_str("plaintext value")),
        },
    );
    variables.push(
        EnvironmentVariable {
            key: String::from_str("FROM_GCP_KMS_VALUE"),
            value: EnvironmentVariableValue::FromGcpKms { value: String::from_str("kms string") },
        },
    );
    variables.push(
        EnvironmentVariable {
            key: String::from_str("FROM_GCP_SSM_VALUE"),
            value: EnvironmentVariableValue::FromGcpSsm {
                name: String::from_str("ssm name"),
                version: 1,
            },
        },
    );
    assert(views(variables@) =~= sample_variables());
    let mut scopes: Vec<(String, Vec<EnvironmentVariable>)> = Vec::new();
    scopes.push((String::from_str("all"), variables));
    let table = EnvironmentTable { scopes };
    proof {
        let sv = scope_views(table.scopes@);
        assert(sv =~= Seq::<(Seq<char>, Seq<EnvironmentVariableView>)>::empty().push(
            ("all"@, sample_variables()),
        ));
        lemma_to_map_push(Seq::empty(), "all"@, sample_variables());
    }
    let mut services: Vec<FlyService> = Vec::new();
    services.push(sample_service_value());
    assert(views(services@) =~= seq![sample_service()]);
    let regions: Vec<String> = Vec::new();
    let backup_regions: Vec<String> = Vec::new();
    assert(views(regions@) =~= Seq::empty());
    assert(views(backup_regions@) =~= Seq::empty());
    DeployConfig {
        name: String::from_str(name),
        organization: String::from_str(organization),
        default_region: String::from_str("ord"),
        regions,
        backup_regions,
        scaling: FlyScaling::default(),
        gcp_kms: None,
        gcp_ssm: None,
        database: Some(
            FlyDatabase {
                postgres: if database {
                    Some(
                        FlyDatabasePostgres {
                            cluster_size: 2,
                            vm_size: FlyVmSize::SharedCpu1x,
                            volume_size: 1,
                        },
                    )
                } else {
                    None
                },
            },
        ),
        kill_signal: None,
        kill_timeout: None,
        build: None,
        deploy: None,
        statics: None,
        services: Some(services),
        mounts: None,
        environment: Some(table),
    }
}

/// The text of the configuration that a new application starts from.
pub fn sample_text(name: &str, organization: &str, database: bool) -> (r: Option<String>)
    ensures
        r is Some == json_text_pretty(authored_doc(sample(name@, organization@, database))) is Some,
        r matches Some(t) ==> json_text_pretty(authored_doc(sample(name@, organization@, database)))
            == Some(t@),
{
    let config = sample_config(name, organization, database);
    let doc = deploy_document(&config);
    document_text_pretty(&doc)
}

} // verus!
