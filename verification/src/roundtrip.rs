//! What is written is read back: a deploy configuration comes out of its
//! document as it went in.

use vstd::prelude::*;
use crate::authoring::{
    authored_doc, authored_service_doc, authored_service_writer, database_doc, gcp_kms_doc,
    gcp_ssm_doc, kill_signal_name, postgres_doc, scaling_doc, service_protocol_label, table_doc,
    variable_doc, variable_writer,
};
use crate::decode::{
    array_of, balance_method_of, build_of, check_protocol_of, concurrency_of, config_of,
    database_of, decoded, deploy_of, deploy_strategy_of, gcp_kms_of, gcp_ssm_of, http_check_of,
    http_check_reader, kill_signal_of, list_of, mount_of, mount_reader, port_handler_of,
    port_handler_reader, port_of, port_reader, postgres_of, scaling_of, scopes_of, service_of,
    service_protocol_of, service_reader, static_of, static_reader, tcp_check_of, tcp_check_reader,
    text_list_of, text_map_of, variable_of, variable_reader, vm_size_of, Decoded,
};
use crate::encode::{
    build_doc, check_protocol_label, concurrency_doc, deploy_doc, deploy_strategy_label,
    http_check_doc, http_check_writer, list_doc, mount_doc, mount_writer, port_doc,
    port_handler_label, port_handler_labels_doc, port_writer, static_doc, static_writer,
    tcp_check_doc, tcp_check_writer, text_map_doc, texts_doc, unsigned_doc,
};
use crate::json::JsonView;
use crate::models::{
    DeployConfigView, EnvironmentVariableView, FlyAutoscalingBalanceMethod, FlyBuildView,
    FlyDatabase, FlyDatabasePostgres, FlyDeployStrategy, FlyDeployView, FlyGcpKmsView,
    FlyGcpSsmView, FlyKillSignal, FlyMountView, FlyScaling, FlyServiceConcurrencyView,
    FlyServiceHttpCheckProtocol, FlyServiceHttpCheckView, FlyServicePortHandler, FlyServicePortView,
    FlyServiceProtocol, FlyServiceTcpCheckView, FlyServiceView, FlyStaticView, FlyVmSize,
};

verus! {

/// A list whose items are read back is read back.
proof fn lemma_read_list<T>(
    s: Seq<T>,
    writer: spec_fn(T) -> JsonView,
    reader: spec_fn(JsonView) -> Decoded<T>,
)
    requires
        forall|i: int| 0 <= i < s.len() ==> reader(writer(#[trigger] s[i])) == Ok::<
            T,
            Seq<char>,
        >(s[i]),
    ensures
        list_of(Seq::new(s.len(), |i: int| writer(s[i])), reader) == Ok::<Seq<T>, Seq<char>>(s),
    decreases s.len(),
{
    let docs = Seq::new(s.len(), |i: int| writer(s[i]));
    if s.len() > 0 {
        let front = s.drop_last();
        assert forall|i: int| 0 <= i < front.len() implies reader(writer(#[trigger] front[i]))
            == Ok::<T, Seq<char>>(front[i]) by {
            assert(front[i] == s[i]);
        }
        lemma_read_list(front, writer, reader);
        assert(docs.drop_last() =~= Seq::new(front.len(), |i: int| writer(front[i])));
        assert(docs.last() == writer(s[s.len() - 1]));
        assert(front.push(s.last()) =~= s);
    } else {
        assert(s =~= Seq::empty());
    }
}

proof fn lemma_read_texts(s: Seq<Seq<char>>, at: Seq<char>)
    ensures
        text_list_of(texts_doc(s), at) == Ok::<Seq<Seq<char>>, Seq<char>>(s),
{
    let items = texts_doc(s)->Array_0;
    assert forall|i: int| 0 <= i < items.len() implies #[trigger] items[i] is String by {}
    assert(Seq::new(items.len(), |i: int| items[i]->String_0) =~= s);
}

proof fn lemma_read_text_map(m: Map<Seq<char>, Seq<char>>, at: Seq<char>)
    ensures
        text_map_of(text_map_doc(m), at) == Ok::<Map<Seq<char>, Seq<char>>, Seq<char>>(m),
{
    let members = text_map_doc(m)->Object_0;
    assert forall|k: Seq<char>| members.contains_key(k) implies #[trigger] members[k] is String by {}
    assert(Map::new(
        |k: Seq<char>| members.contains_key(k),
        |k: Seq<char>| members[k]->String_0,
    ) =~= m);
}

proof fn lemma_read_kill_signal(s: FlyKillSignal, at: Seq<char>)
    ensures
        kill_signal_of(JsonView::String(kill_signal_name(s)), at) == Ok::<
            FlyKillSignal,
            Seq<char>,
        >(s),
{
    reveal_strlit("sigInt");
    reveal_strlit("sigTerm");
    reveal_strlit("sigQuit");
    reveal_strlit("sigUsr1");
    reveal_strlit("sigUsr2");
    reveal_strlit("sigKill");
    reveal_strlit("sigStop");
    assert("sigInt"@.len() == 6);
    assert("sigTerm"@.len() == 7);
    assert("sigQuit"@.len() == 7);
    assert("sigUsr1"@.len() == 7);
    assert("sigUsr2"@.len() == 7);
    assert("sigKill"@.len() == 7);
    assert("sigStop"@.len() == 7);
    assert("sigTerm"@[3] != "sigQuit"@[3]);
    assert("sigTerm"@[3] != "sigUsr1"@[3]);
    assert("sigTerm"@[3] != "sigUsr2"@[3]);
    assert("sigTerm"@[3] != "sigKill"@[3]);
    assert("sigTerm"@[3] != "sigStop"@[3]);
    assert("sigQuit"@[3] != "sigUsr1"@[3]);
    assert("sigQuit"@[3] != "sigUsr2"@[3]);
    assert("sigQuit"@[3] != "sigKill"@[3]);
    assert("sigQuit"@[3] != "sigStop"@[3]);
    assert("sigUsr1"@[6] != "sigUsr2"@[6]);
    assert("sigUsr1"@[3] != "sigKill"@[3]);
    assert("sigUsr1"@[3] != "sigStop"@[3]);
    assert("sigUsr2"@[3] != "sigKill"@[3]);
    assert("sigUsr2"@[3] != "sigStop"@[3]);
    assert("sigKill"@[3] != "sigStop"@[3]);
}

proof fn lemma_read_deploy_strategy(s: FlyDeployStrategy, at: Seq<char>)
    ensures
        deploy_strategy_of(JsonView::String(deploy_strategy_label(s)), at) == Ok::<
            FlyDeployStrategy,
            Seq<char>,
        >(s),
{
    reveal_strlit("canary");
    reveal_strlit("rolling");
    reveal_strlit("bluegreen");
    reveal_strlit("immediate");
    assert("canary"@.len() == 6);
    assert("rolling"@.len() == 7);
    assert("bluegreen"@.len() == 9);
    assert("immediate"@.len() == 9);
    assert("bluegreen"@[0] != "immediate"@[0]);
}

proof fn lemma_read_service_protocol(p: FlyServiceProtocol, at: Seq<char>)
    ensures
        service_protocol_of(JsonView::String(service_protocol_label(p)), at) == Ok::<
            FlyServiceProtocol,
            Seq<char>,
        >(p),
{
    reveal_strlit("tcp");
    reveal_strlit("udp");
    assert("tcp"@.len() == 3);
    assert("udp"@.len() == 3);
    assert("tcp"@[0] != "udp"@[0]);
}

proof fn lemma_read_port_handler(h: FlyServicePortHandler, at: Seq<char>)
    ensures
        port_handler_of(JsonView::String(port_handler_label(h)), at) == Ok::<
            FlyServicePortHandler,
            Seq<char>,
        >(h),
{
    reveal_strlit("http");
    reveal_strlit("tls");
    assert("http"@.len() == 4);
    assert("tls"@.len() == 3);
}

proof fn lemma_read_check_protocol(p: FlyServiceHttpCheckProtocol, at: Seq<char>)
    ensures
        check_protocol_of(JsonView::String(check_protocol_label(p)), at) == Ok::<
            FlyServiceHttpCheckProtocol,
            Seq<char>,
        >(p),
{
    reveal_strlit("http");
    reveal_strlit("https");
    assert("http"@.len() == 4);
    assert("https"@.len() == 5);
}

proof fn lemma_read_balance_method(b: FlyAutoscalingBalanceMethod, at: Seq<char>)
    ensures
        balance_method_of(JsonView::String(b.name()), at) == Ok::<
            FlyAutoscalingBalanceMethod,
            Seq<char>,
        >(b),
{
    reveal_strlit("balanced");
    reveal_strlit("standard");
    reveal_strlit("static");
    assert("balanced"@.len() == 8);
    assert("standard"@.len() == 8);
    assert("static"@.len() == 6);
    assert("balanced"@[0] != "standard"@[0]);
}

proof fn lemma_read_vm_size(size: FlyVmSize, at: Seq<char>)
    ensures
        vm_size_of(JsonView::String(size.name()), at) == Ok::<FlyVmSize, Seq<char>>(size),
{
    reveal_strlit("shared-cpu-1x");
    reveal_strlit("dedicated-cpu-1x");
    reveal_strlit("dedicated-cpu-2x");
    reveal_strlit("dedicated-cpu-4x");
    reveal_strlit("dedicated-cpu-8x");
    assert("shared-cpu-1x"@.len() == 13);
    assert("dedicated-cpu-1x"@.len() == 16);
    assert("dedicated-cpu-2x"@.len() == 16);
    assert("dedicated-cpu-4x"@.len() == 16);
    assert("dedicated-cpu-8x"@.len() == 16);
    assert("dedicated-cpu-1x"@[14] != "dedicated-cpu-2x"@[14]);
    assert("dedicated-cpu-1x"@[14] != "dedicated-cpu-4x"@[14]);
    assert("dedicated-cpu-1x"@[14] != "dedicated-cpu-8x"@[14]);
    assert("dedicated-cpu-2x"@[14] != "dedicated-cpu-4x"@[14]);
    assert("dedicated-cpu-2x"@[14] != "dedicated-cpu-8x"@[14]);
    assert("dedicated-cpu-4x"@[14] != "dedicated-cpu-8x"@[14]);
}


proof fn lemma_read_port_handlers(s: Seq<FlyServicePortHandler>, at: Seq<char>)
    ensures
        array_of(port_handler_labels_doc(s), at, port_handler_reader(at)) == Ok::<
            Seq<FlyServicePortHandler>,
            Seq<char>,
        >(s),
{
    let writer = |h: FlyServicePortHandler| JsonView::String(port_handler_label(h));
    assert forall|i: int| 0 <= i < s.len() implies port_handler_reader(at)(writer(#[trigger] s[i]))
        == Ok::<FlyServicePortHandler, Seq<char>>(s[i]) by {
        lemma_read_port_handler(s[i], at);
    }
    lemma_read_list(s, writer, port_handler_reader(at));
    assert(port_handler_labels_doc(s)->Array_0 =~= Seq::new(s.len(), |i: int| writer(s[i])));
}

proof fn lemma_read_static(v: FlyStaticView, at: Seq<char>)
    ensures
        static_of(static_doc(v), at) == Ok::<FlyStaticView, Seq<char>>(v),
{
    reveal_strlit("guest_path");
    reveal_strlit("url_prefix");
    assert("guest_path"@.len() == 10);
    assert("url_prefix"@.len() == 10);
    assert("guest_path"@[0] != "url_prefix"@[0]);
    let m = Map::<Seq<char>, JsonView>::empty();
    let m = m.insert("guest_path"@, JsonView::String(v.guest_path));
    let m = m.insert("url_prefix"@, JsonView::String(v.url_prefix));
    assert(static_doc(v) == JsonView::Object(m));
    assert(m.contains_key("guest_path"@) && m["guest_path"@] == JsonView::String(v.guest_path));
    assert(m.contains_key("url_prefix"@) && m["url_prefix"@] == JsonView::String(v.url_prefix));
}

proof fn lemma_read_statics(s: Seq<FlyStaticView>, at: Seq<char>)
    ensures
        array_of(list_doc(s, static_writer()), at, static_reader(at)) == Ok::<Seq<FlyStaticView>, Seq<char>>(
            s,
        ),
{
    assert forall|i: int| 0 <= i < s.len() implies static_reader(at)(static_writer()(#[trigger] s[i]))
        == Ok::<FlyStaticView, Seq<char>>(s[i]) by {
        lemma_read_static(s[i], at);
    }
    lemma_read_list(s, static_writer(), static_reader(at));
}


proof fn lemma_read_mount(v: FlyMountView, at: Seq<char>)
    ensures
        mount_of(mount_doc(v), at) == Ok::<FlyMountView, Seq<char>>(v),
{
    reveal_strlit("source");
    reveal_strlit("destination");
    assert("source"@.len() == 6);
    assert("destination"@.len() == 11);
    let m = Map::<Seq<char>, JsonView>::empty();
    let m = m.insert("source"@, JsonView::String(v.source));
    let m = m.insert("destination"@, JsonView::String(v.destination));
    assert(mount_doc(v) == JsonView::Object(m));
    assert(m.contains_key("source"@) && m["source"@] == JsonView::String(v.source));
    assert(m.contains_key("destination"@) && m["destination"@] == JsonView::String(v.destination));
}

proof fn lemma_read_mounts(s: Seq<FlyMountView>, at: Seq<char>)
    ensures
        array_of(list_doc(s, mount_writer()), at, mount_reader(at)) == Ok::<Seq<FlyMountView>, Seq<char>>(
            s,
        ),
{
    assert forall|i: int| 0 <= i < s.len() implies mount_reader(at)(mount_writer()(#[trigger] s[i]))
        == Ok::<FlyMountView, Seq<char>>(s[i]) by {
        lemma_read_mount(s[i], at);
    }
    lemma_read_list(s, mount_writer(), mount_reader(at));
}


proof fn lemma_read_gcp_kms(v: FlyGcpKmsView, at: Seq<char>)
    ensures
        gcp_kms_of(gcp_kms_doc(v), at) == Ok::<FlyGcpKmsView, Seq<char>>(v),
{
    reveal_strlit("project");
    reveal_strlit("key_ring");
    reveal_strlit("key");
    reveal_strlit("location");
    assert("project"@.len() == 7);
    assert("key_ring"@.len() == 8);
    assert("key"@.len() == 3);
    assert("location"@.len() == 8);
    assert("key_ring"@[0] != "location"@[0]);
    let m = Map::<Seq<char>, JsonView>::empty();
    let m = m.insert("project"@, JsonView::String(v.project));
    let m = m.insert("key_ring"@, JsonView::String(v.key_ring));
    let m = m.insert("key"@, JsonView::String(v.key));
    let m = m.insert("location"@, JsonView::String(v.location));
    assert(gcp_kms_doc(v) == JsonView::Object(m));
    assert(m.contains_key("project"@) && m["project"@] == JsonView::String(v.project));
    assert(m.contains_key("key_ring"@) && m["key_ring"@] == JsonView::String(v.key_ring));
    assert(m.contains_key("key"@) && m["key"@] == JsonView::String(v.key));
    assert(m.contains_key("location"@) && m["location"@] == JsonView::String(v.location));
}

proof fn lemma_read_gcp_ssm(v: FlyGcpSsmView, at: Seq<char>)
    ensures
        gcp_ssm_of(gcp_ssm_doc(v), at) == Ok::<FlyGcpSsmView, Seq<char>>(v),
{
    reveal_strlit("project");
    assert("project"@.len() == 7);
    let m = Map::<Seq<char>, JsonView>::empty();
    let m = m.insert("project"@, JsonView::String(v.project));
    assert(gcp_ssm_doc(v) == JsonView::Object(m));
    assert(m.contains_key("project"@) && m["project"@] == JsonView::String(v.project));
}

proof fn lemma_read_postgres(v: FlyDatabasePostgres, at: Seq<char>)
    ensures
        postgres_of(postgres_doc(v), at) == Ok::<FlyDatabasePostgres, Seq<char>>(v),
{
    reveal_strlit("cluster_size");
    reveal_strlit("vm_size");
    reveal_strlit("volume_size");
    assert("cluster_size"@.len() == 12);
    assert("vm_size"@.len() == 7);
    assert("volume_size"@.len() == 11);
    let m = Map::<Seq<char>, JsonView>::empty();
    let m = m.insert("cluster_size"@, unsigned_doc(v.cluster_size));
    lemma_read_vm_size(v.vm_size, "vm_size"@);
    let m = m.insert("vm_size"@, JsonView::String(v.vm_size.name()));
    let m = m.insert("volume_size"@, unsigned_doc(v.volume_size));
    assert(postgres_doc(v) == JsonView::Object(m));
    assert(m.contains_key("cluster_size"@) && m["cluster_size"@] == unsigned_doc(v.cluster_size));
    assert(m.contains_key("vm_size"@) && m["vm_size"@] == JsonView::String(v.vm_size.name()));
    assert(m.contains_key("volume_size"@) && m["volume_size"@] == unsigned_doc(v.volume_size));
}

proof fn lemma_read_database(v: FlyDatabase, at: Seq<char>)
    ensures
        database_of(database_doc(v), at) == Ok::<FlyDatabase, Seq<char>>(v),
{
    reveal_strlit("postgres");
    assert("postgres"@.len() == 8);
    let m = Map::<Seq<char>, JsonView>::empty();
    let m = match v.postgres {
        Some(x) => {
            lemma_read_postgres(x, "postgres"@);
            m.insert("postgres"@, postgres_doc(x))
        },
        None => m,
    };
    assert(database_doc(v) == JsonView::Object(m));
    assert(m.contains_key("postgres"@) == v.postgres is Some);
    assert(v.postgres is Some ==> m["postgres"@] == postgres_doc(v.postgres->0));
}

proof fn lemma_read_scaling(v: FlyScaling, at: Seq<char>)
    ensures
        scaling_of(scaling_doc(v), at) == Ok::<FlyScaling, Seq<char>>(v),
{
    reveal_strlit("memory");
    reveal_strlit("vm_size");
    reveal_strlit("min_count");
    reveal_strlit("max_count");
    reveal_strlit("balance_method");
    assert("memory"@.len() == 6);
    assert("vm_size"@.len() == 7);
    assert("min_count"@.len() == 9);
    assert("max_count"@.len() == 9);
    assert("balance_method"@.len() == 14);
    assert("min_count"@[1] != "max_count"@[1]);
    let m = Map::<Seq<char>, JsonView>::empty();
    let m = m.insert("memory"@, unsigned_doc(v.memory));
    lemma_read_vm_size(v.vm_size, "vm_size"@);
    let m = m.insert("vm_size"@, JsonView::String(v.vm_size.name()));
    let m = m.insert("min_count"@, unsigned_doc(v.min_count));
    let m = m.insert("max_count"@, unsigned_doc(v.max_count));
    lemma_read_balance_method(v.balance_method, "balance_method"@);
    let m = m.insert("balance_method"@, JsonView::String(v.balance_method.name()));
    assert(scaling_doc(v) == JsonView::Object(m));
    assert(m.contains_key("memory"@) && m["memory"@] == unsigned_doc(v.memory));
    assert(m.contains_key("vm_size"@) && m["vm_size"@] == JsonView::String(v.vm_size.name()));
    assert(m.contains_key("min_count"@) && m["min_count"@] == unsigned_doc(v.min_count));
    assert(m.contains_key("max_count"@) && m["max_count"@] == unsigned_doc(v.max_count));
    assert(m.contains_key("balance_method"@) && m["balance_method"@]
        == JsonView::String(v.balance_method.name()));
}

proof fn lemma_read_deploy(v: FlyDeployView, at: Seq<char>)
    ensures
        deploy_of(deploy_doc(v), at) == Ok::<FlyDeployView, Seq<char>>(v),
{
    reveal_strlit("release_command");
    reveal_strlit("strategy");
    assert("release_command"@.len() == 15);
    assert("strategy"@.len() == 8);
    let m = Map::<Seq<char>, JsonView>::empty();
    let m = match v.release_command {
        Some(x) => {
            m.insert("release_command"@, JsonView::String(x))
        },
        None => m,
    };
    let m = match v.strategy {
        Some(x) => {
            lemma_read_deploy_strategy(x, "strategy"@);
            m.insert("strategy"@, JsonView::String(deploy_strategy_label(x)))
        },
        None => m,
    };
    assert(deploy_doc(v) == JsonView::Object(m));
    assert(m.contains_key("release_command"@) == v.release_command is Some);
    assert(v.release_command is Some ==> m["release_command"@]
        == JsonView::String(v.release_command->0));
    assert(m.contains_key("strategy"@) == v.strategy is Some);
    assert(v.strategy is Some ==> m["strategy"@]
        == JsonView::String(deploy_strategy_label(v.strategy->0)));
}

proof fn lemma_read_build(v: FlyBuildView, at: Seq<char>)
    ensures
        build_of(build_doc(v), at) == Ok::<FlyBuildView, Seq<char>>(v),
{
    reveal_strlit("builder");
    reveal_strlit("image");
    reveal_strlit("dockerfile");
    reveal_strlit("build_target");
    reveal_strlit("buildpacks");
    reveal_strlit("args");
    assert("builder"@.len() == 7);
    assert("image"@.len() == 5);
    assert("dockerfile"@.len() == 10);
    assert("build_target"@.len() == 12);
    assert("buildpacks"@.len() == 10);
    assert("args"@.len() == 4);
    assert("dockerfile"@[0] != "buildpacks"@[0]);
    let m = Map::<Seq<char>, JsonView>::empty();
    let m = match v.builder {
        Some(x) => {
            m.insert("builder"@, JsonView::String(x))
        },
        None => m,
    };
    let m = match v.image {
        Some(x) => {
            m.insert("image"@, JsonView::String(x))
        },
        None => m,
    };
    let m = match v.dockerfile {
        Some(x) => {
            m.insert("dockerfile"@, JsonView::String(x))
        },
        None => m,
    };
    let m = match v.build_target {
        Some(x) => {
            m.insert("build_target"@, JsonView::String(x))
        },
        None => m,
    };
    let m = match v.buildpacks {
        Some(x) => {
            lemma_read_texts(x, "buildpacks"@);
            m.insert("buildpacks"@, texts_doc(x))
        },
        None => m,
    };
    let m = match v.args {
        Some(x) => {
            lemma_read_text_map(x, "args"@);
            m.insert("args"@, text_map_doc(x))
        },
        None => m,
    };
    assert(build_doc(v) == JsonView::Object(m));
    assert(m.contains_key("builder"@) == v.builder is Some);
    assert(v.builder is Some ==> m["builder"@] == JsonView::String(v.builder->0));
    assert(m.contains_key("image"@) == v.image is Some);
    assert(v.image is Some ==> m["image"@] == JsonView::String(v.image->0));
    assert(m.contains_key("dockerfile"@) == v.dockerfile is Some);
    assert(v.dockerfile is Some ==> m["dockerfile"@] == JsonView::String(v.dockerfile->0));
    assert(m.contains_key("build_target"@) == v.build_target is Some);
    assert(v.build_target is Some ==> m["build_target"@] == JsonView::String(v.build_target->0));
    assert(m.contains_key("buildpacks"@) == v.buildpacks is Some);
    assert(v.buildpacks is Some ==> m["buildpacks"@] == texts_doc(v.buildpacks->0));
    assert(m.contains_key("args"@) == v.args is Some);
    assert(v.args is Some ==> m["args"@] == text_map_doc(v.args->0));
}

proof fn lemma_read_concurrency(v: FlyServiceConcurrencyView, at: Seq<char>)
    ensures
        concurrency_of(concurrency_doc(v), at) == Ok::<FlyServiceConcurrencyView, Seq<char>>(v),
{
    reveal_strlit("hard_limit");
    reveal_strlit("soft_limit");
    reveal_strlit("type");
    assert("hard_limit"@.len() == 10);
    assert("soft_limit"@.len() == 10);
    assert("type"@.len() == 4);
    assert("hard_limit"@[0] != "soft_limit"@[0]);
    let m = Map::<Seq<char>, JsonView>::empty();
    let m = match v.hard_limit {
        Some(x) => {
            m.insert("hard_limit"@, unsigned_doc(x))
        },
        None => m,
    };
    let m = match v.soft_limit {
        Some(x) => {
            m.insert("soft_limit"@, unsigned_doc(x))
        },
        None => m,
    };
    let m = m.insert("type"@, JsonView::String(v.the_type));
    assert(concurrency_doc(v) == JsonView::Object(m));
    assert(m.contains_key("hard_limit"@) == v.hard_limit is Some);
    assert(v.hard_limit is Some ==> m["hard_limit"@] == unsigned_doc(v.hard_limit->0));
    assert(m.contains_key("soft_limit"@) == v.soft_limit is Some);
    assert(v.soft_limit is Some ==> m["soft_limit"@] == unsigned_doc(v.soft_limit->0));
    assert(m.contains_key("type"@) && m["type"@] == JsonView::String(v.the_type));
}

proof fn lemma_read_port(v: FlyServicePortView, at: Seq<char>)
    ensures
        port_of(port_doc(v), at) == Ok::<FlyServicePortView, Seq<char>>(v),
{
    reveal_strlit("port");
    reveal_strlit("force_https");
    reveal_strlit("handlers");
    assert("port"@.len() == 4);
    assert("force_https"@.len() == 11);
    assert("handlers"@.len() == 8);
    let m = Map::<Seq<char>, JsonView>::empty();
    let m = m.insert("port"@, unsigned_doc(v.port));
    let m = match v.force_https {
        Some(x) => {
            m.insert("force_https"@, JsonView::Bool(x))
        },
        None => m,
    };
    lemma_read_port_handlers(v.handlers, "handlers"@);
    let m = m.insert("handlers"@, port_handler_labels_doc(v.handlers));
    assert(port_doc(v) == JsonView::Object(m));
    assert(m.contains_key("port"@) && m["port"@] == unsigned_doc(v.port));
    assert(m.contains_key("force_https"@) == v.force_https is Some);
    assert(v.force_https is Some ==> m["force_https"@] == JsonView::Bool(v.force_https->0));
    assert(m.contains_key("handlers"@) && m["handlers"@] == port_handler_labels_doc(v.handlers));
}

proof fn lemma_read_ports(s: Seq<FlyServicePortView>, at: Seq<char>)
    ensures
        array_of(list_doc(s, port_writer()), at, port_reader(at)) == Ok::<Seq<FlyServicePortView>, Seq<char>>(
            s,
        ),
{
    assert forall|i: int| 0 <= i < s.len() implies port_reader(at)(port_writer()(#[trigger] s[i]))
        == Ok::<FlyServicePortView, Seq<char>>(s[i]) by {
        lemma_read_port(s[i], at);
    }
    lemma_read_list(s, port_writer(), port_reader(at));
}


proof fn lemma_read_tcp_check(v: FlyServiceTcpCheckView, at: Seq<char>)
    ensures
        tcp_check_of(tcp_check_doc(v), at) == Ok::<FlyServiceTcpCheckView, Seq<char>>(v),
{
    reveal_strlit("interval");
    reveal_strlit("grace_period");
    reveal_strlit("timeout");
    reveal_strlit("restart_limit");
    assert("interval"@.len() == 8);
    assert("grace_period"@.len() == 12);
    assert("timeout"@.len() == 7);
    assert("restart_limit"@.len() == 13);
    let m = Map::<Seq<char>, JsonView>::empty();
    let m = match v.interval {
        Some(x) => {
            m.insert("interval"@, unsigned_doc(x))
        },
        None => m,
    };
    let m = match v.grace_period {
        Some(x) => {
            m.insert("grace_period"@, JsonView::String(x))
        },
        None => m,
    };
    let m = match v.timeout {
        Some(x) => {
            m.insert("timeout"@, unsigned_doc(x))
        },
        None => m,
    };
    let m = match v.restart_limit {
        Some(x) => {
            m.insert("restart_limit"@, unsigned_doc(x))
        },
        None => m,
    };
    assert(tcp_check_doc(v) == JsonView::Object(m));
    assert(m.contains_key("interval"@) == v.interval is Some);
    assert(v.interval is Some ==> m["interval"@] == unsigned_doc(v.interval->0));
    assert(m.contains_key("grace_period"@) == v.grace_period is Some);
    assert(v.grace_period is Some ==> m["grace_period"@] == JsonView::String(v.grace_period->0));
    assert(m.contains_key("timeout"@) == v.timeout is Some);
    assert(v.timeout is Some ==> m["timeout"@] == unsigned_doc(v.timeout->0));
    assert(m.contains_key("restart_limit"@) == v.restart_limit is Some);
    assert(v.restart_limit is Some ==> m["restart_limit"@] == unsigned_doc(v.restart_limit->0));
}

proof fn lemma_read_tcp_checks(s: Seq<FlyServiceTcpCheckView>, at: Seq<char>)
    ensures
        array_of(list_doc(s, tcp_check_writer()), at, tcp_check_reader(at)) == Ok::<Seq<FlyServiceTcpCheckView>, Seq<char>>(
            s,
        ),
{
    assert forall|i: int| 0 <= i < s.len() implies tcp_check_reader(at)(tcp_check_writer()(#[trigger] s[i]))
        == Ok::<FlyServiceTcpCheckView, Seq<char>>(s[i]) by {
        lemma_read_tcp_check(s[i], at);
    }
    lemma_read_list(s, tcp_check_writer(), tcp_check_reader(at));
}



proof fn lemma_read_variable(v: EnvironmentVariableView, at: Seq<char>)
    ensures
        variable_of(variable_doc(v), at) == Ok::<EnvironmentVariableView, Seq<char>>(v),
{
    reveal_strlit("key");
    reveal_strlit("value");
    reveal_strlit("from_gcp_kms");
    reveal_strlit("from_gcp_ssm");
    reveal_strlit("name");
    reveal_strlit("version");
    assert("key"@.len() == 3);
    assert("value"@.len() == 5);
    assert("from_gcp_kms"@.len() == 12);
    assert("from_gcp_ssm"@.len() == 12);
    assert("name"@.len() == 4);
    assert("version"@.len() == 7);
    assert("from_gcp_kms"@[9] != "from_gcp_ssm"@[9]);
}

proof fn lemma_read_variables(s: Seq<EnvironmentVariableView>, at: Seq<char>)
    ensures
        array_of(list_doc(s, variable_writer()), at, variable_reader(at)) == Ok::<Seq<EnvironmentVariableView>, Seq<char>>(
            s,
        ),
{
    assert forall|i: int| 0 <= i < s.len() implies variable_reader(at)(variable_writer()(#[trigger] s[i]))
        == Ok::<EnvironmentVariableView, Seq<char>>(s[i]) by {
        lemma_read_variable(s[i], at);
    }
    lemma_read_list(s, variable_writer(), variable_reader(at));
}


proof fn lemma_read_scopes(t: Map<Seq<char>, Seq<EnvironmentVariableView>>, at: Seq<char>)
    ensures
        scopes_of(table_doc(t), at) == Ok::<Map<Seq<char>, Seq<EnvironmentVariableView>>, Seq<char>>(
            t,
        ),
{
    let members = table_doc(t)->Object_0;
    assert forall|k: Seq<char>| members.contains_key(k) implies #[trigger] array_of(
        members[k],
        at,
        variable_reader(at),
    ) == Ok::<Seq<EnvironmentVariableView>, Seq<char>>(t[k]) by {
        lemma_read_variables(t[k], at);
    }
    assert(Map::new(
        |k: Seq<char>| members.contains_key(k),
        |k: Seq<char>| array_of(members[k], at, variable_reader(at))->Ok_0,
    ) =~= t);
}

proof fn lemma_read_http_check(v: FlyServiceHttpCheckView, at: Seq<char>)
    ensures
        http_check_of(http_check_doc(v), at) == Ok::<FlyServiceHttpCheckView, Seq<char>>(v),
{
    reveal_strlit("interval");
    reveal_strlit("grace_period");
    reveal_strlit("method");
    reveal_strlit("path");
    reveal_strlit("protocol");
    reveal_strlit("timeout");
    reveal_strlit("restart_limit");
    reveal_strlit("tls_skip_verify");
    reveal_strlit("headers");
    assert("interval"@.len() == 8);
    assert("grace_period"@.len() == 12);
    assert("method"@.len() == 6);
    assert("path"@.len() == 4);
    assert("protocol"@.len() == 8);
    assert("timeout"@.len() == 7);
    assert("restart_limit"@.len() == 13);
    assert("tls_skip_verify"@.len() == 15);
    assert("headers"@.len() == 7);
    assert("interval"@[0] != "protocol"@[0]);
    assert("timeout"@[0] != "headers"@[0]);
    let m = Map::<Seq<char>, JsonView>::empty();
    let m = match v.interval {
        Some(x) => {
            m.insert("interval"@, JsonView::String(x))
        },
        None => m,
    };
    let m = match v.grace_period {
        Some(x) => {
            m.insert("grace_period"@, JsonView::String(x))
        },
        None => m,
    };
    let m = match v.method {
        Some(x) => {
            m.insert("method"@, JsonView::String(x))
        },
        None => m,
    };
    let m = match v.path {
        Some(x) => {
            m.insert("path"@, JsonView::String(x))
        },
        None => m,
    };
    let m = match v.protocol {
        Some(x) => {
            lemma_read_check_protocol(x, "protocol"@);
            m.insert("protocol"@, JsonView::String(check_protocol_label(x)))
        },
        None => m,
    };
    let m = match v.timeout {
        Some(x) => {
            m.insert("timeout"@, JsonView::String(x))
        },
        None => m,
    };
    let m = match v.restart_limit {
        Some(x) => {
            m.insert("restart_limit"@, unsigned_doc(x))
        },
        None => m,
    };
    let m = match v.tls_skip_verify {
        Some(x) => {
            m.insert("tls_skip_verify"@, JsonView::Bool(x))
        },
        None => m,
    };
    let m = match v.headers {
        Some(x) => {
            lemma_read_text_map(x, "headers"@);
            m.insert("headers"@, text_map_doc(x))
        },
        None => m,
    };
    assert(http_check_doc(v) == JsonView::Object(m));
    assert(m.contains_key("interval"@) == v.interval is Some);
    assert(v.interval is Some ==> m["interval"@] == JsonView::String(v.interval->0));
    assert(m.contains_key("grace_period"@) == v.grace_period is Some);
    assert(v.grace_period is Some ==> m["grace_period"@] == JsonView::String(v.grace_period->0));
    assert(m.contains_key("method"@) == v.method is Some);
    assert(v.method is Some ==> m["method"@] == JsonView::String(v.method->0));
    assert(m.contains_key("path"@) == v.path is Some);
    assert(v.path is Some ==> m["path"@] == JsonView::String(v.path->0));
    assert(m.contains_key("protocol"@) == v.protocol is Some);
    assert(v.protocol is Some ==> m["protocol"@]
        == JsonView::String(check_protocol_label(v.protocol->0)));
    assert(m.contains_key("timeout"@) == v.timeout is Some);
    assert(v.timeout is Some ==> m["timeout"@] == JsonView::String(v.timeout->0));
    assert(m.contains_key("restart_limit"@) == v.restart_limit is Some);
    assert(v.restart_limit is Some ==> m["restart_limit"@] == unsigned_doc(v.restart_limit->0));
    assert(m.contains_key("tls_skip_verify"@) == v.tls_skip_verify is Some);
    assert(v.tls_skip_verify is Some ==> m["tls_skip_verify"@]
        == JsonView::Bool(v.tls_skip_verify->0));
    assert(m.contains_key("headers"@) == v.headers is Some);
    assert(v.headers is Some ==> m["headers"@] == text_map_doc(v.headers->0));
}

proof fn lemma_read_http_checks(s: Seq<FlyServiceHttpCheckView>, at: Seq<char>)
    ensures
        array_of(list_doc(s, http_check_writer()), at, http_check_reader(at)) == Ok::<Seq<FlyServiceHttpCheckView>, Seq<char>>(
            s,
        ),
{
    assert forall|i: int| 0 <= i < s.len() implies http_check_reader(at)(http_check_writer()(#[trigger] s[i]))
        == Ok::<FlyServiceHttpCheckView, Seq<char>>(s[i]) by {
        lemma_read_http_check(s[i], at);
    }
    lemma_read_list(s, http_check_writer(), http_check_reader(at));
}


proof fn lemma_read_service(v: FlyServiceView, at: Seq<char>)
    ensures
        service_of(authored_service_doc(v), at) == Ok::<FlyServiceView, Seq<char>>(v),
{
    reveal_strlit("internal_port");
    reveal_strlit("processes");
    reveal_strlit("concurrency");
    reveal_strlit("ports");
    reveal_strlit("tcp_checks");
    reveal_strlit("http_checks");
    reveal_strlit("protocol");
    assert("internal_port"@.len() == 13);
    assert("processes"@.len() == 9);
    assert("concurrency"@.len() == 11);
    assert("ports"@.len() == 5);
    assert("tcp_checks"@.len() == 10);
    assert("http_checks"@.len() == 11);
    assert("protocol"@.len() == 8);
    assert("concurrency"@[0] != "http_checks"@[0]);
    let m = Map::<Seq<char>, JsonView>::empty();
    let m = m.insert("internal_port"@, unsigned_doc(v.internal_port));
    lemma_read_texts(v.processes, "processes"@);
    let m = m.insert("processes"@, texts_doc(v.processes));
    lemma_read_concurrency(v.concurrency, "concurrency"@);
    let m = m.insert("concurrency"@, concurrency_doc(v.concurrency));
    lemma_read_ports(v.ports, "ports"@);
    let m = m.insert("ports"@, list_doc(v.ports, port_writer()));
    let m = match v.tcp_checks {
        Some(x) => {
            lemma_read_tcp_checks(x, "tcp_checks"@);
            m.insert("tcp_checks"@, list_doc(x, tcp_check_writer()))
        },
        None => m,
    };
    let m = match v.http_checks {
        Some(x) => {
            lemma_read_http_checks(x, "http_checks"@);
            m.insert("http_checks"@, list_doc(x, http_check_writer()))
        },
        None => m,
    };
    let m = match v.protocol {
        Some(x) => {
            lemma_read_service_protocol(x, "protocol"@);
            m.insert("protocol"@, JsonView::String(service_protocol_label(x)))
        },
        None => m,
    };
    assert(authored_service_doc(v) == JsonView::Object(m));
    assert(m.contains_key("internal_port"@) && m["internal_port"@]
        == unsigned_doc(v.internal_port));
    assert(m.contains_key("processes"@) && m["processes"@] == texts_doc(v.processes));
    assert(m.contains_key("concurrency"@) && m["concurrency"@] == concurrency_doc(v.concurrency));
    assert(m.contains_key("ports"@) && m["ports"@] == list_doc(v.ports, port_writer()));
    assert(m.contains_key("tcp_checks"@) == v.tcp_checks is Some);
    assert(v.tcp_checks is Some ==> m["tcp_checks"@]
        == list_doc(v.tcp_checks->0, tcp_check_writer()));
    assert(m.contains_key("http_checks"@) == v.http_checks is Some);
    assert(v.http_checks is Some ==> m["http_checks"@]
        == list_doc(v.http_checks->0, http_check_writer()));
    assert(m.contains_key("protocol"@) == v.protocol is Some);
    assert(v.protocol is Some ==> m["protocol"@]
        == JsonView::String(service_protocol_label(v.protocol->0)));
}

proof fn lemma_read_services(s: Seq<FlyServiceView>, at: Seq<char>)
    ensures
        array_of(list_doc(s, authored_service_writer()), at, service_reader(at)) == Ok::<Seq<FlyServiceView>, Seq<char>>(
            s,
        ),
{
    assert forall|i: int| 0 <= i < s.len() implies service_reader(at)(authored_service_writer()(#[trigger] s[i]))
        == Ok::<FlyServiceView, Seq<char>>(s[i]) by {
        lemma_read_service(s[i], at);
    }
    lemma_read_list(s, authored_service_writer(), service_reader(at));
}


/// What the document of a deploy configuration holds, member by member.
#[verifier::rlimit(100)]
proof fn lemma_config_members(v: DeployConfigView)
    ensures
        authored_doc(v) is Object,
        authored_doc(v)->Object_0.contains_key("name"@),
        authored_doc(v)->Object_0["name"@] == JsonView::String(v.name),
        authored_doc(v)->Object_0.contains_key("organization"@),
        authored_doc(v)->Object_0["organization"@] == JsonView::String(v.organization),
        authored_doc(v)->Object_0.contains_key("default_region"@),
        authored_doc(v)->Object_0["default_region"@] == JsonView::String(v.default_region),
        authored_doc(v)->Object_0.contains_key("regions"@),
        authored_doc(v)->Object_0["regions"@] == texts_doc(v.regions),
        authored_doc(v)->Object_0.contains_key("backup_regions"@),
        authored_doc(v)->Object_0["backup_regions"@] == texts_doc(v.backup_regions),
        authored_doc(v)->Object_0.contains_key("scaling"@),
        authored_doc(v)->Object_0["scaling"@] == scaling_doc(v.scaling),
        authored_doc(v)->Object_0.contains_key("gcp_kms"@) == v.gcp_kms is Some,
        v.gcp_kms is Some ==> authored_doc(v)->Object_0["gcp_kms"@] == gcp_kms_doc(v.gcp_kms->0),
        authored_doc(v)->Object_0.contains_key("gcp_ssm"@) == v.gcp_ssm is Some,
        v.gcp_ssm is Some ==> authored_doc(v)->Object_0["gcp_ssm"@] == gcp_ssm_doc(v.gcp_ssm->0),
        authored_doc(v)->Object_0.contains_key("database"@) == v.database is Some,
        v.database is Some ==> authored_doc(v)->Object_0["database"@]
            == database_doc(v.database->0),
        authored_doc(v)->Object_0.contains_key("kill_signal"@) == v.kill_signal is Some,
        v.kill_signal is Some ==> authored_doc(v)->Object_0["kill_signal"@]
            == JsonView::String(kill_signal_name(v.kill_signal->0)),
        authored_doc(v)->Object_0.contains_key("kill_timeout"@) == v.kill_timeout is Some,
        v.kill_timeout is Some ==> authored_doc(v)->Object_0["kill_timeout"@]
            == unsigned_doc(v.kill_timeout->0),
        authored_doc(v)->Object_0.contains_key("build"@) == v.build is Some,
        v.build is Some ==> authored_doc(v)->Object_0["build"@] == build_doc(v.build->0),
        authored_doc(v)->Object_0.contains_key("deploy"@) == v.deploy is Some,
        v.deploy is Some ==> authored_doc(v)->Object_0["deploy"@] == deploy_doc(v.deploy->0),
        authored_doc(v)->Object_0.contains_key("statics"@) == v.statics is Some,
        v.statics is Some ==> authored_doc(v)->Object_0["statics"@]
            == list_doc(v.statics->0, static_writer()),
        authored_doc(v)->Object_0.contains_key("services"@) == v.services is Some,
        v.services is Some ==> authored_doc(v)->Object_0["services"@]
            == list_doc(v.services->0, authored_service_writer()),
        authored_doc(v)->Object_0.contains_key("mounts"@) == v.mounts is Some,
        v.mounts is Some ==> authored_doc(v)->Object_0["mounts"@]
            == list_doc(v.mounts->0, mount_writer()),
        authored_doc(v)->Object_0.contains_key("environment"@) == v.environment is Some,
        v.environment is Some ==> authored_doc(v)->Object_0["environment"@]
            == table_doc(v.environment->0),
{
    reveal_strlit("name");
    reveal_strlit("organization");
    reveal_strlit("default_region");
    reveal_strlit("regions");
    reveal_strlit("backup_regions");
    reveal_strlit("scaling");
    reveal_strlit("gcp_kms");
    reveal_strlit("gcp_ssm");
    reveal_strlit("database");
    reveal_strlit("kill_signal");
    reveal_strlit("kill_timeout");
    reveal_strlit("build");
    reveal_strlit("deploy");
    reveal_strlit("statics");
    reveal_strlit("services");
    reveal_strlit("mounts");
    reveal_strlit("environment");
    assert("name"@.len() == 4);
    assert("organization"@.len() == 12);
    assert("default_region"@.len() == 14);
    assert("regions"@.len() == 7);
    assert("backup_regions"@.len() == 14);
    assert("scaling"@.len() == 7);
    assert("gcp_kms"@.len() == 7);
    assert("gcp_ssm"@.len() == 7);
    assert("database"@.len() == 8);
    assert("kill_signal"@.len() == 11);
    assert("kill_timeout"@.len() == 12);
    assert("build"@.len() == 5);
    assert("deploy"@.len() == 6);
    assert("statics"@.len() == 7);
    assert("services"@.len() == 8);
    assert("mounts"@.len() == 6);
    assert("environment"@.len() == 11);
    assert("organization"@[0] != "kill_timeout"@[0]);
    assert("default_region"@[0] != "backup_regions"@[0]);
    assert("regions"@[0] != "scaling"@[0]);
    assert("regions"@[0] != "gcp_kms"@[0]);
    assert("regions"@[0] != "gcp_ssm"@[0]);
    assert("regions"@[0] != "statics"@[0]);
    assert("scaling"@[0] != "gcp_kms"@[0]);
    assert("scaling"@[0] != "gcp_ssm"@[0]);
    assert("scaling"@[1] != "statics"@[1]);
    assert("gcp_kms"@[4] != "gcp_ssm"@[4]);
    assert("gcp_kms"@[0] != "statics"@[0]);
    assert("gcp_ssm"@[0] != "statics"@[0]);
    assert("database"@[0] != "services"@[0]);
    assert("kill_signal"@[0] != "environment"@[0]);
    assert("deploy"@[0] != "mounts"@[0]);
}

proof fn lemma_read_config(v: DeployConfigView, at: Seq<char>)
    ensures
        config_of(authored_doc(v), at) == Ok::<DeployConfigView, Seq<char>>(v),
{
    lemma_config_members(v);
    lemma_read_texts(v.regions, "regions"@);
    lemma_read_texts(v.backup_regions, "backup_regions"@);
    lemma_read_scaling(v.scaling, "scaling"@);
    if v.gcp_kms is Some {
        lemma_read_gcp_kms(v.gcp_kms->0, "gcp_kms"@);
    }
    if v.gcp_ssm is Some {
        lemma_read_gcp_ssm(v.gcp_ssm->0, "gcp_ssm"@);
    }
    if v.database is Some {
        lemma_read_database(v.database->0, "database"@);
    }
    if v.kill_signal is Some {
        lemma_read_kill_signal(v.kill_signal->0, "kill_signal"@);
    }
    if v.build is Some {
        lemma_read_build(v.build->0, "build"@);
    }
    if v.deploy is Some {
        lemma_read_deploy(v.deploy->0, "deploy"@);
    }
    if v.statics is Some {
        lemma_read_statics(v.statics->0, "statics"@);
    }
    if v.services is Some {
        lemma_read_services(v.services->0, "services"@);
    }
    if v.mounts is Some {
        lemma_read_mounts(v.mounts->0, "mounts"@);
    }
    if v.environment is Some {
        lemma_read_scopes(v.environment->0, "environment"@);
    }
}


/// A deploy configuration that is written as a document is decoded from
/// the document as it was.
pub proof fn lemma_decode_of_deploy_document(v: DeployConfigView)
    ensures
        decoded(authored_doc(v)) == Ok::<DeployConfigView, Seq<char>>(v),
{
    lemma_read_config(v, Seq::empty());
}

} // verus!
