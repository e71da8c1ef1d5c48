//! Writing a platform configuration as a document.
//!
//! A part that the configuration does not have gets no member: the
//! document holds no `null`. The transport of a service is never written.

use vstd::prelude::*;
use crate::assoc::{lemma_to_map_finite, lemma_to_map_push, to_map};
use crate::json::{
    item_views, lemma_null_free_insert, member_map, member_views, null_free, null_free_members,
    set_member, Json, JsonView, NumberView,
};
use crate::models::{
    entry_views, FlyBuild, FlyBuildView, FlyConfig, FlyConfigView, FlyDeploy, FlyDeployStrategy,
    FlyDeployView, FlyKillSignal, FlyMount, FlyMountView, FlyService, FlyServiceConcurrency,
    FlyServiceConcurrencyView, FlyServiceHttpCheck, FlyServiceHttpCheckProtocol,
    FlyServiceHttpCheckView, FlyServicePort, FlyServicePortHandler, FlyServicePortView,
    FlyServiceTcpCheck, FlyServiceTcpCheckView, FlyServiceView, FlyStatic, FlyStaticView, StringMap,
};
use crate::views::views;
use crate::codec::number_from_u64;

verus! {

/// The document of an unsigned integer.
pub open spec fn unsigned_doc(n: u64) -> JsonView {
    JsonView::Number(NumberView::Integer(n as int))
}

/// The document of a list of strings.
pub open spec fn texts_doc(s: Seq<Seq<char>>) -> JsonView {
    JsonView::Array(Seq::new(s.len(), |i: int| JsonView::String(s[i])))
}

/// The document of a map of strings.
pub open spec fn text_map_doc(m: Map<Seq<char>, Seq<char>>) -> JsonView {
    JsonView::Object(
        Map::new(|k: Seq<char>| m.contains_key(k), |k: Seq<char>| JsonView::String(m[k])),
    )
}

/// The document of a list: the array of what `each` writes for its items.
pub open spec fn list_doc<T>(s: Seq<T>, each: spec_fn(T) -> JsonView) -> JsonView {
    JsonView::Array(Seq::new(s.len(), |i: int| each(s[i])))
}

/// The name of a kill signal in the platform configuration.
pub open spec fn kill_signal_label(s: FlyKillSignal) -> Seq<char> {
    match s {
        FlyKillSignal::SigInt => "SIGINT"@,
        FlyKillSignal::SigTerm => "SIGTERM"@,
        FlyKillSignal::SigQuit => "SIGQUIT"@,
        FlyKillSignal::SigUsr1 => "SIGUSR1"@,
        FlyKillSignal::SigUsr2 => "SIGUSR2"@,
        FlyKillSignal::SigKill => "SIGKILL"@,
        FlyKillSignal::SigStop => "SIGSTOP"@,
    }
}

/// The name of a deploy strategy in the platform configuration.
pub open spec fn deploy_strategy_label(s: FlyDeployStrategy) -> Seq<char> {
    match s {
        FlyDeployStrategy::Canary => "canary"@,
        FlyDeployStrategy::Rolling => "rolling"@,
        FlyDeployStrategy::Bluegreen => "bluegreen"@,
        FlyDeployStrategy::Immediate => "immediate"@,
    }
}

/// The name of a port handler in the platform configuration.
pub open spec fn port_handler_label(h: FlyServicePortHandler) -> Seq<char> {
    match h {
        FlyServicePortHandler::Http => "http"@,
        FlyServicePortHandler::Tls => "tls"@,
    }
}

/// The name of a health check protocol in the platform configuration.
pub open spec fn check_protocol_label(p: FlyServiceHttpCheckProtocol) -> Seq<char> {
    match p {
        FlyServiceHttpCheckProtocol::Http => "http"@,
        FlyServiceHttpCheckProtocol::Https => "https"@,
    }
}

/// The document of a list of port handlers.
pub open spec fn port_handler_labels_doc(s: Seq<FlyServicePortHandler>) -> JsonView {
    JsonView::Array(Seq::new(s.len(), |i: int| JsonView::String(port_handler_label(s[i]))))
}

fn write_kill_signal(s: FlyKillSignal) -> (r: String)
    ensures
        r@ == kill_signal_label(s),
{
    match s {
        FlyKillSignal::SigInt => String::from_str("SIGINT"),
        FlyKillSignal::SigTerm => String::from_str("SIGTERM"),
        FlyKillSignal::SigQuit => String::from_str("SIGQUIT"),
        FlyKillSignal::SigUsr1 => String::from_str("SIGUSR1"),
        FlyKillSignal::SigUsr2 => String::from_str("SIGUSR2"),
        FlyKillSignal::SigKill => String::from_str("SIGKILL"),
        FlyKillSignal::SigStop => String::from_str("SIGSTOP"),
    }
}

pub(crate) fn write_deploy_strategy(s: FlyDeployStrategy) -> (r: String)
    ensures
        r@ == deploy_strategy_label(s),
{
    match s {
        FlyDeployStrategy::Canary => String::from_str("canary"),
        FlyDeployStrategy::Rolling => String::from_str("rolling"),
        FlyDeployStrategy::Bluegreen => String::from_str("bluegreen"),
        FlyDeployStrategy::Immediate => String::from_str("immediate"),
    }
}

fn write_port_handler(h: FlyServicePortHandler) -> (r: String)
    ensures
        r@ == port_handler_label(h),
{
    match h {
        FlyServicePortHandler::Http => String::from_str("http"),
        FlyServicePortHandler::Tls => String::from_str("tls"),
    }
}

pub(crate) fn write_check_protocol(p: FlyServiceHttpCheckProtocol) -> (r: String)
    ensures
        r@ == check_protocol_label(p),
{
    match p {
        FlyServiceHttpCheckProtocol::Http => String::from_str("http"),
        FlyServiceHttpCheckProtocol::Https => String::from_str("https"),
    }
}

pub(crate) fn write_port_handler_labels(items: &Vec<FlyServicePortHandler>) -> (r: Json)
    ensures
        r@ == port_handler_labels_doc(items@),
{
    let mut out: Vec<Json> = Vec::new();
    let mut i: usize = 0;
    while i < items.len()
        invariant
            i <= items.len(),
            out.len() == i,
            forall|j: int|
                0 <= j < i ==> (#[trigger] out[j])@
                    == JsonView::String(port_handler_label(items[j])),
        decreases items.len() - i,
    {
        out.push(Json::String(write_port_handler(items[i])));
        i += 1;
    }
    assert(item_views(out@) =~= Seq::new(
        items@.len(),
        |j: int| JsonView::String(port_handler_label(items@[j])),
    ));
    Json::Array(out)
}

pub(crate) fn write_texts(items: &Vec<String>) -> (r: Json)
    ensures
        r@ == texts_doc(views(items@)),
{
    let mut out: Vec<Json> = Vec::new();
    let mut i: usize = 0;
    while i < items.len()
        invariant
            i <= items.len(),
            out.len() == i,
            forall|j: int| 0 <= j < i ==> (#[trigger] out[j])@ == JsonView::String(items[j]@),
        decreases items.len() - i,
    {
        out.push(Json::String(items[i].clone()));
        i += 1;
    }
    assert(item_views(out@) =~= Seq::new(
        views(items@).len(),
        |j: int| JsonView::String(views(items@)[j]),
    ));
    Json::Array(out)
}

pub(crate) fn write_text_map(map: &StringMap) -> (r: Json)
    ensures
        r@ == text_map_doc(map@),
{
    let mut members: Vec<(String, Json)> = Vec::new();
    let mut i: usize = 0;
    let ghost ev = entry_views(map.entries@);
    assert(member_views(members@) =~= Seq::empty());
    assert(ev.take(0) =~= Seq::empty());
    assert(member_map(members@) =~= text_map_doc(to_map(ev.take(0)))->Object_0);
    while i < map.entries.len()
        invariant
            ev == entry_views(map.entries@),
            i <= map.entries.len(),
            JsonView::Object(member_map(members@)) == text_map_doc(to_map(ev.take(i as int))),
        decreases map.entries.len() - i,
    {
        let ghost before = member_map(members@);
        let ghost seen = to_map(ev.take(i as int));
        let key = map.entries[i].0.clone();
        let value = Json::String(map.entries[i].1.clone());
        proof {
            assert(ev.take(i + 1) =~= ev.take(i as int).push(ev[i as int]));
            lemma_to_map_push(ev.take(i as int), ev[i as int].0, ev[i as int].1);
            assert(before.insert(key@, value@) =~= text_map_doc(
                seen.insert(ev[i as int].0, ev[i as int].1),
            )->Object_0);
        }
        set_member(&mut members, key, value);
        i += 1;
    }
    assert(ev.take(map.entries.len() as int) =~= ev);
    Json::Object(members)
}

/// The document of a static file mount.
pub open spec fn static_doc(v: FlyStaticView) -> JsonView {
    let m = Map::<Seq<char>, JsonView>::empty();
    let m = m.insert("guest_path"@, JsonView::String(v.guest_path));
    let m = m.insert("url_prefix"@, JsonView::String(v.url_prefix));
    JsonView::Object(m)
}

fn write_static(v: &FlyStatic) -> (r: Json)
    ensures
        r@ == static_doc(v@),
{
    let mut members: Vec<(String, Json)> = Vec::new();
    assert(member_views(members@) =~= Seq::empty());
    let value = Json::String(v.guest_path.clone());
    set_member(&mut members, String::from_str("guest_path"), value);
    let value = Json::String(v.url_prefix.clone());
    set_member(&mut members, String::from_str("url_prefix"), value);
    Json::Object(members)
}

/// What writes one item of a list of this kind.
pub open spec fn static_writer() -> spec_fn(FlyStaticView) -> JsonView {
    |v: FlyStaticView| static_doc(v)
}

pub(crate) fn write_statics(items: &Vec<FlyStatic>) -> (r: Json)
    ensures
        r@ == list_doc(views(items@), static_writer()),
{
    let mut out: Vec<Json> = Vec::new();
    let mut i: usize = 0;
    while i < items.len()
        invariant
            i <= items.len(),
            out.len() == i,
            forall|j: int| 0 <= j < i ==> (#[trigger] out[j])@ == static_doc(items[j]@),
        decreases items.len() - i,
    {
        let item = write_static(&items[i]);
        out.push(item);
        i += 1;
    }
    assert(item_views(out@) =~= Seq::new(
        views(items@).len(),
        |j: int| static_writer()(views(items@)[j]),
    ));
    Json::Array(out)
}


/// The document of a volume mount.
pub open spec fn mount_doc(v: FlyMountView) -> JsonView {
    let m = Map::<Seq<char>, JsonView>::empty();
    let m = m.insert("source"@, JsonView::String(v.source));
    let m = m.insert("destination"@, JsonView::String(v.destination));
    JsonView::Object(m)
}

fn write_mount(v: &FlyMount) -> (r: Json)
    ensures
        r@ == mount_doc(v@),
{
    let mut members: Vec<(String, Json)> = Vec::new();
    assert(member_views(members@) =~= Seq::empty());
    let value = Json::String(v.source.clone());
    set_member(&mut members, String::from_str("source"), value);
    let value = Json::String(v.destination.clone());
    set_member(&mut members, String::from_str("destination"), value);
    Json::Object(members)
}

/// What writes one item of a list of this kind.
pub open spec fn mount_writer() -> spec_fn(FlyMountView) -> JsonView {
    |v: FlyMountView| mount_doc(v)
}

pub(crate) fn write_mounts(items: &Vec<FlyMount>) -> (r: Json)
    ensures
        r@ == list_doc(views(items@), mount_writer()),
{
    let mut out: Vec<Json> = Vec::new();
    let mut i: usize = 0;
    while i < items.len()
        invariant
            i <= items.len(),
            out.len() == i,
            forall|j: int| 0 <= j < i ==> (#[trigger] out[j])@ == mount_doc(items[j]@),
        decreases items.len() - i,
    {
        let item = write_mount(&items[i]);
        out.push(item);
        i += 1;
    }
    assert(item_views(out@) =~= Seq::new(
        views(items@).len(),
        |j: int| mount_writer()(views(items@)[j]),
    ));
    Json::Array(out)
}


/// The document of a build part.
pub open spec fn build_doc(v: FlyBuildView) -> JsonView {
    let m = Map::<Seq<char>, JsonView>::empty();
    let m = match v.builder {
        Some(x) => m.insert("builder"@, JsonView::String(x)),
        None => m,
    };
    let m = match v.image {
        Some(x) => m.insert("image"@, JsonView::String(x)),
        None => m,
    };
    let m = match v.dockerfile {
        Some(x) => m.insert("dockerfile"@, JsonView::String(x)),
        None => m,
    };
    let m = match v.build_target {
        Some(x) => m.insert("build_target"@, JsonView::String(x)),
        None => m,
    };
    let m = match v.buildpacks {
        Some(x) => m.insert("buildpacks"@, texts_doc(x)),
        None => m,
    };
    let m = match v.args {
        Some(x) => m.insert("args"@, text_map_doc(x)),
        None => m,
    };
    JsonView::Object(m)
}

pub(crate) fn write_build(v: &FlyBuild) -> (r: Json)
    ensures
        r@ == build_doc(v@),
{
    let mut members: Vec<(String, Json)> = Vec::new();
    assert(member_views(members@) =~= Seq::empty());
    match &v.builder {
        Some(x) => {
            let value = Json::String(x.clone());
            set_member(&mut members, String::from_str("builder"), value);
        },
        None => {},
    }
    match &v.image {
        Some(x) => {
            let value = Json::String(x.clone());
            set_member(&mut members, String::from_str("image"), value);
        },
        None => {},
    }
    match &v.dockerfile {
        Some(x) => {
            let value = Json::String(x.clone());
            set_member(&mut members, String::from_str("dockerfile"), value);
        },
        None => {},
    }
    match &v.build_target {
        Some(x) => {
            let value = Json::String(x.clone());
            set_member(&mut members, String::from_str("build_target"), value);
        },
        None => {},
    }
    match &v.buildpacks {
        Some(x) => {
            let value = write_texts(x);
            set_member(&mut members, String::from_str("buildpacks"), value);
        },
        None => {},
    }
    match &v.args {
        Some(x) => {
            let value = write_text_map(x);
            set_member(&mut members, String::from_str("args"), value);
        },
        None => {},
    }
    Json::Object(members)
}

/// The document of a deploy part.
pub open spec fn deploy_doc(v: FlyDeployView) -> JsonView {
    let m = Map::<Seq<char>, JsonView>::empty();
    let m = match v.release_command {
        Some(x) => m.insert("release_command"@, JsonView::String(x)),
        None => m,
    };
    let m = match v.strategy {
        Some(x) => m.insert("strategy"@, JsonView::String(deploy_strategy_label(x))),
        None => m,
    };
    JsonView::Object(m)
}

pub(crate) fn write_deploy(v: &FlyDeploy) -> (r: Json)
    ensures
        r@ == deploy_doc(v@),
{
    let mut members: Vec<(String, Json)> = Vec::new();
    assert(member_views(members@) =~= Seq::empty());
    match &v.release_command {
        Some(x) => {
            let value = Json::String(x.clone());
            set_member(&mut members, String::from_str("release_command"), value);
        },
        None => {},
    }
    match &v.strategy {
        Some(x) => {
            let value = Json::String(write_deploy_strategy(*x));
            set_member(&mut members, String::from_str("strategy"), value);
        },
        None => {},
    }
    Json::Object(members)
}

/// The document of concurrency limits.
pub open spec fn concurrency_doc(v: FlyServiceConcurrencyView) -> JsonView {
    let m = Map::<Seq<char>, JsonView>::empty();
    let m = match v.hard_limit {
        Some(x) => m.insert("hard_limit"@, unsigned_doc(x)),
        None => m,
    };
    let m = match v.soft_limit {
        Some(x) => m.insert("soft_limit"@, unsigned_doc(x)),
        None => m,
    };
    let m = m.insert("type"@, JsonView::String(v.the_type));
    JsonView::Object(m)
}

pub(crate) fn write_concurrency(v: &FlyServiceConcurrency) -> (r: Json)
    ensures
        r@ == concurrency_doc(v@),
{
    let mut members: Vec<(String, Json)> = Vec::new();
    assert(member_views(members@) =~= Seq::empty());
    match &v.hard_limit {
        Some(x) => {
            let value = Json::Number(number_from_u64(*x));
            set_member(&mut members, String::from_str("hard_limit"), value);
        },
        None => {},
    }
    match &v.soft_limit {
        Some(x) => {
            let value = Json::Number(number_from_u64(*x));
            set_member(&mut members, String::from_str("soft_limit"), value);
        },
        None => {},
    }
    let value = Json::String(v.the_type.clone());
    set_member(&mut members, String::from_str("type"), value);
    Json::Object(members)
}

/// The document of a port.
pub open spec fn port_doc(v: FlyServicePortView) -> JsonView {
    let m = Map::<Seq<char>, JsonView>::empty();
    let m = m.insert("port"@, unsigned_doc(v.port));
    let m = match v.force_https {
        Some(x) => m.insert("force_https"@, JsonView::Bool(x)),
        None => m,
    };
    let m = m.insert("handlers"@, port_handler_labels_doc(v.handlers));
    JsonView::Object(m)
}

fn write_port(v: &FlyServicePort) -> (r: Json)
    ensures
        r@ == port_doc(v@),
{
    let mut members: Vec<(String, Json)> = Vec::new();
    assert(member_views(members@) =~= Seq::empty());
    let value = Json::Number(number_from_u64(v.port));
    set_member(&mut members, String::from_str("port"), value);
    match &v.force_https {
        Some(x) => {
            let value = Json::Bool(*x);
            set_member(&mut members, String::from_str("force_https"), value);
        },
        None => {},
    }
    let value = write_port_handler_labels(&v.handlers);
    set_member(&mut members, String::from_str("handlers"), value);
    Json::Object(members)
}

/// What writes one item of a list of this kind.
pub open spec fn port_writer() -> spec_fn(FlyServicePortView) -> JsonView {
    |v: FlyServicePortView| port_doc(v)
}

pub(crate) fn write_ports(items: &Vec<FlyServicePort>) -> (r: Json)
    ensures
        r@ == list_doc(views(items@), port_writer()),
{
    let mut out: Vec<Json> = Vec::new();
    let mut i: usize = 0;
    while i < items.len()
        invariant
            i <= items.len(),
            out.len() == i,
            forall|j: int| 0 <= j < i ==> (#[trigger] out[j])@ == port_doc(items[j]@),
        decreases items.len() - i,
    {
        let item = write_port(&items[i]);
        out.push(item);
        i += 1;
    }
    assert(item_views(out@) =~= Seq::new(
        views(items@).len(),
        |j: int| port_writer()(views(items@)[j]),
    ));
    Json::Array(out)
}


/// The document of a TCP health check.
pub open spec fn tcp_check_doc(v: FlyServiceTcpCheckView) -> JsonView {
    let m = Map::<Seq<char>, JsonView>::empty();
    let m = match v.interval {
        Some(x) => m.insert("interval"@, unsigned_doc(x)),
        None => m,
    };
    let m = match v.grace_period {
        Some(x) => m.insert("grace_period"@, JsonView::String(x)),
        None => m,
    };
    let m = match v.timeout {
        Some(x) => m.insert("timeout"@, unsigned_doc(x)),
        None => m,
    };
    let m = match v.restart_limit {
        Some(x) => m.insert("restart_limit"@, unsigned_doc(x)),
        None => m,
    };
    JsonView::Object(m)
}

fn write_tcp_check(v: &FlyServiceTcpCheck) -> (r: Json)
    ensures
        r@ == tcp_check_doc(v@),
{
    let mut members: Vec<(String, Json)> = Vec::new();
    assert(member_views(members@) =~= Seq::empty());
    match &v.interval {
        Some(x) => {
            let value = Json::Number(number_from_u64(*x));
            set_member(&mut members, String::from_str("interval"), value);
        },
        None => {},
    }
    match &v.grace_period {
        Some(x) => {
            let value = Json::String(x.clone());
            set_member(&mut members, String::from_str("grace_period"), value);
        },
        None => {},
    }
    match &v.timeout {
        Some(x) => {
            let value = Json::Number(number_from_u64(*x));
            set_member(&mut members, String::from_str("timeout"), value);
        },
        None => {},
    }
    match &v.restart_limit {
        Some(x) => {
            let value = Json::Number(number_from_u64(*x));
            set_member(&mut members, String::from_str("restart_limit"), value);
        },
        None => {},
    }
    Json::Object(members)
}

/// What writes one item of a list of this kind.
pub open spec fn tcp_check_writer() -> spec_fn(FlyServiceTcpCheckView) -> JsonView {
    |v: FlyServiceTcpCheckView| tcp_check_doc(v)
}

pub(crate) fn write_tcp_checks(items: &Vec<FlyServiceTcpCheck>) -> (r: Json)
    ensures
        r@ == list_doc(views(items@), tcp_check_writer()),
{
    let mut out: Vec<Json> = Vec::new();
    let mut i: usize = 0;
    while i < items.len()
        invariant
            i <= items.len(),
            out.len() == i,
            forall|j: int| 0 <= j < i ==> (#[trigger] out[j])@ == tcp_check_doc(items[j]@),
        decreases items.len() - i,
    {
        let item = write_tcp_check(&items[i]);
        out.push(item);
        i += 1;
    }
    assert(item_views(out@) =~= Seq::new(
        views(items@).len(),
        |j: int| tcp_check_writer()(views(items@)[j]),
    ));
    Json::Array(out)
}


/// The document of an HTTP health check.
pub open spec fn http_check_doc(v: FlyServiceHttpCheckView) -> JsonView {
    let m = Map::<Seq<char>, JsonView>::empty();
    let m = match v.interval {
        Some(x) => m.insert("interval"@, JsonView::String(x)),
        None => m,
    };
    let m = match v.grace_period {
        Some(x) => m.insert("grace_period"@, JsonView::String(x)),
        None => m,
    };
    let m = match v.method {
        Some(x) => m.insert("method"@, JsonView::String(x)),
        None => m,
    };
    let m = match v.path {
        Some(x) => m.insert("path"@, JsonView::String(x)),
        None => m,
    };
    let m = match v.protocol {
        Some(x) => m.insert("protocol"@, JsonView::String(check_protocol_label(x))),
        None => m,
    };
    let m = match v.timeout {
        Some(x) => m.insert("timeout"@, JsonView::String(x)),
        None => m,
    };
    let m = match v.restart_limit {
        Some(x) => m.insert("restart_limit"@, unsigned_doc(x)),
        None => m,
    };
    let m = match v.tls_skip_verify {
        Some(x) => m.insert("tls_skip_verify"@, JsonView::Bool(x)),
        None => m,
    };
    let m = match v.headers {
        Some(x) => m.insert("headers"@, text_map_doc(x)),
        None => m,
    };
    JsonView::Object(m)
}

fn write_http_check(v: &FlyServiceHttpCheck) -> (r: Json)
    ensures
        r@ == http_check_doc(v@),
{
    let mut members: Vec<(String, Json)> = Vec::new();
    assert(member_views(members@) =~= Seq::empty());
    match &v.interval {
        Some(x) => {
            let value = Json::String(x.clone());
            set_member(&mut members, String::from_str("interval"), value);
        },
        None => {},
    }
    match &v.grace_period {
        Some(x) => {
            let value = Json::String(x.clone());
            set_member(&mut members, String::from_str("grace_period"), value);
        },
        None => {},
    }
    match &v.method {
        Some(x) => {
            let value = Json::String(x.clone());
            set_member(&mut members, String::from_str("method"), value);
        },
        None => {},
    }
    match &v.path {
        Some(x) => {
            let value = Json::String(x.clone());
            set_member(&mut members, String::from_str("path"), value);
        },
        None => {},
    }
    match &v.protocol {
        Some(x) => {
            let value = Json::String(write_check_protocol(*x));
            set_member(&mut members, String::from_str("protocol"), value);
        },
        None => {},
    }
    match &v.timeout {
        Some(x) => {
            let value = Json::String(x.clone());
            set_member(&mut members, String::from_str("timeout"), value);
        },
        None => {},
    }
    match &v.restart_limit {
        Some(x) => {
            let value = Json::Number(number_from_u64(*x));
            set_member(&mut members, String::from_str("restart_limit"), value);
        },
        None => {},
    }
    match &v.tls_skip_verify {
        Some(x) => {
            let value = Json::Bool(*x);
            set_member(&mut members, String::from_str("tls_skip_verify"), value);
        },
        None => {},
    }
    match &v.headers {
        Some(x) => {
            let value = write_text_map(x);
            set_member(&mut members, String::from_str("headers"), value);
        },
        None => {},
    }
    Json::Object(members)
}

/// What writes one item of a list of this kind.
pub open spec fn http_check_writer() -> spec_fn(FlyServiceHttpCheckView) -> JsonView {
    |v: FlyServiceHttpCheckView| http_check_doc(v)
}

pub(crate) fn write_http_checks(items: &Vec<FlyServiceHttpCheck>) -> (r: Json)
    ensures
        r@ == list_doc(views(items@), http_check_writer()),
{
    let mut out: Vec<Json> = Vec::new();
    let mut i: usize = 0;
    while i < items.len()
        invariant
            i <= items.len(),
            out.len() == i,
            forall|j: int| 0 <= j < i ==> (#[trigger] out[j])@ == http_check_doc(items[j]@),
        decreases items.len() - i,
    {
        let item = write_http_check(&items[i]);
        out.push(item);
        i += 1;
    }
    assert(item_views(out@) =~= Seq::new(
        views(items@).len(),
        |j: int| http_check_writer()(views(items@)[j]),
    ));
    Json::Array(out)
}


/// The document of a service. Its transport is left out.
pub open spec fn service_doc(v: FlyServiceView) -> JsonView {
    let m = Map::<Seq<char>, JsonView>::empty();
    let m = m.insert("internal_port"@, unsigned_doc(v.internal_port));
    let m = m.insert("processes"@, texts_doc(v.processes));
    let m = m.insert("concurrency"@, concurrency_doc(v.concurrency));
    let m = m.insert("ports"@, list_doc(v.ports, port_writer()));
    let m = match v.tcp_checks {
        Some(x) => m.insert("tcp_checks"@, list_doc(x, tcp_check_writer())),
        None => m,
    };
    let m = match v.http_checks {
        Some(x) => m.insert("http_checks"@, list_doc(x, http_check_writer())),
        None => m,
    };
    JsonView::Object(m)
}

fn write_service(v: &FlyService) -> (r: Json)
    ensures
        r@ == service_doc(v@),
{
    let mut members: Vec<(String, Json)> = Vec::new();
    assert(member_views(members@) =~= Seq::empty());
    let value = Json::Number(number_from_u64(v.internal_port));
    set_member(&mut members, String::from_str("internal_port"), value);
    let value = write_texts(&v.processes);
    set_member(&mut members, String::from_str("processes"), value);
    let value = write_concurrency(&v.concurrency);
    set_member(&mut members, String::from_str("concurrency"), value);
    let value = write_ports(&v.ports);
    set_member(&mut members, String::from_str("ports"), value);
    match &v.tcp_checks {
        Some(x) => {
            let value = write_tcp_checks(x);
            set_member(&mut members, String::from_str("tcp_checks"), value);
        },
        None => {},
    }
    match &v.http_checks {
        Some(x) => {
            let value = write_http_checks(x);
            set_member(&mut members, String::from_str("http_checks"), value);
        },
        None => {},
    }
    Json::Object(members)
}

/// What writes one item of a list of this kind.
pub open spec fn service_writer() -> spec_fn(FlyServiceView) -> JsonView {
    |v: FlyServiceView| service_doc(v)
}

fn write_services(items: &Vec<FlyService>) -> (r: Json)
    ensures
        r@ == list_doc(views(items@), service_writer()),
{
    let mut out: Vec<Json> = Vec::new();
    let mut i: usize = 0;
    while i < items.len()
        invariant
            i <= items.len(),
            out.len() == i,
            forall|j: int| 0 <= j < i ==> (#[trigger] out[j])@ == service_doc(items[j]@),
        decreases items.len() - i,
    {
        let item = write_service(&items[i]);
        out.push(item);
        i += 1;
    }
    assert(item_views(out@) =~= Seq::new(
        views(items@).len(),
        |j: int| service_writer()(views(items@)[j]),
    ));
    Json::Array(out)
}


/// The document of a platform configuration: a member for each part that is
/// there, and none for a part that is not.
pub open spec fn platform_doc(v: FlyConfigView) -> JsonView {
    let m = Map::<Seq<char>, JsonView>::empty();
    let m = m.insert("app"@, JsonView::String(v.app));
    let m = match v.kill_signal {
        Some(x) => m.insert("kill_signal"@, JsonView::String(kill_signal_label(x))),
        None => m,
    };
    let m = match v.kill_timeout {
        Some(x) => m.insert("kill_timeout"@, unsigned_doc(x)),
        None => m,
    };
    let m = match v.build {
        Some(x) => m.insert("build"@, build_doc(x)),
        None => m,
    };
    let m = match v.deploy {
        Some(x) => m.insert("deploy"@, deploy_doc(x)),
        None => m,
    };
    let m = match v.statics {
        Some(x) => m.insert("statics"@, list_doc(x, static_writer())),
        None => m,
    };
    let m = match v.services {
        Some(x) => m.insert("services"@, list_doc(x, service_writer())),
        None => m,
    };
    let m = match v.mounts {
        Some(x) => m.insert("mounts"@, list_doc(x, mount_writer())),
        None => m,
    };
    let m = match v.env {
        Some(x) => m.insert("env"@, text_map_doc(x)),
        None => m,
    };
    JsonView::Object(m)
}

/// Writes a platform configuration as a document.
pub fn platform_document(v: &FlyConfig) -> (r: Json)
    ensures
        r@ == platform_doc(v@),
        null_free(r@),
{
    proof {
        lemma_platform_value_finite(*v);
        lemma_platform_null_free(v@);
    }
    let mut members: Vec<(String, Json)> = Vec::new();
    assert(member_views(members@) =~= Seq::empty());
    let value = Json::String(v.app.clone());
    set_member(&mut members, String::from_str("app"), value);
    match &v.kill_signal {
        Some(x) => {
            let value = Json::String(write_kill_signal(*x));
            set_member(&mut members, String::from_str("kill_signal"), value);
        },
        None => {},
    }
    match &v.kill_timeout {
        Some(x) => {
            let value = Json::Number(number_from_u64(*x));
            set_member(&mut members, String::from_str("kill_timeout"), value);
        },
        None => {},
    }
    match &v.build {
        Some(x) => {
            let value = write_build(x);
            set_member(&mut members, String::from_str("build"), value);
        },
        None => {},
    }
    match &v.deploy {
        Some(x) => {
            let value = write_deploy(x);
            set_member(&mut members, String::from_str("deploy"), value);
        },
        None => {},
    }
    match &v.statics {
        Some(x) => {
            let value = write_statics(x);
            set_member(&mut members, String::from_str("statics"), value);
        },
        None => {},
    }
    match &v.services {
        Some(x) => {
            let value = write_services(x);
            set_member(&mut members, String::from_str("services"), value);
        },
        None => {},
    }
    match &v.mounts {
        Some(x) => {
            let value = write_mounts(x);
            set_member(&mut members, String::from_str("mounts"), value);
        },
        None => {},
    }
    match &v.env {
        Some(x) => {
            let value = write_text_map(x);
            set_member(&mut members, String::from_str("env"), value);
        },
        None => {},
    }
    Json::Object(members)
}


proof fn lemma_texts_null_free(s: Seq<Seq<char>>)
    ensures
        null_free(texts_doc(s)),
{
    let items = texts_doc(s)->Array_0;
    assert forall|i: int| 0 <= i < items.len() implies null_free(#[trigger] items[i]) by {
        assert(items[i] is String);
    }
}

proof fn lemma_labels_null_free(s: Seq<FlyServicePortHandler>)
    ensures
        null_free(port_handler_labels_doc(s)),
{
    let items = port_handler_labels_doc(s)->Array_0;
    assert forall|i: int| 0 <= i < items.len() implies null_free(#[trigger] items[i]) by {
        assert(items[i] is String);
    }
}

proof fn lemma_text_map_null_free(m: Map<Seq<char>, Seq<char>>)
    requires
        m.dom().finite(),
    ensures
        null_free(text_map_doc(m)),
{
    let members = text_map_doc(m)->Object_0;
    assert(members.dom() =~= m.dom());
    assert forall|k: Seq<char>| members.contains_key(k) implies null_free(#[trigger] members[k]) by {
        assert(members[k] is String);
    }
    assert(null_free_members(members));
}

proof fn lemma_static_null_free(v: FlyStaticView)
    ensures
        null_free(static_doc(v)),
{
    let m = Map::<Seq<char>, JsonView>::empty();
    assert(null_free_members(m));
    lemma_null_free_insert(m, "guest_path"@, JsonView::String(v.guest_path));
    let m = m.insert("guest_path"@, JsonView::String(v.guest_path));
    lemma_null_free_insert(m, "url_prefix"@, JsonView::String(v.url_prefix));
    let m = m.insert("url_prefix"@, JsonView::String(v.url_prefix));
    assert(static_doc(v) == JsonView::Object(m));
}

proof fn lemma_statics_null_free(s: Seq<FlyStaticView>)
    ensures
        null_free(list_doc(s, static_writer())),
{
    let items = list_doc(s, static_writer())->Array_0;
    assert forall|i: int| 0 <= i < items.len() implies null_free(#[trigger] items[i]) by {
        lemma_static_null_free(s[i]);
    }
}


proof fn lemma_mount_null_free(v: FlyMountView)
    ensures
        null_free(mount_doc(v)),
{
    let m = Map::<Seq<char>, JsonView>::empty();
    assert(null_free_members(m));
    lemma_null_free_insert(m, "source"@, JsonView::String(v.source));
    let m = m.insert("source"@, JsonView::String(v.source));
    lemma_null_free_insert(m, "destination"@, JsonView::String(v.destination));
    let m = m.insert("destination"@, JsonView::String(v.destination));
    assert(mount_doc(v) == JsonView::Object(m));
}

proof fn lemma_mounts_null_free(s: Seq<FlyMountView>)
    ensures
        null_free(list_doc(s, mount_writer())),
{
    let items = list_doc(s, mount_writer())->Array_0;
    assert forall|i: int| 0 <= i < items.len() implies null_free(#[trigger] items[i]) by {
        lemma_mount_null_free(s[i]);
    }
}


/// The maps of a build part have finitely many entries, as those of every value do.
pub open spec fn build_finite(v: FlyBuildView) -> bool {
    (v.args is Some ==> (v.args->0.dom().finite()))
}

proof fn lemma_build_null_free(v: FlyBuildView)
    requires
        build_finite(v),
    ensures
        null_free(build_doc(v)),
{
    let m = Map::<Seq<char>, JsonView>::empty();
    assert(null_free_members(m));
    let m = match v.builder {
        Some(x) => {
            lemma_null_free_insert(m, "builder"@, JsonView::String(x));
            m.insert("builder"@, JsonView::String(x))
        },
        None => m,
    };
    let m = match v.image {
        Some(x) => {
            lemma_null_free_insert(m, "image"@, JsonView::String(x));
            m.insert("image"@, JsonView::String(x))
        },
        None => m,
    };
    let m = match v.dockerfile {
        Some(x) => {
            lemma_null_free_insert(m, "dockerfile"@, JsonView::String(x));
            m.insert("dockerfile"@, JsonView::String(x))
        },
        None => m,
    };
    let m = match v.build_target {
        Some(x) => {
            lemma_null_free_insert(m, "build_target"@, JsonView::String(x));
            m.insert("build_target"@, JsonView::String(x))
        },
        None => m,
    };
    let m = match v.buildpacks {
        Some(x) => {
            lemma_texts_null_free(x);
            lemma_null_free_insert(m, "buildpacks"@, texts_doc(x));
            m.insert("buildpacks"@, texts_doc(x))
        },
        None => m,
    };
    let m = match v.args {
        Some(x) => {
            lemma_text_map_null_free(x);
            lemma_null_free_insert(m, "args"@, text_map_doc(x));
            m.insert("args"@, text_map_doc(x))
        },
        None => m,
    };
    assert(build_doc(v) == JsonView::Object(m));
}

proof fn lemma_deploy_null_free(v: FlyDeployView)
    ensures
        null_free(deploy_doc(v)),
{
    let m = Map::<Seq<char>, JsonView>::empty();
    assert(null_free_members(m));
    let m = match v.release_command {
        Some(x) => {
            lemma_null_free_insert(m, "release_command"@, JsonView::String(x));
            m.insert("release_command"@, JsonView::String(x))
        },
        None => m,
    };
    let m = match v.strategy {
        Some(x) => {
            lemma_null_free_insert(m, "strategy"@, JsonView::String(deploy_strategy_label(x)));
            m.insert("strategy"@, JsonView::String(deploy_strategy_label(x)))
        },
        None => m,
    };
    assert(deploy_doc(v) == JsonView::Object(m));
}

proof fn lemma_concurrency_null_free(v: FlyServiceConcurrencyView)
    ensures
        null_free(concurrency_doc(v)),
{
    let m = Map::<Seq<char>, JsonView>::empty();
    assert(null_free_members(m));
    let m = match v.hard_limit {
        Some(x) => {
            lemma_null_free_insert(m, "hard_limit"@, unsigned_doc(x));
            m.insert("hard_limit"@, unsigned_doc(x))
        },
        None => m,
    };
    let m = match v.soft_limit {
        Some(x) => {
            lemma_null_free_insert(m, "soft_limit"@, unsigned_doc(x));
            m.insert("soft_limit"@, unsigned_doc(x))
        },
        None => m,
    };
    lemma_null_free_insert(m, "type"@, JsonView::String(v.the_type));
    let m = m.insert("type"@, JsonView::String(v.the_type));
    assert(concurrency_doc(v) == JsonView::Object(m));
}

proof fn lemma_port_null_free(v: FlyServicePortView)
    ensures
        null_free(port_doc(v)),
{
    let m = Map::<Seq<char>, JsonView>::empty();
    assert(null_free_members(m));
    lemma_null_free_insert(m, "port"@, unsigned_doc(v.port));
    let m = m.insert("port"@, unsigned_doc(v.port));
    let m = match v.force_https {
        Some(x) => {
            lemma_null_free_insert(m, "force_https"@, JsonView::Bool(x));
            m.insert("force_https"@, JsonView::Bool(x))
        },
        None => m,
    };
    lemma_labels_null_free(v.handlers);
    lemma_null_free_insert(m, "handlers"@, port_handler_labels_doc(v.handlers));
    let m = m.insert("handlers"@, port_handler_labels_doc(v.handlers));
    assert(port_doc(v) == JsonView::Object(m));
}

proof fn lemma_ports_null_free(s: Seq<FlyServicePortView>)
    ensures
        null_free(list_doc(s, port_writer())),
{
    let items = list_doc(s, port_writer())->Array_0;
    assert forall|i: int| 0 <= i < items.len() implies null_free(#[trigger] items[i]) by {
        lemma_port_null_free(s[i]);
    }
}


proof fn lemma_tcp_check_null_free(v: FlyServiceTcpCheckView)
    ensures
        null_free(tcp_check_doc(v)),
{
    let m = Map::<Seq<char>, JsonView>::empty();
    assert(null_free_members(m));
    let m = match v.interval {
        Some(x) => {
            lemma_null_free_insert(m, "interval"@, unsigned_doc(x));
            m.insert("interval"@, unsigned_doc(x))
        },
        None => m,
    };
    let m = match v.grace_period {
        Some(x) => {
            lemma_null_free_insert(m, "grace_period"@, JsonView::String(x));
            m.insert("grace_period"@, JsonView::String(x))
        },
        None => m,
    };
    let m = match v.timeout {
        Some(x) => {
            lemma_null_free_insert(m, "timeout"@, unsigned_doc(x));
            m.insert("timeout"@, unsigned_doc(x))
        },
        None => m,
    };
    let m = match v.restart_limit {
        Some(x) => {
            lemma_null_free_insert(m, "restart_limit"@, unsigned_doc(x));
            m.insert("restart_limit"@, unsigned_doc(x))
        },
        None => m,
    };
    assert(tcp_check_doc(v) == JsonView::Object(m));
}

proof fn lemma_tcp_checks_null_free(s: Seq<FlyServiceTcpCheckView>)
    ensures
        null_free(list_doc(s, tcp_check_writer())),
{
    let items = list_doc(s, tcp_check_writer())->Array_0;
    assert forall|i: int| 0 <= i < items.len() implies null_free(#[trigger] items[i]) by {
        lemma_tcp_check_null_free(s[i]);
    }
}


/// The maps of an HTTP health check have finitely many entries, as those of every value do.
pub open spec fn http_check_finite(v: FlyServiceHttpCheckView) -> bool {
    (v.headers is Some ==> (v.headers->0.dom().finite()))
}

proof fn lemma_http_check_null_free(v: FlyServiceHttpCheckView)
    requires
        http_check_finite(v),
    ensures
        null_free(http_check_doc(v)),
{
    let m = Map::<Seq<char>, JsonView>::empty();
    assert(null_free_members(m));
    let m = match v.interval {
        Some(x) => {
            lemma_null_free_insert(m, "interval"@, JsonView::String(x));
            m.insert("interval"@, JsonView::String(x))
        },
        None => m,
    };
    let m = match v.grace_period {
        Some(x) => {
            lemma_null_free_insert(m, "grace_period"@, JsonView::String(x));
            m.insert("grace_period"@, JsonView::String(x))
        },
        None => m,
    };
    let m = match v.method {
        Some(x) => {
            lemma_null_free_insert(m, "method"@, JsonView::String(x));
            m.insert("method"@, JsonView::String(x))
        },
        None => m,
    };
    let m = match v.path {
        Some(x) => {
            lemma_null_free_insert(m, "path"@, JsonView::String(x));
            m.insert("path"@, JsonView::String(x))
        },
        None => m,
    };
    let m = match v.protocol {
        Some(x) => {
            lemma_null_free_insert(m, "protocol"@, JsonView::String(check_protocol_label(x)));
            m.insert("protocol"@, JsonView::String(check_protocol_label(x)))
        },
        None => m,
    };
    let m = match v.timeout {
        Some(x) => {
            lemma_null_free_insert(m, "timeout"@, JsonView::String(x));
            m.insert("timeout"@, JsonView::String(x))
        },
        None => m,
    };
    let m = match v.restart_limit {
        Some(x) => {
            lemma_null_free_insert(m, "restart_limit"@, unsigned_doc(x));
            m.insert("restart_limit"@, unsigned_doc(x))
        },
        None => m,
    };
    let m = match v.tls_skip_verify {
        Some(x) => {
            lemma_null_free_insert(m, "tls_skip_verify"@, JsonView::Bool(x));
            m.insert("tls_skip_verify"@, JsonView::Bool(x))
        },
        None => m,
    };
    let m = match v.headers {
        Some(x) => {
            lemma_text_map_null_free(x);
            lemma_null_free_insert(m, "headers"@, text_map_doc(x));
            m.insert("headers"@, text_map_doc(x))
        },
        None => m,
    };
    assert(http_check_doc(v) == JsonView::Object(m));
}

proof fn lemma_http_checks_null_free(s: Seq<FlyServiceHttpCheckView>)
    requires
        forall|i: int| 0 <= i < s.len() ==> http_check_finite(#[trigger] s[i]),
    ensures
        null_free(list_doc(s, http_check_writer())),
{
    let items = list_doc(s, http_check_writer())->Array_0;
    assert forall|i: int| 0 <= i < items.len() implies null_free(#[trigger] items[i]) by {
        lemma_http_check_null_free(s[i]);
    }
}


/// The maps of a service have finitely many entries, as those of every value do.
pub open spec fn service_finite(v: FlyServiceView) -> bool {
    (v.http_checks is Some ==> (forall|i: int| 0 <= i < v.http_checks->0.len() ==> http_check_finite(#[trigger] v.http_checks->0[i])))
}

proof fn lemma_service_null_free(v: FlyServiceView)
    requires
        service_finite(v),
    ensures
        null_free(service_doc(v)),
{
    let m = Map::<Seq<char>, JsonView>::empty();
    assert(null_free_members(m));
    lemma_null_free_insert(m, "internal_port"@, unsigned_doc(v.internal_port));
    let m = m.insert("internal_port"@, unsigned_doc(v.internal_port));
    lemma_texts_null_free(v.processes);
    lemma_null_free_insert(m, "processes"@, texts_doc(v.processes));
    let m = m.insert("processes"@, texts_doc(v.processes));
    lemma_concurrency_null_free(v.concurrency);
    lemma_null_free_insert(m, "concurrency"@, concurrency_doc(v.concurrency));
    let m = m.insert("concurrency"@, concurrency_doc(v.concurrency));
    lemma_ports_null_free(v.ports);
    lemma_null_free_insert(m, "ports"@, list_doc(v.ports, port_writer()));
    let m = m.insert("ports"@, list_doc(v.ports, port_writer()));
    let m = match v.tcp_checks {
        Some(x) => {
            lemma_tcp_checks_null_free(x);
            lemma_null_free_insert(m, "tcp_checks"@, list_doc(x, tcp_check_writer()));
            m.insert("tcp_checks"@, list_doc(x, tcp_check_writer()))
        },
        None => m,
    };
    let m = match v.http_checks {
        Some(x) => {
            lemma_http_checks_null_free(x);
            lemma_null_free_insert(m, "http_checks"@, list_doc(x, http_check_writer()));
            m.insert("http_checks"@, list_doc(x, http_check_writer()))
        },
        None => m,
    };
    assert(service_doc(v) == JsonView::Object(m));
}

proof fn lemma_services_null_free(s: Seq<FlyServiceView>)
    requires
        forall|i: int| 0 <= i < s.len() ==> service_finite(#[trigger] s[i]),
    ensures
        null_free(list_doc(s, service_writer())),
{
    let items = list_doc(s, service_writer())->Array_0;
    assert forall|i: int| 0 <= i < items.len() implies null_free(#[trigger] items[i]) by {
        lemma_service_null_free(s[i]);
    }
}


/// The maps of a platform configuration have finitely many entries, as those of every value do.
pub open spec fn platform_finite(v: FlyConfigView) -> bool {
    (v.build is Some ==> (build_finite(v.build->0)))
    && (v.services is Some ==> (forall|i: int| 0 <= i < v.services->0.len() ==> service_finite(#[trigger] v.services->0[i])))
    && (v.env is Some ==> (v.env->0.dom().finite()))
}

/// The document of a platform configuration holds no `null`, whatever
/// parts the configuration has or lacks.
pub proof fn lemma_platform_null_free(v: FlyConfigView)
    requires
        platform_finite(v),
    ensures
        null_free(platform_doc(v)),
{
    let m = Map::<Seq<char>, JsonView>::empty();
    assert(null_free_members(m));
    lemma_null_free_insert(m, "app"@, JsonView::String(v.app));
    let m = m.insert("app"@, JsonView::String(v.app));
    let m = match v.kill_signal {
        Some(x) => {
            lemma_null_free_insert(m, "kill_signal"@, JsonView::String(kill_signal_label(x)));
            m.insert("kill_signal"@, JsonView::String(kill_signal_label(x)))
        },
        None => m,
    };
    let m = match v.kill_timeout {
        Some(x) => {
            lemma_null_free_insert(m, "kill_timeout"@, unsigned_doc(x));
            m.insert("kill_timeout"@, unsigned_doc(x))
        },
        None => m,
    };
    let m = match v.build {
        Some(x) => {
            lemma_build_null_free(x);
            lemma_null_free_insert(m, "build"@, build_doc(x));
            m.insert("build"@, build_doc(x))
        },
        None => m,
    };
    let m = match v.deploy {
        Some(x) => {
            lemma_deploy_null_free(x);
            lemma_null_free_insert(m, "deploy"@, deploy_doc(x));
            m.insert("deploy"@, deploy_doc(x))
        },
        None => m,
    };
    let m = match v.statics {
        Some(x) => {
            lemma_statics_null_free(x);
            lemma_null_free_insert(m, "statics"@, list_doc(x, static_writer()));
            m.insert("statics"@, list_doc(x, static_writer()))
        },
        None => m,
    };
    let m = match v.services {
        Some(x) => {
            lemma_services_null_free(x);
            lemma_null_free_insert(m, "services"@, list_doc(x, service_writer()));
            m.insert("services"@, list_doc(x, service_writer()))
        },
        None => m,
    };
    let m = match v.mounts {
        Some(x) => {
            lemma_mounts_null_free(x);
            lemma_null_free_insert(m, "mounts"@, list_doc(x, mount_writer()));
            m.insert("mounts"@, list_doc(x, mount_writer()))
        },
        None => m,
    };
    let m = match v.env {
        Some(x) => {
            lemma_text_map_null_free(x);
            lemma_null_free_insert(m, "env"@, text_map_doc(x));
            m.insert("env"@, text_map_doc(x))
        },
        None => m,
    };
    assert(platform_doc(v) == JsonView::Object(m));
}


proof fn lemma_build_value_finite(v: FlyBuild)
    ensures
        build_finite(v@),
{
    if v.args is Some {
        lemma_to_map_finite(entry_views(v.args->0.entries@));
    }
}

proof fn lemma_http_check_value_finite(v: FlyServiceHttpCheck)
    ensures
        http_check_finite(v@),
{
    if v.headers is Some {
        lemma_to_map_finite(entry_views(v.headers->0.entries@));
    }
}

proof fn lemma_service_value_finite(v: FlyService)
    ensures
        service_finite(v@),
{
    if v.http_checks is Some {
        let checks = v.http_checks->0;
        assert forall|i: int| 0 <= i < views(checks@).len() implies http_check_finite(
            #[trigger] views(checks@)[i],
        ) by {
            lemma_http_check_value_finite(checks[i]);
        }
    }
}

/// The maps of the view of a platform configuration have finitely many
/// entries.
pub proof fn lemma_platform_value_finite(v: FlyConfig)
    ensures
        platform_finite(v@),
{
    if v.build is Some {
        lemma_build_value_finite(v.build->0);
    }
    if v.services is Some {
        let services = v.services->0;
        assert forall|i: int| 0 <= i < views(services@).len() implies service_finite(
            #[trigger] views(services@)[i],
        ) by {
            lemma_service_value_finite(services[i]);
        }
    }
    if v.env is Some {
        lemma_to_map_finite(entry_views(v.env->0.entries@));
    }
}

/// The document of a platform configuration has a member for the
/// application and for each part that the configuration has, and none for
/// a part that it lacks.
pub proof fn lemma_platform_members(v: FlyConfigView)
    ensures
        platform_doc(v) is Object,
        platform_doc(v)->Object_0.contains_key("app"@),
        platform_doc(v)->Object_0.contains_key("kill_signal"@) == v.kill_signal is Some,
        platform_doc(v)->Object_0.contains_key("kill_timeout"@) == v.kill_timeout is Some,
        platform_doc(v)->Object_0.contains_key("build"@) == v.build is Some,
        platform_doc(v)->Object_0.contains_key("deploy"@) == v.deploy is Some,
        platform_doc(v)->Object_0.contains_key("statics"@) == v.statics is Some,
        platform_doc(v)->Object_0.contains_key("services"@) == v.services is Some,
        platform_doc(v)->Object_0.contains_key("mounts"@) == v.mounts is Some,
        platform_doc(v)->Object_0.contains_key("env"@) == v.env is Some,
        forall|k: Seq<char>| #[trigger]
            platform_doc(v)->Object_0.contains_key(k) ==> k == "app"@ || k == "kill_signal"@ || k
                == "kill_timeout"@ || k == "build"@ || k == "deploy"@ || k == "statics"@ || k
                == "services"@ || k == "mounts"@ || k == "env"@,
{
    reveal_strlit("app");
    reveal_strlit("kill_signal");
    reveal_strlit("kill_timeout");
    reveal_strlit("build");
    reveal_strlit("deploy");
    reveal_strlit("statics");
    reveal_strlit("services");
    reveal_strlit("mounts");
    reveal_strlit("env");
    assert("app"@.len() == 3 && "env"@.len() == 3 && "app"@[0] != "env"@[0]);
    assert("build"@.len() == 5);
    assert("deploy"@.len() == 6 && "mounts"@.len() == 6 && "deploy"@[0] != "mounts"@[0]);
    assert("statics"@.len() == 7);
    assert("services"@.len() == 8);
    assert("kill_signal"@.len() == 11);
    assert("kill_timeout"@.len() == 12);
}

} // verus!
