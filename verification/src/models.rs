//! The deploy configuration that authors write, the platform configuration
//! that the deployment tool reads, and the parts of both.

use vstd::prelude::*;
use crate::assoc::{
    is_last_entry, keys_of, lemma_to_map_absent, lemma_to_map_found, lemma_to_map_push,
    lemma_to_map_update, no_entry, position, to_map,
};
use crate::views::{opt_view, opt_views, views};

verus! {

/// A map from strings to strings, as a list of entries; where two entries
/// have the same key, the later one counts.
#[derive(Debug, PartialEq, Eq)]
pub struct StringMap {
    pub entries: Vec<(String, String)>,
}

/// The entries of a string map, as pairs of character sequences.
pub open spec fn entry_views(entries: Seq<(String, String)>) -> Seq<(Seq<char>, Seq<char>)> {
    Seq::new(entries.len(), |i: int| (entries[i].0@, entries[i].1@))
}

impl View for StringMap {
    type V = Map<Seq<char>, Seq<char>>;

    open spec fn view(&self) -> Map<Seq<char>, Seq<char>> {
        to_map(entry_views(self.entries@))
    }
}

impl StringMap {
    /// The map without entries.
    pub fn new() -> (r: StringMap)
        ensures
            r@ == Map::<Seq<char>, Seq<char>>::empty(),
    {
        let r = StringMap { entries: Vec::new() };
        assert(entry_views(r.entries@) =~= Seq::empty());
        r
    }

    /// The value of `key`, if the map has one.
    pub fn get(&self, key: &str) -> (r: Option<&String>)
        ensures
            r is Some == self@.contains_key(key@),
            r matches Some(v) ==> v@ == self@[key@],
    {
        let found = position(&self.entries, key);
        proof {
            let ev = entry_views(self.entries@);
            assert(keys_of(self.entries@) =~= Seq::new(ev.len(), |i: int| ev[i].0));
            match found {
                Some(i) => {
                    assert(is_last_entry(keys_of(self.entries@), key@, i as int));
                    assert forall|j: int| i < j < ev.len() implies ev[j].0 != key@ by {
                        assert(keys_of(self.entries@)[j] != key@);
                    }
                    assert(keys_of(self.entries@)[i as int] == key@);
                    lemma_to_map_found(ev, key@, i as int);
                },
                None => {
                    assert(no_entry(keys_of(self.entries@), key@));
                    assert forall|j: int| 0 <= j < ev.len() implies ev[j].0 != key@ by {
                        assert(keys_of(self.entries@)[j] != key@);
                    }
                    lemma_to_map_absent(ev, key@);
                },
            }
        }
        match found {
            Some(i) => Some(&self.entries[i].1),
            None => None,
        }
    }

    /// Binds `key` to `value`: in place of the entry that counts for `key`,
    /// or at the end where there is none.
    pub fn insert(&mut self, key: String, value: String)
        ensures
            final(self)@ == old(self)@.insert(key@, value@),
    {
        let found = position(&self.entries, key.as_str());
        let ghost ev = entry_views(self.entries@);
        match found {
            Some(i) => {
                proof {
                    assert(keys_of(self.entries@)[i as int] == key@);
                    assert forall|j: int| i < j < ev.len() implies ev[j].0 != ev[i as int].0 by {
                        assert(keys_of(self.entries@)[j] != key@);
                    }
                    lemma_to_map_update(ev, i as int, value@);
                    assert(entry_views(self.entries@.update(i as int, (key, value))) =~= ev.update(
                        i as int,
                        (ev[i as int].0, value@),
                    ));
                }
                self.entries.set(i, (key, value));
            },
            None => {
                proof {
                    assert(entry_views(self.entries@.push((key, value)))
                        =~= ev.push((key@, value@)));
                    lemma_to_map_push(ev, key@, value@);
                }
                self.entries.push((key, value));
            },
        }
    }
}

/// How instances are balanced over regions.
#[derive(Clone, Copy, Debug, PartialEq, Eq, Structural)]
pub enum FlyAutoscalingBalanceMethod {
    Balanced,
    Standard,
    Static,
}

impl FlyAutoscalingBalanceMethod {
    /// The name of this method in documents and on the command line.
    pub open spec fn name(self) -> Seq<char> {
        match self {
            FlyAutoscalingBalanceMethod::Balanced => "balanced"@,
            FlyAutoscalingBalanceMethod::Standard => "standard"@,
            FlyAutoscalingBalanceMethod::Static => "static"@,
        }
    }

    /// The method of a policy that names none.
    pub fn default() -> (r: FlyAutoscalingBalanceMethod)
        ensures
            r == FlyAutoscalingBalanceMethod::Balanced,
    {
        FlyAutoscalingBalanceMethod::Balanced
    }

    /// Whether the number of instances is fixed.
    pub fn is_static(&self) -> (r: bool)
        ensures
            r == (*self == FlyAutoscalingBalanceMethod::Static),
    {
        match self {
            FlyAutoscalingBalanceMethod::Static => true,
            _ => false,
        }
    }

    /// The name of this method.
    pub fn to_string(&self) -> (r: String)
        ensures
            r@ == self.name(),
    {
        match self {
            FlyAutoscalingBalanceMethod::Balanced => String::from_str("balanced"),
            FlyAutoscalingBalanceMethod::Standard => String::from_str("standard"),
            FlyAutoscalingBalanceMethod::Static => String::from_str("static"),
        }
    }
}

/// A size class of virtual machine.
#[derive(Clone, Copy, Debug, PartialEq, Eq, Structural)]
pub enum FlyVmSize {
    SharedCpu1x,
    DedicatedCpu1x,
    DedicatedCpu2x,
    DedicatedCpu4x,
    DedicatedCpu8x,
}

impl FlyVmSize {
    /// The name of this size in documents and on the command line.
    pub open spec fn name(self) -> Seq<char> {
        match self {
            FlyVmSize::SharedCpu1x => "shared-cpu-1x"@,
            FlyVmSize::DedicatedCpu1x => "dedicated-cpu-1x"@,
            FlyVmSize::DedicatedCpu2x => "dedicated-cpu-2x"@,
            FlyVmSize::DedicatedCpu4x => "dedicated-cpu-4x"@,
            FlyVmSize::DedicatedCpu8x => "dedicated-cpu-8x"@,
        }
    }

    /// The size of a machine that names none: the smallest.
    pub fn default() -> (r: FlyVmSize)
        ensures
            r == FlyVmSize::SharedCpu1x,
    {
        FlyVmSize::SharedCpu1x
    }

    /// The name of this size.
    pub fn to_string(&self) -> (r: String)
        ensures
            r@ == self.name(),
    {
        match self {
            FlyVmSize::SharedCpu1x => String::from_str("shared-cpu-1x"),
            FlyVmSize::DedicatedCpu1x => String::from_str("dedicated-cpu-1x"),
            FlyVmSize::DedicatedCpu2x => String::from_str("dedicated-cpu-2x"),
            FlyVmSize::DedicatedCpu4x => String::from_str("dedicated-cpu-4x"),
            FlyVmSize::DedicatedCpu8x => String::from_str("dedicated-cpu-8x"),
        }
    }
}

/// The least and the default number of instances.
pub fn fly_scaling_count_default() -> (r: u64)
    ensures
        r == 1,
{
    1
}

/// The default memory of an instance, in megabytes.
pub fn fly_scaling_memory_default() -> (r: u64)
    ensures
        r == 256,
{
    256
}

/// The default number of nodes of a Postgres cluster.
pub fn fly_database_postgres_cluster_size_default() -> (r: u64)
    ensures
        r == 1,
{
    1
}

/// The default size of a Postgres volume, in gigabytes.
pub fn fly_database_postgres_volume_size_default() -> (r: u64)
    ensures
        r == 0,
{
    0
}

/// The bounds of autoscaling.
#[derive(Clone, Copy, Debug, PartialEq, Eq, Structural)]
pub struct FlyAutoscaling {
    pub min_count: u64,
    pub max_count: u64,
    pub balance_method: FlyAutoscalingBalanceMethod,
}

/// The scaling policy. With the static method `min_count` is the number of
/// instances and `max_count` is not read; with the others the two bound
/// the number of instances.
#[derive(Clone, Copy, Debug, PartialEq, Eq, Structural)]
pub struct FlyScaling {
    pub memory: u64,
    pub vm_size: FlyVmSize,
    pub min_count: u64,
    pub max_count: u64,
    pub balance_method: FlyAutoscalingBalanceMethod,
}

impl FlyScaling {
    /// The policy of a configuration that names none.
    pub open spec fn initial() -> FlyScaling {
        FlyScaling {
            memory: 256,
            vm_size: FlyVmSize::SharedCpu1x,
            min_count: 1,
            max_count: 1,
            balance_method: FlyAutoscalingBalanceMethod::Balanced,
        }
    }
}

impl Default for FlyScaling {
    fn default() -> (r: FlyScaling)
        ensures
            r == FlyScaling::initial(),
    {
        FlyScaling {
            min_count: fly_scaling_count_default(),
            max_count: fly_scaling_count_default(),
            memory: fly_scaling_memory_default(),
            vm_size: FlyVmSize::default(),
            balance_method: FlyAutoscalingBalanceMethod::default(),
        }
    }
}

/// How the value of an environment variable is come by.
#[derive(Debug, PartialEq, Eq)]
pub enum EnvironmentVariableValue {
    /// The value itself.
    Value(String),
    /// A ciphertext, in base64, that the key management service decrypts.
    FromGcpKms { value: String },
    /// A version of a secret that the secret store holds.
    FromGcpSsm { name: String, version: u16 },
}

/// What a `EnvironmentVariableValue` holds, its strings seen as character sequences.
pub enum EnvironmentVariableValueView {
    Value(Seq<char>),
    FromGcpKms { value: Seq<char> },
    FromGcpSsm { name: Seq<char>, version: u16 },
}

impl View for EnvironmentVariableValue {
    type V = EnvironmentVariableValueView;

    open spec fn view(&self) -> EnvironmentVariableValueView {
        match self {
            EnvironmentVariableValue::Value(v) => EnvironmentVariableValueView::Value(v@),
            EnvironmentVariableValue::FromGcpKms { value } => EnvironmentVariableValueView::FromGcpKms {
                value: value@,
            },
            EnvironmentVariableValue::FromGcpSsm {
                name,
                version,
            } => EnvironmentVariableValueView::FromGcpSsm { name: name@, version: *version },
        }
    }
}

/// An environment variable: a key and where its value comes from.
#[derive(Debug, PartialEq, Eq)]
pub struct EnvironmentVariable {
    pub key: String,
    pub value: EnvironmentVariableValue,
}

/// What a `EnvironmentVariable` holds, its strings seen as character sequences.
pub struct EnvironmentVariableView {
    pub key: Seq<char>,
    pub value: EnvironmentVariableValueView,
}

impl View for EnvironmentVariable {
    type V = EnvironmentVariableView;

    open spec fn view(&self) -> EnvironmentVariableView {
        EnvironmentVariableView { key: self.key@, value: self.value@ }
    }
}

/// The environment table: the variables of each scope. The scope `all`
/// holds for every environment, any other for the environment of its name.
#[derive(Debug, PartialEq, Eq)]
pub struct EnvironmentTable {
    pub scopes: Vec<(String, Vec<EnvironmentVariable>)>,
}

/// The scopes of a table, as pairs of a name and the views of its variables.
pub open spec fn scope_views(scopes: Seq<(String, Vec<EnvironmentVariable>)>) -> Seq<
    (Seq<char>, Seq<EnvironmentVariableView>),
> {
    Seq::new(scopes.len(), |i: int| (scopes[i].0@, views(scopes[i].1@)))
}

impl View for EnvironmentTable {
    type V = Map<Seq<char>, Seq<EnvironmentVariableView>>;

    open spec fn view(&self) -> Map<Seq<char>, Seq<EnvironmentVariableView>> {
        to_map(scope_views(self.scopes@))
    }
}

/// The key of the key management service that decrypts ciphertexts.
#[derive(Debug, PartialEq, Eq)]
pub struct FlyGcpKms {
    pub project: String,
    pub key_ring: String,
    pub key: String,
    pub location: String,
}

/// What a `FlyGcpKms` holds, its strings seen as character sequences.
pub struct FlyGcpKmsView {
    pub project: Seq<char>,
    pub key_ring: Seq<char>,
    pub key: Seq<char>,
    pub location: Seq<char>,
}

impl View for FlyGcpKms {
    type V = FlyGcpKmsView;

    open spec fn view(&self) -> FlyGcpKmsView {
        FlyGcpKmsView {
            project: self.project@,
            key_ring: self.key_ring@,
            key: self.key@,
            location: self.location@,
        }
    }
}

/// The project of the secret store.
#[derive(Debug, PartialEq, Eq)]
pub struct FlyGcpSsm {
    pub project: String,
}

/// What a `FlyGcpSsm` holds, its strings seen as character sequences.
pub struct FlyGcpSsmView {
    pub project: Seq<char>,
}

impl View for FlyGcpSsm {
    type V = FlyGcpSsmView;

    open spec fn view(&self) -> FlyGcpSsmView {
        FlyGcpSsmView { project: self.project@ }
    }
}

/// A Postgres cluster to provision.
#[derive(Clone, Copy, Debug, PartialEq, Eq, Structural)]
pub struct FlyDatabasePostgres {
    pub cluster_size: u64,
    pub vm_size: FlyVmSize,
    pub volume_size: u64,
}

/// The databases to provision; without a Postgres part there is none.
#[derive(Clone, Copy, Debug, PartialEq, Eq, Structural)]
pub struct FlyDatabase {
    pub postgres: Option<FlyDatabasePostgres>,
}

/// The signal that stops an instance.
#[derive(Clone, Copy, Debug, PartialEq, Eq, Structural)]
pub enum FlyKillSignal {
    SigInt,
    SigTerm,
    SigQuit,
    SigUsr1,
    SigUsr2,
    SigKill,
    SigStop,
}

/// How a new release replaces the old one.
#[derive(Clone, Copy, Debug, PartialEq, Eq, Structural)]
pub enum FlyDeployStrategy {
    Canary,
    Rolling,
    Bluegreen,
    Immediate,
}

/// The transport of a service; it is read and never written.
#[derive(Clone, Copy, Debug, PartialEq, Eq, Structural)]
pub enum FlyServiceProtocol {
    Tcp,
    Udp,
}

/// A handler of a port.
#[derive(Clone, Copy, Debug, PartialEq, Eq, Structural)]
pub enum FlyServicePortHandler {
    Http,
    Tls,
}

/// The protocol of an HTTP health check.
#[derive(Clone, Copy, Debug, PartialEq, Eq, Structural)]
pub enum FlyServiceHttpCheckProtocol {
    Http,
    Https,
}

/// How the image is built.
#[derive(Debug, PartialEq, Eq)]
pub struct FlyBuild {
    pub builder: Option<String>,
    pub image: Option<String>,
    pub dockerfile: Option<String>,
    pub build_target: Option<String>,
    pub buildpacks: Option<Vec<String>>,
    pub args: Option<StringMap>,
}

/// What a `FlyBuild` holds, its strings seen as character sequences.
pub struct FlyBuildView {
    pub builder: Option<Seq<char>>,
    pub image: Option<Seq<char>>,
    pub dockerfile: Option<Seq<char>>,
    pub build_target: Option<Seq<char>>,
    pub buildpacks: Option<Seq<Seq<char>>>,
    pub args: Option<Map<Seq<char>, Seq<char>>>,
}

impl View for FlyBuild {
    type V = FlyBuildView;

    open spec fn view(&self) -> FlyBuildView {
        FlyBuildView {
            builder: opt_view(self.builder),
            image: opt_view(self.image),
            dockerfile: opt_view(self.dockerfile),
            build_target: opt_view(self.build_target),
            buildpacks: opt_views(self.buildpacks),
            args: opt_view(self.args),
        }
    }
}

/// How a release is deployed.
#[derive(Debug, PartialEq, Eq)]
pub struct FlyDeploy {
    pub release_command: Option<String>,
    pub strategy: Option<FlyDeployStrategy>,
}

/// What a `FlyDeploy` holds, its strings seen as character sequences.
pub struct FlyDeployView {
    pub release_command: Option<Seq<char>>,
    pub strategy: Option<FlyDeployStrategy>,
}

impl View for FlyDeploy {
    type V = FlyDeployView;

    open spec fn view(&self) -> FlyDeployView {
        FlyDeployView { release_command: opt_view(self.release_command), strategy: self.strategy }
    }
}

/// A directory of the image that is served as static files.
#[derive(Debug, PartialEq, Eq)]
pub struct FlyStatic {
    pub guest_path: String,
    pub url_prefix: String,
}

/// What a `FlyStatic` holds, its strings seen as character sequences.
pub struct FlyStaticView {
    pub guest_path: Seq<char>,
    pub url_prefix: Seq<char>,
}

impl View for FlyStatic {
    type V = FlyStaticView;

    open spec fn view(&self) -> FlyStaticView {
        FlyStaticView { guest_path: self.guest_path@, url_prefix: self.url_prefix@ }
    }
}

/// A volume and where it is mounted.
#[derive(Debug, PartialEq, Eq)]
pub struct FlyMount {
    pub source: String,
    pub destination: String,
}

/// What a `FlyMount` holds, its strings seen as character sequences.
pub struct FlyMountView {
    pub source: Seq<char>,
    pub destination: Seq<char>,
}

impl View for FlyMount {
    type V = FlyMountView;

    open spec fn view(&self) -> FlyMountView {
        FlyMountView { source: self.source@, destination: self.destination@ }
    }
}

/// The concurrency limits of a service, and what they count.
#[derive(Debug, PartialEq, Eq)]
pub struct FlyServiceConcurrency {
    pub hard_limit: Option<u64>,
    pub soft_limit: Option<u64>,
    pub the_type: String,
}

/// What a `FlyServiceConcurrency` holds, its strings seen as character sequences.
pub struct FlyServiceConcurrencyView {
    pub hard_limit: Option<u64>,
    pub soft_limit: Option<u64>,
    pub the_type: Seq<char>,
}

impl View for FlyServiceConcurrency {
    type V = FlyServiceConcurrencyView;

    open spec fn view(&self) -> FlyServiceConcurrencyView {
        FlyServiceConcurrencyView {
            hard_limit: self.hard_limit,
            soft_limit: self.soft_limit,
            the_type: self.the_type@,
        }
    }
}

/// A port of a service and its handlers, in order.
#[derive(Debug, PartialEq, Eq)]
pub struct FlyServicePort {
    pub port: u64,
    pub force_https: Option<bool>,
    pub handlers: Vec<FlyServicePortHandler>,
}

/// What a `FlyServicePort` holds, its strings seen as character sequences.
pub struct FlyServicePortView {
    pub port: u64,
    pub force_https: Option<bool>,
    pub handlers: Seq<FlyServicePortHandler>,
}

impl View for FlyServicePort {
    type V = FlyServicePortView;

    open spec fn view(&self) -> FlyServicePortView {
        FlyServicePortView {
            port: self.port,
            force_https: self.force_https,
            handlers: self.handlers@,
        }
    }
}

/// An HTTP health check.
#[derive(Debug, PartialEq, Eq)]
pub struct FlyServiceHttpCheck {
    pub interval: Option<String>,
    pub grace_period: Option<String>,
    pub method: Option<String>,
    pub path: Option<String>,
    pub protocol: Option<FlyServiceHttpCheckProtocol>,
    pub timeout: Option<String>,
    pub restart_limit: Option<u64>,
    pub tls_skip_verify: Option<bool>,
    pub headers: Option<StringMap>,
}

/// What a `FlyServiceHttpCheck` holds, its strings seen as character sequences.
pub struct FlyServiceHttpCheckView {
    pub interval: Option<Seq<char>>,
    pub grace_period: Option<Seq<char>>,
    pub method: Option<Seq<char>>,
    pub path: Option<Seq<char>>,
    pub protocol: Option<FlyServiceHttpCheckProtocol>,
    pub timeout: Option<Seq<char>>,
    pub restart_limit: Option<u64>,
    pub tls_skip_verify: Option<bool>,
    pub headers: Option<Map<Seq<char>, Seq<char>>>,
}

impl View for FlyServiceHttpCheck {
    type V = FlyServiceHttpCheckView;

    open spec fn view(&self) -> FlyServiceHttpCheckView {
        FlyServiceHttpCheckView {
            interval: opt_view(self.interval),
            grace_period: opt_view(self.grace_period),
            method: opt_view(self.method),
            path: opt_view(self.path),
            protocol: self.protocol,
            timeout: opt_view(self.timeout),
            restart_limit: self.restart_limit,
            tls_skip_verify: self.tls_skip_verify,
            headers: opt_view(self.headers),
        }
    }
}

/// A TCP health check.
#[derive(Debug, PartialEq, Eq)]
pub struct FlyServiceTcpCheck {
    pub interval: Option<u64>,
    pub grace_period: Option<String>,
    pub timeout: Option<u64>,
    pub restart_limit: Option<u64>,
}

/// What a `FlyServiceTcpCheck` holds, its strings seen as character sequences.
pub struct FlyServiceTcpCheckView {
    pub interval: Option<u64>,
    pub grace_period: Option<Seq<char>>,
    pub timeout: Option<u64>,
    pub restart_limit: Option<u64>,
}

impl View for FlyServiceTcpCheck {
    type V = FlyServiceTcpCheckView;

    open spec fn view(&self) -> FlyServiceTcpCheckView {
        FlyServiceTcpCheckView {
            interval: self.interval,
            grace_period: opt_view(self.grace_period),
            timeout: self.timeout,
            restart_limit: self.restart_limit,
        }
    }
}

/// A service of the application.
#[derive(Debug, PartialEq, Eq)]
pub struct FlyService {
    pub internal_port: u64,
    pub processes: Vec<String>,
    pub concurrency: FlyServiceConcurrency,
    pub ports: Vec<FlyServicePort>,
    pub tcp_checks: Option<Vec<FlyServiceTcpCheck>>,
    pub http_checks: Option<Vec<FlyServiceHttpCheck>>,
    /// Read from the deploy configuration, never written to the platform's.
    pub protocol: Option<FlyServiceProtocol>,
}

/// What a `FlyService` holds, its strings seen as character sequences.
pub struct FlyServiceView {
    pub internal_port: u64,
    pub processes: Seq<Seq<char>>,
    pub concurrency: FlyServiceConcurrencyView,
    pub ports: Seq<FlyServicePortView>,
    pub tcp_checks: Option<Seq<FlyServiceTcpCheckView>>,
    pub http_checks: Option<Seq<FlyServiceHttpCheckView>>,
    pub protocol: Option<FlyServiceProtocol>,
}

impl View for FlyService {
    type V = FlyServiceView;

    open spec fn view(&self) -> FlyServiceView {
        FlyServiceView {
            internal_port: self.internal_port,
            processes: views(self.processes@),
            concurrency: self.concurrency@,
            ports: views(self.ports@),
            tcp_checks: opt_views(self.tcp_checks),
            http_checks: opt_views(self.http_checks),
            protocol: self.protocol,
        }
    }
}

/// Experimental settings of the platform.
#[derive(Debug, PartialEq, Eq)]
pub struct FlyExperimental {
    pub cmd: Option<Vec<String>>,
    pub entrypoint: Option<Vec<String>>,
}

/// The deploy configuration: what the author of an application writes.
#[derive(Debug, PartialEq, Eq)]
pub struct DeployConfig {
    pub name: String,
    pub organization: String,
    pub default_region: String,
    pub regions: Vec<String>,
    pub backup_regions: Vec<String>,
    pub scaling: FlyScaling,
    pub gcp_kms: Option<FlyGcpKms>,
    pub gcp_ssm: Option<FlyGcpSsm>,
    pub database: Option<FlyDatabase>,
    pub kill_signal: Option<FlyKillSignal>,
    pub kill_timeout: Option<u64>,
    pub build: Option<FlyBuild>,
    pub deploy: Option<FlyDeploy>,
    pub statics: Option<Vec<FlyStatic>>,
    pub services: Option<Vec<FlyService>>,
    pub mounts: Option<Vec<FlyMount>>,
    pub environment: Option<EnvironmentTable>,
}

/// What a `DeployConfig` holds, its strings seen as character sequences.
pub struct DeployConfigView {
    pub name: Seq<char>,
    pub organization: Seq<char>,
    pub default_region: Seq<char>,
    pub regions: Seq<Seq<char>>,
    pub backup_regions: Seq<Seq<char>>,
    pub scaling: FlyScaling,
    pub gcp_kms: Option<FlyGcpKmsView>,
    pub gcp_ssm: Option<FlyGcpSsmView>,
    pub database: Option<FlyDatabase>,
    pub kill_signal: Option<FlyKillSignal>,
    pub kill_timeout: Option<u64>,
    pub build: Option<FlyBuildView>,
    pub deploy: Option<FlyDeployView>,
    pub statics: Option<Seq<FlyStaticView>>,
    pub services: Option<Seq<FlyServiceView>>,
    pub mounts: Option<Seq<FlyMountView>>,
    pub environment: Option<Map<Seq<char>, Seq<EnvironmentVariableView>>>,
}

impl View for DeployConfig {
    type V = DeployConfigView;

    open spec fn view(&self) -> DeployConfigView {
        DeployConfigView {
            name: self.name@,
            organization: self.organization@,
            default_region: self.default_region@,
            regions: views(self.regions@),
            backup_regions: views(self.backup_regions@),
            scaling: self.scaling,
            gcp_kms: opt_view(self.gcp_kms),
            gcp_ssm: opt_view(self.gcp_ssm),
            database: self.database,
            kill_signal: self.kill_signal,
            kill_timeout: self.kill_timeout,
            build: opt_view(self.build),
            deploy: opt_view(self.deploy),
            statics: opt_views(self.statics),
            services: opt_views(self.services),
            mounts: opt_views(self.mounts),
            environment: opt_view(self.environment),
        }
    }
}

/// The platform configuration: what the deployment tool reads.
#[derive(Debug, PartialEq, Eq)]
pub struct FlyConfig {
    pub app: String,
    pub kill_signal: Option<FlyKillSignal>,
    pub kill_timeout: Option<u64>,
    pub build: Option<FlyBuild>,
    pub deploy: Option<FlyDeploy>,
    pub statics: Option<Vec<FlyStatic>>,
    pub services: Option<Vec<FlyService>>,
    pub mounts: Option<Vec<FlyMount>>,
    pub env: Option<StringMap>,
}

/// What a `FlyConfig` holds, its strings seen as character sequences.
pub struct FlyConfigView {
    pub app: Seq<char>,
    pub kill_signal: Option<FlyKillSignal>,
    pub kill_timeout: Option<u64>,
    pub build: Option<FlyBuildView>,
    pub deploy: Option<FlyDeployView>,
    pub statics: Option<Seq<FlyStaticView>>,
    pub services: Option<Seq<FlyServiceView>>,
    pub mounts: Option<Seq<FlyMountView>>,
    pub env: Option<Map<Seq<char>, Seq<char>>>,
}

impl View for FlyConfig {
    type V = FlyConfigView;

    open spec fn view(&self) -> FlyConfigView {
        FlyConfigView {
            app: self.app@,
            kill_signal: self.kill_signal,
            kill_timeout: self.kill_timeout,
            build: opt_view(self.build),
            deploy: opt_view(self.deploy),
            statics: opt_views(self.statics),
            services: opt_views(self.services),
            mounts: opt_views(self.mounts),
            env: opt_view(self.env),
        }
    }
}

} // verus!
