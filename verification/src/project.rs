//! Projecting a deploy configuration onto the platform configuration.

use vstd::prelude::*;
use crate::models::{DeployConfig, DeployConfigView, FlyConfig, FlyConfigView, StringMap};

verus! {

/// The platform configuration of a deploy configuration and a resolved
/// environment: the application is named after the configuration, the
/// parts that both have are taken over as they are, and the environment is
/// attached. Organization, regions, scaling, database, references and the
/// environment table are left behind.
pub open spec fn projected(
    config: DeployConfigView,
    environment: Map<Seq<char>, Seq<char>>,
) -> FlyConfigView {
    FlyConfigView {
        app: config.name,
        kill_signal: config.kill_signal,
        kill_timeout: config.kill_timeout,
        build: config.build,
        deploy: config.deploy,
        statics: config.statics,
        services: config.services,
        mounts: config.mounts,
        env: Some(environment),
    }
}

/// Projects a deploy configuration and a resolved environment onto the
/// platform configuration.
pub fn project(config: DeployConfig, environment: StringMap) -> (r: FlyConfig)
    ensures
        r@ == projected(config@, environment@),
{
    FlyConfig {
        app: config.name,
        kill_signal: config.kill_signal,
        kill_timeout: config.kill_timeout,
        build: config.build,
        deploy: config.deploy,
        statics: config.statics,
        services: config.services,
        mounts: config.mounts,
        env: Some(environment),
    }
}

} // verus!
