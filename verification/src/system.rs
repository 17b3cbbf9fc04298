pub mod config;

use crate::process::Registry;
use config::ActorSystemConfig;
use vstd::prelude::*;

verus! {

/// Sentinel host name for a process registered without any host binding.
/// An opaque marker value for the `Pid` host field; no routing behavior is
/// attached to it here.
pub fn no_host() -> (r: String)
    ensures
        r@ == "nohost"@,
{
    "nohost".to_owned()
}

/// Sentinel host name for a client-originated process. An opaque marker
/// value for the `Pid` host field; no routing behavior is attached to it
/// here.
pub fn client_host() -> (r: String)
    ensures
        r@ == "$client"@,
{
    "$client".to_owned()
}

/// One actor system: its host binding, its configuration, and the registry
/// holding every process of the system. Constructed once at system start and
/// shared with every caller; never an implicit process-wide global.
pub struct ActorSystem {
    host: String,
    port: i16,
    config: ActorSystemConfig,
    registry: Registry,
}

impl ActorSystem {
    pub closed spec fn spec_host(&self) -> Seq<char> {
        self.host@
    }

    pub closed spec fn spec_port(&self) -> i16 {
        self.port
    }

    pub closed spec fn spec_config(&self) -> ActorSystemConfig {
        self.config
    }

    pub closed spec fn spec_registry(&self) -> Registry {
        self.registry
    }

    /// Builds a system whose registry starts empty with `shard_count`
    /// shards, chosen once to match the expected concurrency level and fixed
    /// for the registry's lifetime.
    pub fn new(host: String, port: i16, config: ActorSystemConfig, shard_count: usize) -> (s:
        ActorSystem)
        requires
            shard_count >= 1,
        ensures
            s.spec_host() == host@,
            s.spec_port() == port,
            s.spec_config() == config,
            s.spec_registry().wf(),
            s.spec_registry()@ == Map::<(Seq<char>, Seq<char>), Seq<char>>::empty(),
            s.spec_registry().spec_host() == host@,
            s.spec_registry().spec_counter() == 0,
    {
        let registry = Registry::new(host.clone(), shard_count);
        ActorSystem { host, port, config, registry }
    }

    pub fn host(&self) -> (r: &String)
        ensures
            r@ == self.spec_host(),
    {
        &self.host
    }

    pub fn port(&self) -> (r: i16)
        ensures
            r == self.spec_port(),
    {
        self.port
    }

    pub fn config(&self) -> (r: &ActorSystemConfig)
        ensures
            *r == self.spec_config(),
    {
        &self.config
    }

    pub fn registry(&self) -> (r: &Registry)
        ensures
            *r == self.spec_registry(),
    {
        &self.registry
    }
}

} // verus!
