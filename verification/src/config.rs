//! Global configuration shared by every request: the network selector and
//! the on-chain backend description, plus the per-node engine configuration
//! the orchestration service derives from them.

use vstd::prelude::*;

verus! {

/// The on-chain backend a node engine talks to.
pub enum LightningNodeBackendConfig {
    Electrum { url: String },
}

impl Clone for LightningNodeBackendConfig {
    fn clone(&self) -> (r: Self)
        ensures
            r == *self,
    {
        match self {
            LightningNodeBackendConfig::Electrum { url } => LightningNodeBackendConfig::Electrum {
                url: url.clone(),
            },
        }
    }
}

impl LightningNodeBackendConfig {
    pub open spec fn spec_url(self) -> Seq<char> {
        match self {
            LightningNodeBackendConfig::Electrum { url } => url@,
        }
    }

    /// The same backend kind pointed at another URL.
    pub fn clone_with_new_url(&self, url: String) -> (r: Self)
        ensures
            r == (LightningNodeBackendConfig::Electrum { url }),
    {
        match self {
            LightningNodeBackendConfig::Electrum { .. } => LightningNodeBackendConfig::Electrum {
                url,
            },
        }
    }

    pub fn url(&self) -> (r: &String)
        ensures
            r@ == self.spec_url(),
    {
        match self {
            LightningNodeBackendConfig::Electrum { url } => url,
        }
    }
}

/// Process-wide configuration: which network the host runs on and which
/// backend its engines use. Persisting a mutation is the runtime's step and
/// is signalled through an action, never performed here.
pub struct Config {
    pub backend: LightningNodeBackendConfig,
    pub network: String,
}

impl Config {
    pub fn set_backend(&mut self, backend: LightningNodeBackendConfig)
        ensures
            final(self).backend == backend,
            final(self).network == old(self).network,
    {
        self.backend = backend;
    }
}

/// Everything a protocol engine needs to come up for one node record.
pub struct LightningNodeConfig {
    pub backend: LightningNodeBackendConfig,
    pub data_dir: String,
    pub ldk_peer_listening_port: u16,
    pub ldk_announced_listen_addr: Vec<String>,
    pub ldk_announced_node_name: Option<String>,
    pub network: String,
    pub passphrase: String,
    pub external_router: bool,
}

} // verus!
