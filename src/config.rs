//! The per-node settings that the wallet keeps and the engine is built from.
use vstd::prelude::*;
use ldk_node::Network;

verus! {

/// The addresses that a wallet was created with.
pub struct WalletConfig {
    /// Where the node listens for peers, as `host:port`.
    pub listening_address: String,
    /// The URL of the chain-data (Esplora) server.
    pub esplora_address: String,
}

impl WalletConfig {
    pub fn get_listening_address(&self) -> (r: String)
        ensures
            r@ == self.listening_address@,
    {
        self.listening_address.clone()
    }

    pub fn get_esplora_address(&self) -> (r: String)
        ensures
            r@ == self.esplora_address@,
    {
        self.esplora_address.clone()
    }
}

/// Everything an engine is built from.
pub struct NodeConf {
    pub network: Network,
    /// The node's storage directory; also its key in the registry.
    pub storage_dir: String,
    pub listening_address: String,
    pub seed: Vec<u8>,
    pub esplora_address: String,
}

} // verus!
