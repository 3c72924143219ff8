//! The per-call operations of the service and the start of a node.
//!
//! Every operation takes the handle that a registry lookup gave, or `None`
//! where the identity is unknown, and turns any failure into the negative
//! value of its result type: `false`, an empty string or list, zero or
//! `None`. None of them panics. Building an engine and draining its events
//! touch the disk, where the engine panics on refusal, so callers do both
//! and hand this module the result.
use vstd::prelude::*;
use vstd::string::StringSliceAdditionalSpecFns;
use crate::config::{NodeConf, WalletConfig};
use crate::engine::{
    builder_new, builder_set_entropy_seed_bytes, builder_set_esplora_server,
    builder_set_gossip_source_rgs, builder_set_listening_addresses, builder_set_log_dir_path,
    builder_set_log_level, builder_set_network, builder_set_storage_dir_path, invoice_string,
    invoice_valid, node_error_string, parse_invoice, parse_public_key, parse_socket_address,
    public_key_parses, public_key_string, socket_address_parses, NodeHandle,
};
use crate::requests::{channel_opening, peer_connection};
use crate::registry::Registry;
use crate::views::{
    channel_views, payment_views, peer_views, renders_channels, renders_payments, renders_peers,
    ChanDetails, WrappedPaymentDetails, WrappedPeerDetails,
};
use ldk_node::lightning::ln::{ChannelId, PaymentHash};
use ldk_node::lightning_invoice::Bolt11Invoice;
use ldk_node::{
    Builder, ChannelDetails, LogLevel, Network, NodeError, PaymentDetails, PeerDetails,
};

verus! {

/// The push amount handed to the engine for a requested one: amounts of 0
/// and 1 push nothing.
pub open spec fn push_of(push_to_counterparty_msat: u64) -> Option<u64> {
    if push_to_counterparty_msat > 1 {
        Some(push_to_counterparty_msat)
    } else {
        None
    }
}

/// The push amount handed to the engine for a requested one.
pub fn push_amount(push_to_counterparty_msat: u64) -> (r: Option<u64>)
    ensures
        r == push_of(push_to_counterparty_msat),
{
    if push_to_counterparty_msat > 1 {
        Some(push_to_counterparty_msat)
    } else {
        None
    }
}

/// A requested push of one behaves as a push of zero: neither pushes
/// anything, while any larger amount is pushed as it is.
pub proof fn push_one_is_no_push(push_to_counterparty_msat: u64)
    ensures
        push_to_counterparty_msat <= 1 ==> push_of(push_to_counterparty_msat) == push_of(0),
        push_of(0).is_none(),
        push_to_counterparty_msat >= 2 ==> push_of(push_to_counterparty_msat) == Some(
            push_to_counterparty_msat,
        ),
{
}

/// `true` exactly where the engine call succeeded.
pub fn succeeded(outcome: Result<(), NodeError>) -> (r: bool)
    ensures
        r == outcome.is_ok(),
{
    match outcome {
        Ok(_) => true,
        Err(_) => false,
    }
}

/// The amount the engine reported, or zero where it failed.
pub fn amount_or_zero(outcome: Result<u64, NodeError>) -> (r: u64)
    ensures
        r == match outcome {
            Ok(b) => b,
            Err(_) => 0,
        },
{
    match outcome {
        Ok(b) => b,
        Err(_) => 0,
    }
}

/// The text the engine reported, or the empty string where it failed.
pub fn text_or_empty(outcome: Result<String, NodeError>) -> (r: String)
    ensures
        r@ == match outcome {
            Ok(s) => s@,
            Err(_) => Seq::<char>::empty(),
        },
{
    match outcome {
        Ok(s) => s,
        Err(_) => String::new(),
    }
}

/// The hash of the payment the engine sent, or `None` where it failed.
pub fn sent_hash(outcome: Result<PaymentHash, NodeError>) -> (r: Option<[u8; 32]>)
    ensures
        r == match outcome {
            Ok(h) => Some(h.0),
            Err(_) => None::<[u8; 32]>,
        },
{
    match outcome {
        Ok(h) => Some(h.0),
        Err(_) => None,
    }
}

/// The invoice the engine made, as text, or `None` where it failed.
pub fn invoice_or_none(outcome: Result<Bolt11Invoice, NodeError>) -> (r: Option<String>)
    ensures
        r.is_some() == outcome.is_ok(),
{
    match outcome {
        Ok(i) => Some(invoice_string(i)),
        Err(_) => None,
    }
}

/// The channel id whose 32 bytes are the UTF-8 bytes of `text`; `None`
/// where `text` is not 32 bytes long.
pub fn channel_id_from_text(text: &str) -> (r: Option<ChannelId>)
    ensures
        r.is_some() == (text.spec_bytes().len() == 32),
        r.is_some() ==> r.unwrap().0@ == text.spec_bytes(),
{
    let bytes = text.as_bytes();
    if bytes.len() != 32 {
        return None;
    }
    let mut id = [0u8; 32];
    let mut i: usize = 0;
    while i < 32
        invariant
            bytes@ == text.spec_bytes(),
            bytes@.len() == 32,
            0 <= i <= 32,
            forall|j: int| 0 <= j < i ==> id@[j] == bytes@[j],
        decreases 32 - i,
    {
        id[i] = bytes[i];
        i = i + 1;
    }
    assert(id@ =~= bytes@);
    Some(ChannelId(id))
}

/// The public identity of the node, as text; empty for an unknown node.
pub fn get_node_id(node: Option<&NodeHandle>) -> (r: String)
    ensures
        node.is_none() ==> r@ == Seq::<char>::empty(),
{
    match node {
        None => String::new(),
        Some(n) => public_key_string(&n.node_id()),
    }
}

/// Stops the node; `false` for an unknown node or where the engine fails.
/// The node stays in the registry.
pub fn stop_node(node: Option<&NodeHandle>) -> (r: bool)
    ensures
        node.is_none() ==> !r,
{
    match node {
        None => false,
        Some(n) => succeeded(n.stop()),
    }
}

/// Whether the node runs; `false` for an unknown node.
pub fn is_node_running(node: Option<&NodeHandle>) -> (r: bool)
    ensures
        node.is_none() ==> !r,
{
    match node {
        None => false,
        Some(n) => n.is_running(),
    }
}

/// A fresh on-chain address; empty for an unknown node or where the engine
/// fails.
pub fn new_onchain_address(node: Option<&NodeHandle>) -> (r: String)
    ensures
        node.is_none() ==> r@ == Seq::<char>::empty(),
{
    match node {
        None => String::new(),
        Some(n) => text_or_empty(n.new_onchain_address()),
    }
}

/// Closes a channel with the peer whose node id `node_id` holds as text;
/// `false` for an unknown node, a malformed node id or where the engine
/// fails.
pub fn close_channel(node: Option<&NodeHandle>, node_id: String, channel_id: ChannelId) -> (r:
    bool)
    ensures
        r ==> node.is_some() && public_key_parses(node_id@),
{
    let n = match node {
        None => {
            return false;
        },
        Some(n) => n,
    };
    let pub_key = match parse_public_key(node_id.as_str()) {
        None => {
            return false;
        },
        Some(k) => k,
    };
    succeeded(n.close_channel(&channel_id, pub_key))
}

/// Connects to a peer and opens a channel with it. A push amount of 0 or 1
/// pushes nothing. `false` for an unknown node, a malformed node id or
/// address, or where the engine fails.
pub fn open_channel(
    node: Option<&NodeHandle>,
    node_id: String,
    net_address: String,
    channel_amount_sats: u64,
    push_to_counterparty_msat: u64,
    announce_channel: bool,
) -> (r: bool)
    ensures
        r ==> node.is_some() && public_key_parses(node_id@) && socket_address_parses(
            net_address@,
        ),
{
    let n = match node {
        None => {
            return false;
        },
        Some(n) => n,
    };
    let target_node_id = match parse_public_key(node_id.as_str()) {
        None => {
            return false;
        },
        Some(k) => k,
    };
    let target_address = match parse_socket_address(net_address.as_str()) {
        Err(_) => {
            return false;
        },
        Ok(a) => a,
    };
    let opening = channel_opening(
        target_node_id,
        target_address,
        channel_amount_sats,
        push_to_counterparty_msat,
        announce_channel,
    );
    succeeded(n.connect_open_channel(opening, None))
}

/// The node's payments, as wire views in the engine's order; empty for an
/// unknown node.
pub fn list_payments(node: Option<&NodeHandle>) -> (r: Vec<WrappedPaymentDetails>)
    ensures
        node.is_none() ==> r@.len() == 0,
        node.is_some() ==> exists|d: Seq<PaymentDetails>| #[trigger] renders_payments(d, r@),
{
    match node {
        None => Vec::new(),
        Some(n) => {
            let records = n.list_payments();
            let ghost d = records@;
            let r = payment_views(records);
            assert(renders_payments(d, r@));
            r
        },
    }
}

/// The node's channels, in the engine's order; empty for an unknown node.
pub fn list_channels(node: Option<&NodeHandle>) -> (r: Vec<ChanDetails>)
    ensures
        node.is_none() ==> r@.len() == 0,
        node.is_some() ==> exists|d: Seq<ChannelDetails>| #[trigger] renders_channels(d, r@),
{
    match node {
        None => Vec::new(),
        Some(n) => {
            let records = n.list_channels();
            let ghost d = records@;
            let r = channel_views(records);
            assert(renders_channels(d, r@));
            r
        },
    }
}

/// The node's peers, in the engine's order; empty for an unknown node.
pub fn list_peers(node: Option<&NodeHandle>) -> (r: Vec<WrappedPeerDetails>)
    ensures
        node.is_none() ==> r@.len() == 0,
        node.is_some() ==> exists|d: Seq<PeerDetails>| #[trigger] renders_peers(d, r@),
{
    match node {
        None => Vec::new(),
        Some(n) => {
            let records = n.list_peers();
            let ghost d = records@;
            let r = peer_views(records);
            assert(renders_peers(d, r@));
            r
        },
    }
}

/// A payable invoice for the amount, as text; `None` for an unknown node or
/// where the engine fails.
pub fn create_invoice(
    node: Option<&NodeHandle>,
    amount_msat: u64,
    description: &str,
    expiry_secs: u32,
) -> (r: Option<String>)
    ensures
        node.is_none() ==> r.is_none(),
{
    match node {
        None => None,
        Some(n) => invoice_or_none(n.receive_payment(amount_msat, description, expiry_secs)),
    }
}

/// Pays the invoice that `invoice` holds as text and returns the payment
/// hash; `None` for an unknown node, an invoice that does not parse or is
/// not valid, or where the engine fails.
pub fn pay_invoice(node: Option<&NodeHandle>, invoice: String) -> (r: Option<[u8; 32]>)
    ensures
        r.is_some() ==> node.is_some() && invoice_valid(invoice@),
{
    let n = match node {
        None => {
            return None;
        },
        Some(n) => n,
    };
    let invoice = match parse_invoice(invoice.as_str()) {
        None => {
            return None;
        },
        Some(i) => i,
    };
    sent_hash(n.send_payment(&invoice))
}

/// Disconnects the peer whose node id `node_id` holds as text; `false` for
/// an unknown node, a malformed node id or where the engine fails.
pub fn disconnect_peer(node: Option<&NodeHandle>, node_id: String) -> (r: bool)
    ensures
        r ==> node.is_some() && public_key_parses(node_id@),
{
    let n = match node {
        None => {
            return false;
        },
        Some(n) => n,
    };
    match parse_public_key(node_id.as_str()) {
        None => false,
        Some(k) => succeeded(n.disconnect(k)),
    }
}

/// Connects to a peer and remembers it across restarts; `false` for an
/// unknown node, a malformed node id or address, or where the engine fails.
pub fn connect_to_node(node: Option<&NodeHandle>, node_id: String, net_address: String) -> (r:
    bool)
    ensures
        r ==> node.is_some() && public_key_parses(node_id@) && socket_address_parses(
            net_address@,
        ),
{
    let n = match node {
        None => {
            return false;
        },
        Some(n) => n,
    };
    let pub_key = match parse_public_key(node_id.as_str()) {
        None => {
            return false;
        },
        Some(k) => k,
    };
    match parse_socket_address(net_address.as_str()) {
        Err(_) => false,
        Ok(a) => succeeded(n.connect(peer_connection(pub_key, a))),
    }
}

/// The spendable on-chain balance; zero for an unknown node or where the
/// engine fails.
pub fn spendable_on_chain(node: Option<&NodeHandle>) -> (r: u64)
    ensures
        node.is_none() ==> r == 0,
{
    match node {
        None => 0,
        Some(n) => amount_or_zero(n.spendable_onchain_balance_sats()),
    }
}

/// The total on-chain balance; zero for an unknown node or where the engine
/// fails.
pub fn total_onchain_balance(node: Option<&NodeHandle>) -> (r: u64)
    ensures
        node.is_none() ==> r == 0,
{
    match node {
        None => 0,
        Some(n) => amount_or_zero(n.total_onchain_balance_sats()),
    }
}

/// The node's listening address; empty where its wallet settings are not
/// available.
pub fn get_our_address(config: Option<&WalletConfig>) -> (r: String)
    ensures
        r@ == match config {
            Some(c) => c.listening_address@,
            None => Seq::<char>::empty(),
        },
{
    match config {
        None => String::new(),
        Some(c) => c.get_listening_address(),
    }
}

/// The node's chain-data server address; empty where its wallet settings
/// are not available.
pub fn get_esplora_address(config: Option<&WalletConfig>) -> (r: String)
    ensures
        r@ == match config {
            Some(c) => c.esplora_address@,
            None => Seq::<char>::empty(),
        },
{
    match config {
        None => String::new(),
        Some(c) => c.get_esplora_address(),
    }
}

/// The engine's log directory for a storage directory.
pub fn log_dir_of(storage_dir: &String) -> (r: String)
    ensures
        r@ == storage_dir@ + "/logs"@,
{
    let mut log_dir = storage_dir.clone();
    log_dir.append("/logs");
    log_dir
}

/// What the engine is configured with before it is built.
pub struct EngineSettings {
    pub network: Network,
    pub log_level: LogLevel,
    pub storage_dir: Seq<char>,
    pub log_dir: Seq<char>,
    /// The one listening address, as the text it was parsed from.
    pub listening_address: Seq<char>,
    pub esplora_server: Seq<char>,
    pub gossip_source_rgs: Seq<char>,
    pub seed: Seq<u8>,
}

/// The rapid gossip sync server of the test network.
pub open spec fn rgs_testnet_url() -> Seq<char> {
    "https://rapidsync.lightningdevkit.org/testnet/snapshot"@
}

/// The settings an engine is built with from `config`: its network, info
/// logging, storage in the storage directory and logs in `log_dir_of` it,
/// its listening address, its chain-data server, rapid gossip sync of the
/// test network and its seed.
pub open spec fn engine_settings(config: NodeConf) -> EngineSettings {
    EngineSettings {
        network: config.network,
        log_level: LogLevel::Info,
        storage_dir: config.storage_dir@,
        log_dir: config.storage_dir@ + "/logs"@,
        listening_address: config.listening_address@,
        esplora_server: config.esplora_address@,
        gossip_source_rgs: rgs_testnet_url(),
        seed: config.seed@,
    }
}

/// A builder of the engine together with what it was configured with: each
/// setting is recorded next to the call that hands it to the builder.
pub struct EngineBuilder {
    pub builder: Builder,
    pub settings: Ghost<EngineSettings>,
}

/// Configures a builder from `config`; the caller builds the engine from
/// it. The error message of the first setting that fails. An empty storage
/// directory is refused before the builder is asked, as is a listening
/// address that does not parse or a seed that is not 64 bytes.
pub fn build_node(config: &NodeConf) -> (r: Result<EngineBuilder, String>)
    ensures
        config.storage_dir@.len() == 0 ==> r.is_err(),
        !socket_address_parses(config.listening_address@) ==> r.is_err(),
        config.seed@.len() != 64 ==> r.is_err(),
        r.is_ok() ==> r->Ok_0.settings@ == engine_settings(*config),
{
    if config.storage_dir.as_str().len() == 0 {
        proof {
            reveal_strlit("the storage directory is empty");
        }
        return Err(String::from_str("the storage directory is empty"));
    }
    let mut builder = builder_new();
    let ghost mut s: EngineSettings = arbitrary();
    builder_set_network(&mut builder, config.network);
    proof {
        s.network = config.network;
    }
    let level = LogLevel::Info;
    builder_set_log_level(&mut builder, level);
    proof {
        s.log_level = level;
    }
    let storage_dir = config.storage_dir.clone();
    proof {
        s.storage_dir = storage_dir@;
    }
    builder_set_storage_dir_path(&mut builder, storage_dir);
    let log_dir = log_dir_of(&config.storage_dir);
    proof {
        s.log_dir = log_dir@;
    }
    builder_set_log_dir_path(&mut builder, log_dir);
    let socket_address = match parse_socket_address(config.listening_address.as_str()) {
        Ok(a) => a,
        Err(e) => {
            return Err(e);
        },
    };
    let mut addresses = Vec::new();
    addresses.push(socket_address);
    match builder_set_listening_addresses(&mut builder, addresses) {
        Ok(_) => {},
        Err(e) => {
            return Err(e);
        },
    }
    proof {
        s.listening_address = config.listening_address@;
    }
    let esplora = config.esplora_address.clone();
    proof {
        s.esplora_server = esplora@;
    }
    builder_set_esplora_server(&mut builder, esplora);
    let rgs = String::from_str("https://rapidsync.lightningdevkit.org/testnet/snapshot");
    proof {
        reveal_strlit("https://rapidsync.lightningdevkit.org/testnet/snapshot");
        s.gossip_source_rgs = rgs@;
    }
    builder_set_gossip_source_rgs(&mut builder, rgs);
    let seed = config.seed.clone();
    proof {
        s.seed = seed@;
    }
    match builder_set_entropy_seed_bytes(&mut builder, seed) {
        Ok(_) => {},
        Err(e) => {
            return Err(e);
        },
    }
    Ok(EngineBuilder { builder, settings: Ghost(s) })
}

/// The outcome of a start: success with an empty message, or failure with
/// the engine's error as text.
pub fn start_outcome(outcome: Result<(), NodeError>) -> (r: (bool, String))
    ensures
        r.0 == outcome.is_ok(),
        r.0 ==> r.1@ == Seq::<char>::empty(),
{
    match outcome {
        Ok(_) => (true, String::new()),
        Err(e) => (false, node_error_string(&e)),
    }
}

/// Starts a built engine.
pub fn start_engine(node: &NodeHandle) -> (r: (bool, String))
    ensures
        r.0 ==> r.1@ == Seq::<char>::empty(),
{
    start_outcome(node.start())
}

/// Publishes a built engine under `key`, replacing any handle held there;
/// where the build failed, the registry is unchanged and the result is
/// `(false, e)` for its error `e`.
pub fn publish_built(
    nodes: &mut Registry<NodeHandle>,
    key: String,
    built: Result<NodeHandle, String>,
) -> (r: (bool, String))
    requires
        old(nodes).wf(),
    ensures
        final(nodes).wf(),
        match built {
            Err(e) => *final(nodes) == *old(nodes) && !r.0 && r.1@ == e@,
            Ok(h) => {
                &&& final(nodes)@ == old(nodes)@.insert(key@, h)
                &&& final(nodes).count_of(key@) == 1
                &&& final(nodes).size() == old(nodes).size() + if old(nodes)@.contains_key(key@) {
                    0int
                } else {
                    1int
                }
                &&& r.0
            },
        },
{
    match built {
        Err(e) => (false, e),
        Ok(h) => {
            nodes.publish(key, h);
            (true, String::new())
        },
    }
}

/// Publishes a built engine under `key`, replacing any handle held there,
/// then starts it; the handle stays published where the start fails.
/// Where the build failed, the registry is unchanged and the result is
/// `(false, e)` for its error `e`.
pub fn init_lazy(
    nodes: &mut Registry<NodeHandle>,
    key: String,
    built: Result<NodeHandle, String>,
) -> (r: (bool, String))
    requires
        old(nodes).wf(),
    ensures
        final(nodes).wf(),
        r.0 ==> r.1@ == Seq::<char>::empty(),
        match built {
            Err(e) => *final(nodes) == *old(nodes) && !r.0 && r.1@ == e@,
            Ok(h) => {
                &&& final(nodes)@ == old(nodes)@.insert(key@, h)
                &&& final(nodes).count_of(key@) == 1
                &&& final(nodes).size() == old(nodes).size() + if old(nodes)@.contains_key(key@) {
                    0int
                } else {
                    1int
                }
            },
        },
{
    match built {
        Err(e) => (false, e),
        Ok(h) => {
            let started = h.share();
            let _ = publish_built(nodes, key, Ok(h));
            start_engine(&started)
        },
    }
}

/// The settings a wallet's node is built from: the test network, the
/// wallet's seed and two addresses, and the given storage directory.
pub fn node_conf(seed: Vec<u8>, config: &WalletConfig, storage_dir: String) -> (r: NodeConf)
    ensures
        r.network == Network::Testnet,
        r.seed@ == seed@,
        r.storage_dir@ == storage_dir@,
        r.listening_address@ == config.listening_address@,
        r.esplora_address@ == config.esplora_address@,
{
    NodeConf {
        network: Network::Testnet,
        seed,
        storage_dir,
        listening_address: config.get_listening_address(),
        esplora_address: config.get_esplora_address(),
    }
}

/// The first half of starting a wallet's node: the builder configured from
/// `node_conf(seed, config, storage_dir)`. The caller builds the engine and
/// hands the outcome to `init_lazy` under the storage directory.
pub fn start_node(seed: Vec<u8>, config: &WalletConfig, storage_dir: String) -> (r: Result<
    EngineBuilder,
    String,
>)
    ensures
        storage_dir@.len() == 0 || !socket_address_parses(config.listening_address@)
            || seed@.len() != 64 ==> r.is_err(),
        r.is_ok() ==> r->Ok_0.settings@ == (EngineSettings {
            network: Network::Testnet,
            log_level: LogLevel::Info,
            storage_dir: storage_dir@,
            log_dir: storage_dir@ + "/logs"@,
            listening_address: config.listening_address@,
            esplora_server: config.esplora_address@,
            gossip_source_rgs: rgs_testnet_url(),
            seed: seed@,
        }),
{
    let conf = node_conf(seed, config, storage_dir);
    build_node(&conf)
}

} // verus!
