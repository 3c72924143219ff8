//! The node engine of `ldk_node` as the library sees it: the outside types
//! that cross its boundary and one trusted wrapper per engine call.
use vstd::prelude::*;
use ldk_node::bitcoin::secp256k1::PublicKey;
use ldk_node::bitcoin::OutPoint;
use ldk_node::io::sqlite_store::SqliteStore;
use ldk_node::lightning::ln::msgs::SocketAddress;
use ldk_node::lightning::ln::{ChannelId, PaymentHash, PaymentPreimage, PaymentSecret};
use ldk_node::lightning_invoice::Bolt11Invoice;
use ldk_node::{
    Builder, ChannelConfig, ChannelDetails, LogLevel, Network, Node, NodeError, PaymentDetails,
    PaymentDirection, PaymentStatus, PeerDetails, UserChannelId,
};
use crate::requests::{ChannelOpening, PeerConnection};
use std::str::FromStr;
use std::sync::Arc;

verus! {

#[verifier::external_type_specification]
pub struct ExPaymentHash(PaymentHash);

#[verifier::external_type_specification]
pub struct ExPaymentPreimage(PaymentPreimage);

#[verifier::external_type_specification]
pub struct ExPaymentSecret(PaymentSecret);

#[verifier::external_type_specification]
pub struct ExPaymentDirection(PaymentDirection);

#[verifier::external_type_specification]
pub struct ExPaymentStatus(PaymentStatus);

#[verifier::external_type_specification]
pub struct ExPaymentDetails(PaymentDetails);

#[verifier::external_type_specification]
pub struct ExChannelId(ChannelId);

#[verifier::external_type_specification]
pub struct ExUserChannelId(UserChannelId);

#[verifier::external_type_specification]
#[verifier::external_body]
pub struct ExPublicKey(PublicKey);

#[verifier::external_type_specification]
#[verifier::external_body]
pub struct ExOutPoint(OutPoint);

#[verifier::external_type_specification]
#[verifier::external_body]
pub struct ExChannelConfig(ChannelConfig);

#[verifier::external_type_specification]
pub struct ExChannelDetails(ChannelDetails);

#[verifier::external_type_specification]
#[verifier::external_body]
pub struct ExSocketAddress(SocketAddress);

#[verifier::external_type_specification]
pub struct ExPeerDetails(PeerDetails);

#[verifier::external_type_specification]
#[verifier::external_body]
pub struct ExNodeError(NodeError);


#[verifier::external_type_specification]
#[verifier::external_body]
pub struct ExBolt11Invoice(Bolt11Invoice);


#[verifier::external_type_specification]
#[verifier::external_body]
pub struct ExBuilder(Builder);

#[verifier::external_type_specification]
pub struct ExNetwork(Network);

#[verifier::external_type_specification]
pub struct ExLogLevel(LogLevel);

/// Shared ownership of one engine built over an SQLite store.
///
/// Clones share the same engine; the engine owns all of its state. The
/// engine is built, and its events drained, by the caller: both touch the
/// disk, and the engine panics where the disk refuses them.
#[verifier::external_body]
pub struct NodeHandle {
    pub node: Arc<Node<SqliteStore>>,
}

impl NodeHandle {
    /// Relies on `Arc::clone`: a second handle on the same engine, equal to
    /// this one.
    #[verifier::external_body]
    pub fn share(&self) -> (r: NodeHandle)
        ensures
            r == *self,
    {
        NodeHandle { node: Arc::clone(&self.node) }
    }
}

/// The lowercase hexadecimal digit of `d`, for `d < 16`.
pub open spec fn hex_digit(d: u8) -> char {
    "0123456789abcdef"@[d as int]
}

/// Two lowercase hexadecimal digits for each byte, in order.
pub open spec fn hex_text(bytes: Seq<u8>) -> Seq<char>
    decreases bytes.len(),
{
    if bytes.len() == 0 {
        Seq::empty()
    } else {
        hex_text(bytes.drop_last()) + seq![
            hex_digit(bytes.last() / 16),
            hex_digit(bytes.last() % 16),
        ]
    }
}

/// Relies on `ChannelId`'s `Display`, which writes each id byte as two
/// lowercase hexadecimal digits.
#[verifier::external_body]
pub(crate) fn channel_id_string(id: &ChannelId) -> (r: String)
    ensures
        r@ == hex_text(id.0@),
{
    id.to_string()
}

/// Relies on `PublicKey`'s `Display`: the key as text.
#[verifier::external_body]
pub(crate) fn public_key_string(k: &PublicKey) -> String {
    k.to_string()
}

/// Relies on `SocketAddress`'s `Display`: the address as text.
#[verifier::external_body]
pub(crate) fn socket_address_string(a: &SocketAddress) -> String {
    a.to_string()
}

/// Relies on `NodeError`'s `Display`: the error as text.
#[verifier::external_body]
pub(crate) fn node_error_string(e: &NodeError) -> String {
    e.to_string()
}

/// Whether `PublicKey::from_str` accepts the text; it depends on the text
/// alone.
pub uninterp spec fn public_key_parses(s: Seq<char>) -> bool;

/// Whether `SocketAddress::from_str` accepts the text; it depends on the
/// text alone.
pub uninterp spec fn socket_address_parses(s: Seq<char>) -> bool;

/// Whether `Bolt11Invoice::from_str` accepts the text, which both parses
/// it and checks it semantically; it depends on the text alone.
pub uninterp spec fn invoice_valid(s: Seq<char>) -> bool;

/// Relies on `PublicKey::from_str`; `None` where the text is no valid key.
#[verifier::external_body]
pub(crate) fn parse_public_key(s: &str) -> (r: Option<PublicKey>)
    ensures
        r.is_some() == public_key_parses(s@),
{
    PublicKey::from_str(s).ok()
}

/// Relies on `SocketAddress::from_str`; the parse error as text.
#[verifier::external_body]
pub(crate) fn parse_socket_address(s: &str) -> (r: Result<SocketAddress, String>)
    ensures
        r.is_ok() == socket_address_parses(s@),
{
    SocketAddress::from_str(s).map_err(|e| e.to_string())
}

/// Relies on `Bolt11Invoice::from_str`; `None` where the text does not
/// parse as a signed invoice or the invoice is not semantically valid.
#[verifier::external_body]
pub(crate) fn parse_invoice(s: &str) -> (r: Option<Bolt11Invoice>)
    ensures
        r.is_some() == invoice_valid(s@),
{
    Bolt11Invoice::from_str(s).ok()
}

/// Relies on `Bolt11Invoice::into_signed_raw` and its `Display`: the
/// invoice as text.
#[verifier::external_body]
pub(crate) fn invoice_string(invoice: Bolt11Invoice) -> String {
    invoice.into_signed_raw().to_string()
}

/// Relies on `Builder::new`: a builder with the engine's defaults.
#[verifier::external_body]
pub(crate) fn builder_new() -> Builder {
    Builder::new()
}

/// Relies on `Builder::set_network`.
#[verifier::external_body]
pub(crate) fn builder_set_network(b: &mut Builder, network: Network) {
    b.set_network(network);
}

/// Relies on `Builder::set_log_level`.
#[verifier::external_body]
pub(crate) fn builder_set_log_level(b: &mut Builder, level: LogLevel) {
    b.set_log_level(level);
}

/// Relies on `Builder::set_storage_dir_path`.
#[verifier::external_body]
pub(crate) fn builder_set_storage_dir_path(b: &mut Builder, path: String) {
    b.set_storage_dir_path(path);
}

/// Relies on `Builder::set_log_dir_path`.
#[verifier::external_body]
pub(crate) fn builder_set_log_dir_path(b: &mut Builder, path: String) {
    b.set_log_dir_path(path);
}

/// Relies on `Builder::set_listening_addresses`, which refuses more than
/// 100 addresses; its error as text.
#[verifier::external_body]
pub(crate) fn builder_set_listening_addresses(
    b: &mut Builder,
    addresses: Vec<SocketAddress>,
) -> (r: Result<(), String>)
    ensures
        r.is_ok() == (addresses@.len() <= 100),
{
    b.set_listening_addresses(addresses).map(|_| ()).map_err(|e| e.to_string())
}

/// Relies on `Builder::set_esplora_server`.
#[verifier::external_body]
pub(crate) fn builder_set_esplora_server(b: &mut Builder, url: String) {
    b.set_esplora_server(url);
}

/// Relies on `Builder::set_gossip_source_rgs`.
#[verifier::external_body]
pub(crate) fn builder_set_gossip_source_rgs(b: &mut Builder, url: String) {
    b.set_gossip_source_rgs(url);
}

/// Relies on `Builder::set_entropy_seed_bytes`, which takes exactly 64
/// bytes; its error as text.
#[verifier::external_body]
pub(crate) fn builder_set_entropy_seed_bytes(b: &mut Builder, seed: Vec<u8>) -> (r: Result<
    (),
    String,
>)
    ensures
        r.is_ok() == (seed@.len() == 64),
{
    b.set_entropy_seed_bytes(seed).map(|_| ()).map_err(|e| e.to_string())
}

impl NodeHandle {
    /// Relies on `Node::start`.
    #[verifier::external_body]
    pub(crate) fn start(&self) -> Result<(), NodeError> {
        self.node.start()
    }

    /// Relies on `Node::stop`.
    #[verifier::external_body]
    pub(crate) fn stop(&self) -> Result<(), NodeError> {
        self.node.stop()
    }

    /// Relies on `Node::is_running`.
    #[verifier::external_body]
    pub(crate) fn is_running(&self) -> bool {
        self.node.is_running()
    }

    /// Relies on `Node::node_id`.
    #[verifier::external_body]
    pub(crate) fn node_id(&self) -> PublicKey {
        self.node.node_id()
    }

    /// Relies on `Node::new_onchain_address`; the address as text.
    #[verifier::external_body]
    pub(crate) fn new_onchain_address(&self) -> Result<String, NodeError> {
        self.node.new_onchain_address().map(|a| a.to_string())
    }

    /// Relies on `Node::spendable_onchain_balance_sats`.
    #[verifier::external_body]
    pub(crate) fn spendable_onchain_balance_sats(&self) -> Result<u64, NodeError> {
        self.node.spendable_onchain_balance_sats()
    }

    /// Relies on `Node::total_onchain_balance_sats`.
    #[verifier::external_body]
    pub(crate) fn total_onchain_balance_sats(&self) -> Result<u64, NodeError> {
        self.node.total_onchain_balance_sats()
    }

    /// Relies on `Node::list_channels`.
    #[verifier::external_body]
    pub(crate) fn list_channels(&self) -> Vec<ChannelDetails> {
        self.node.list_channels()
    }

    /// Relies on `Node::list_payments`.
    #[verifier::external_body]
    pub(crate) fn list_payments(&self) -> Vec<PaymentDetails> {
        self.node.list_payments()
    }

    /// Relies on `Node::list_peers`.
    #[verifier::external_body]
    pub(crate) fn list_peers(&self) -> Vec<PeerDetails> {
        self.node.list_peers()
    }

    /// Relies on `Node::connect`.
    #[verifier::external_body]
    pub(crate) fn connect(&self, c: PeerConnection) -> Result<(), NodeError> {
        self.node.connect(c.node_id, c.address, c.persist)
    }

    /// Relies on `Node::disconnect`.
    #[verifier::external_body]
    pub(crate) fn disconnect(&self, node_id: PublicKey) -> Result<(), NodeError> {
        self.node.disconnect(node_id)
    }

    /// Relies on `Node::connect_open_channel`.
    #[verifier::external_body]
    pub(crate) fn connect_open_channel(
        &self,
        opening: ChannelOpening,
        channel_config: Option<Arc<ChannelConfig>>,
    ) -> Result<(), NodeError> {
        self.node.connect_open_channel(
            opening.node_id,
            opening.address,
            opening.channel_amount_sats,
            opening.push_to_counterparty_msat,
            channel_config,
            opening.announce_channel,
        )
    }

    /// Relies on `Node::close_channel`.
    #[verifier::external_body]
    pub(crate) fn close_channel(
        &self,
        channel_id: &ChannelId,
        node_id: PublicKey,
    ) -> Result<(), NodeError> {
        self.node.close_channel(channel_id, node_id)
    }

    /// Relies on `Node::receive_payment`.
    #[verifier::external_body]
    pub(crate) fn receive_payment(
        &self,
        amount_msat: u64,
        description: &str,
        expiry_secs: u32,
    ) -> Result<Bolt11Invoice, NodeError> {
        self.node.receive_payment(amount_msat, description, expiry_secs)
    }

    /// Relies on `Node::send_payment`.
    #[verifier::external_body]
    pub(crate) fn send_payment(&self, invoice: &Bolt11Invoice) -> Result<PaymentHash, NodeError> {
        self.node.send_payment(invoice)
    }
}

} // verus!
