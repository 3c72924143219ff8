//! What the service hands the engine for the calls that take several
//! arguments, made by functions with exact contracts.
use vstd::prelude::*;
use crate::lightning::{push_amount, push_of};
use ldk_node::bitcoin::secp256k1::PublicKey;
use ldk_node::lightning::ln::msgs::SocketAddress;

verus! {

/// The arguments of a channel opening.
pub struct ChannelOpening {
    pub node_id: PublicKey,
    pub address: SocketAddress,
    pub channel_amount_sats: u64,
    pub push_to_counterparty_msat: Option<u64>,
    pub announce_channel: bool,
}

/// The opening for a requested channel: the amount and the announce flag as
/// requested, and the push that `push_of` gives.
pub fn channel_opening(
    node_id: PublicKey,
    address: SocketAddress,
    channel_amount_sats: u64,
    push_to_counterparty_msat: u64,
    announce_channel: bool,
) -> (r: ChannelOpening)
    ensures
        r.node_id == node_id,
        r.address == address,
        r.channel_amount_sats == channel_amount_sats,
        r.push_to_counterparty_msat == push_of(push_to_counterparty_msat),
        r.announce_channel == announce_channel,
{
    let push = push_amount(push_to_counterparty_msat);
    ChannelOpening {
        node_id,
        address,
        channel_amount_sats,
        push_to_counterparty_msat: push,
        announce_channel,
    }
}

/// The arguments of a peer connection.
pub struct PeerConnection {
    pub node_id: PublicKey,
    pub address: SocketAddress,
    /// Whether the engine reconnects to the peer after restarts.
    pub persist: bool,
}

/// The connection to a peer that the service asks for: always remembered
/// across restarts.
pub fn peer_connection(node_id: PublicKey, address: SocketAddress) -> (r: PeerConnection)
    ensures
        r.node_id == node_id,
        r.address == address,
        r.persist,
{
    PeerConnection { node_id, address, persist: true }
}

} // verus!
