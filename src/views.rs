//! Wire views of the engine's channel, payment and peer records.
use vstd::prelude::*;
use crate::engine::{channel_id_string, hex_text, public_key_string, socket_address_string};
use ldk_node::bitcoin::secp256k1::PublicKey;
use ldk_node::lightning::ln::ChannelId;
use ldk_node::{ChannelDetails, PaymentDetails, PaymentDirection, PaymentStatus, PeerDetails};

verus! {

/// Wire name of a payment direction.
pub open spec fn direction_name(d: PaymentDirection) -> Seq<char> {
    match d {
        PaymentDirection::Inbound => "Inbound"@,
        PaymentDirection::Outbound => "Outbound"@,
    }
}

/// Wire name of a payment status.
pub open spec fn status_name(s: PaymentStatus) -> Seq<char> {
    match s {
        PaymentStatus::Pending => "Pending"@,
        PaymentStatus::Succeeded => "Succeeded"@,
        PaymentStatus::Failed => "Failed"@,
    }
}

/// Renders a payment direction for the wire.
pub fn direction_string(d: &PaymentDirection) -> (r: String)
    ensures
        r@ == direction_name(*d),
{
    match d {
        PaymentDirection::Inbound => {
            proof {
                reveal_strlit("Inbound");
            }
            String::from_str("Inbound")
        },
        PaymentDirection::Outbound => {
            proof {
                reveal_strlit("Outbound");
            }
            String::from_str("Outbound")
        },
    }
}

/// Renders a payment status for the wire.
pub fn status_string(s: &PaymentStatus) -> (r: String)
    ensures
        r@ == status_name(*s),
{
    match s {
        PaymentStatus::Pending => {
            proof {
                reveal_strlit("Pending");
            }
            String::from_str("Pending")
        },
        PaymentStatus::Succeeded => {
            proof {
                reveal_strlit("Succeeded");
            }
            String::from_str("Succeeded")
        },
        PaymentStatus::Failed => {
            proof {
                reveal_strlit("Failed");
            }
            String::from_str("Failed")
        },
    }
}

/// A payment as it goes out on the wire.
pub struct WrappedPaymentDetails {
    /// The payment hash, i.e., the hash of the preimage.
    pub hash: [u8; 32],
    /// The preimage used by the payment.
    pub preimage: Option<[u8; 32]>,
    /// The secret used by the payment.
    pub secret: Option<[u8; 32]>,
    /// The amount transferred.
    pub amount_msat: Option<u64>,
    /// `Inbound` or `Outbound`.
    pub direction: String,
    /// `Pending`, `Succeeded` or `Failed`.
    pub status: String,
}

/// `w` renders the engine's payment record `p`.
pub open spec fn is_payment_view(p: PaymentDetails, w: WrappedPaymentDetails) -> bool {
    &&& w.hash == p.hash.0
    &&& w.preimage == (match p.preimage {
        Some(x) => Some(x.0),
        None => None,
    })
    &&& w.secret == (match p.secret {
        Some(x) => Some(x.0),
        None => None,
    })
    &&& w.amount_msat == p.amount_msat
    &&& w.direction@ == direction_name(p.direction)
    &&& w.status@ == status_name(p.status)
}

impl WrappedPaymentDetails {
    /// The wire view of an engine payment record.
    pub fn from(payment_details: PaymentDetails) -> (r: WrappedPaymentDetails)
        ensures
            is_payment_view(payment_details, r),
    {
        Self::of(&payment_details)
    }

    /// The wire view of a borrowed engine payment record.
    pub fn of(payment_details: &PaymentDetails) -> (r: WrappedPaymentDetails)
        ensures
            is_payment_view(*payment_details, r),
    {
        let direction = direction_string(&payment_details.direction);
        let status = status_string(&payment_details.status);
        WrappedPaymentDetails {
            hash: payment_details.hash.0,
            preimage: match payment_details.preimage {
                Some(p) => Some(p.0),
                None => None,
            },
            secret: match payment_details.secret {
                Some(s) => Some(s.0),
                None => None,
            },
            amount_msat: payment_details.amount_msat,
            direction,
            status,
        }
    }
}

/// Maps every payment record to its wire view, in order.
pub fn payment_views(records: Vec<PaymentDetails>) -> (r: Vec<WrappedPaymentDetails>)
    ensures
        r@.len() == records@.len(),
        forall|i: int| 0 <= i < r@.len() ==> is_payment_view(#[trigger] records@[i], r@[i]),
{
    let mut out: Vec<WrappedPaymentDetails> = Vec::new();
    let mut i: usize = 0;
    let n = records.len();
    while i < n
        invariant
            n == records@.len(),
            0 <= i <= n,
            out@.len() == i,
            forall|j: int| 0 <= j < i ==> is_payment_view(#[trigger] records@[j], out@[j]),
        decreases n - i,
    {
        out.push(WrappedPaymentDetails::of(&records[i]));
        i = i + 1;
    }
    out
}

/// The fields of a channel that this service reports.
pub struct ChanDetails {
    pub channel_id: ChannelId,
    pub counterparty_node_id: PublicKey,
    pub channel_value_sats: u64,
    pub balance_msat: u64,
    pub outbound_capacity_msat: u64,
    pub inbound_capacity_msat: u64,
    pub is_outbound: bool,
    pub is_channel_ready: bool,
    pub is_usable: bool,
    pub is_public: bool,
}

/// `c` keeps the reported fields of the engine's channel record `d`.
pub open spec fn is_chan_view(d: ChannelDetails, c: ChanDetails) -> bool {
    &&& c.channel_id == d.channel_id
    &&& c.counterparty_node_id == d.counterparty_node_id
    &&& c.channel_value_sats == d.channel_value_sats
    &&& c.balance_msat == d.balance_msat
    &&& c.outbound_capacity_msat == d.outbound_capacity_msat
    &&& c.inbound_capacity_msat == d.inbound_capacity_msat
    &&& c.is_outbound == d.is_outbound
    &&& c.is_channel_ready == d.is_channel_ready
    &&& c.is_usable == d.is_usable
    &&& c.is_public == d.is_public
}

impl ChanDetails {
    /// The reported fields of an engine channel record.
    pub fn from(channel_details: ChannelDetails) -> (r: ChanDetails)
        ensures
            is_chan_view(channel_details, r),
    {
        Self::of(&channel_details)
    }

    /// The reported fields of a borrowed engine channel record.
    pub fn of(d: &ChannelDetails) -> (r: ChanDetails)
        ensures
            is_chan_view(*d, r),
    {
        ChanDetails {
            channel_id: ChannelId(d.channel_id.0),
            counterparty_node_id: d.counterparty_node_id,
            channel_value_sats: d.channel_value_sats,
            balance_msat: d.balance_msat,
            outbound_capacity_msat: d.outbound_capacity_msat,
            inbound_capacity_msat: d.inbound_capacity_msat,
            is_outbound: d.is_outbound,
            is_channel_ready: d.is_channel_ready,
            is_usable: d.is_usable,
            is_public: d.is_public,
        }
    }
}

/// Maps every channel record to its reported fields, in order.
pub fn channel_views(records: Vec<ChannelDetails>) -> (r: Vec<ChanDetails>)
    ensures
        r@.len() == records@.len(),
        forall|i: int| 0 <= i < r@.len() ==> is_chan_view(#[trigger] records@[i], r@[i]),
{
    let mut out: Vec<ChanDetails> = Vec::new();
    let mut i: usize = 0;
    let n = records.len();
    while i < n
        invariant
            n == records@.len(),
            0 <= i <= n,
            out@.len() == i,
            forall|j: int| 0 <= j < i ==> is_chan_view(#[trigger] records@[j], out@[j]),
        decreases n - i,
    {
        out.push(ChanDetails::of(&records[i]));
        i = i + 1;
    }
    out
}

/// A channel as it goes out on the wire: ids as text, amounts as `i64`.
pub struct Channel {
    pub channel_id: String,
    pub counterparty_node_id: String,
    pub channel_value_sats: i64,
    pub balance_msat: i64,
    pub outbound_capacity_msat: i64,
    pub inbound_capacity_msat: i64,
    pub is_outbound: bool,
    pub is_channel_ready: bool,
    pub is_usable: bool,
    pub is_public: bool,
}

impl Channel {
    /// The wire form of a channel; each amount is cast to `i64`, so that one
    /// above `i64::MAX` wraps to a negative value.
    pub fn from(chan_details: ChanDetails) -> (r: Channel)
        ensures
            r.channel_id@ == hex_text(chan_details.channel_id.0@),
            r.channel_value_sats == chan_details.channel_value_sats as i64,
            r.balance_msat == chan_details.balance_msat as i64,
            r.outbound_capacity_msat == chan_details.outbound_capacity_msat as i64,
            r.inbound_capacity_msat == chan_details.inbound_capacity_msat as i64,
            r.is_outbound == chan_details.is_outbound,
            r.is_channel_ready == chan_details.is_channel_ready,
            r.is_usable == chan_details.is_usable,
            r.is_public == chan_details.is_public,
    {
        Channel {
            channel_id: channel_id_string(&chan_details.channel_id),
            counterparty_node_id: public_key_string(&chan_details.counterparty_node_id),
            channel_value_sats: chan_details.channel_value_sats as i64,
            balance_msat: chan_details.balance_msat as i64,
            outbound_capacity_msat: chan_details.outbound_capacity_msat as i64,
            inbound_capacity_msat: chan_details.inbound_capacity_msat as i64,
            is_outbound: chan_details.is_outbound,
            is_channel_ready: chan_details.is_channel_ready,
            is_usable: chan_details.is_usable,
            is_public: chan_details.is_public,
        }
    }
}

/// A peer as this service reports it.
pub struct WrappedPeerDetails {
    /// The node id of the peer.
    pub node_id: PublicKey,
    /// The network address of the peer.
    pub address: String,
    /// Whether the engine reconnects to this peer after restarts.
    pub is_persisted: bool,
    /// Whether there is an active connection with the peer.
    pub is_connected: bool,
    /// The alias of the peer; the engine reports none, so it is empty.
    pub alias: String,
}

/// `w` keeps the reported fields of the engine's peer record `p`.
pub open spec fn is_peer_view(p: PeerDetails, w: WrappedPeerDetails) -> bool {
    &&& w.node_id == p.node_id
    &&& w.is_persisted == p.is_persisted
    &&& w.is_connected == p.is_connected
    &&& w.alias@ == Seq::<char>::empty()
}

impl WrappedPeerDetails {
    /// The reported fields of an engine peer record.
    pub fn from(peer_details: PeerDetails) -> (r: WrappedPeerDetails)
        ensures
            is_peer_view(peer_details, r),
    {
        Self::of(&peer_details)
    }

    /// The reported fields of a borrowed engine peer record.
    pub fn of(p: &PeerDetails) -> (r: WrappedPeerDetails)
        ensures
            is_peer_view(*p, r),
    {
        WrappedPeerDetails {
            node_id: p.node_id,
            address: socket_address_string(&p.address),
            alias: String::new(),
            is_persisted: p.is_persisted,
            is_connected: p.is_connected,
        }
    }
}

/// Maps every peer record to its reported fields, in order.
pub fn peer_views(records: Vec<PeerDetails>) -> (r: Vec<WrappedPeerDetails>)
    ensures
        r@.len() == records@.len(),
        forall|i: int| 0 <= i < r@.len() ==> is_peer_view(#[trigger] records@[i], r@[i]),
{
    let mut out: Vec<WrappedPeerDetails> = Vec::new();
    let mut i: usize = 0;
    let n = records.len();
    while i < n
        invariant
            n == records@.len(),
            0 <= i <= n,
            out@.len() == i,
            forall|j: int| 0 <= j < i ==> is_peer_view(#[trigger] records@[j], out@[j]),
        decreases n - i,
    {
        out.push(WrappedPeerDetails::of(&records[i]));
        i = i + 1;
    }
    out
}

/// A peer as it goes out on the wire.
pub struct Peer {
    pub address: String,
    pub node_id: String,
    pub is_persisted: bool,
    pub is_connected: bool,
    pub alias: String,
}

impl Peer {
    /// The wire form of a peer: its node id as text, the rest as it stands.
    pub fn from(peer_details: WrappedPeerDetails) -> (r: Peer)
        ensures
            r.address@ == peer_details.address@,
            r.is_persisted == peer_details.is_persisted,
            r.is_connected == peer_details.is_connected,
            r.alias@ == peer_details.alias@,
    {
        let node_id = public_key_string(&peer_details.node_id);
        Peer {
            address: peer_details.address,
            node_id,
            is_persisted: peer_details.is_persisted,
            is_connected: peer_details.is_connected,
            alias: peer_details.alias,
        }
    }
}

/// `r` renders the payment records `d`, one for one and in order.
pub open spec fn renders_payments(d: Seq<PaymentDetails>, r: Seq<WrappedPaymentDetails>) -> bool {
    d.len() == r.len() && forall|i: int| 0 <= i < d.len() ==> #[trigger] is_payment_view(d[i], r[i])
}

/// `r` keeps the reported fields of the channel records `d`, one for one
/// and in order.
pub open spec fn renders_channels(d: Seq<ChannelDetails>, r: Seq<ChanDetails>) -> bool {
    d.len() == r.len() && forall|i: int| 0 <= i < d.len() ==> #[trigger] is_chan_view(d[i], r[i])
}

/// `r` keeps the reported fields of the peer records `d`, one for one and
/// in order.
pub open spec fn renders_peers(d: Seq<PeerDetails>, r: Seq<WrappedPeerDetails>) -> bool {
    d.len() == r.len() && forall|i: int| 0 <= i < d.len() ==> #[trigger] is_peer_view(d[i], r[i])
}

} // verus!
