use ldk_node::bitcoin::secp256k1::PublicKey;
use ldk_node::lightning::ln::msgs::SocketAddress;
use ldk_node::lightning::ln::{ChannelId, PaymentHash, PaymentPreimage, PaymentSecret};
use ldk_node::{PaymentDetails, PaymentDirection, PaymentStatus, PeerDetails};
use lnwallet::views::{
    direction_string, payment_views, status_string, ChanDetails, Channel, Peer,
    WrappedPaymentDetails, WrappedPeerDetails,
};
use std::str::FromStr;

const KEY: &str = "0279be667ef9dcbbac55a06295ce870b07029bfcdb2dce28d959f2815b16f81798";

fn payment(direction: PaymentDirection, status: PaymentStatus) -> PaymentDetails {
    PaymentDetails {
        hash: PaymentHash([1u8; 32]),
        preimage: Some(PaymentPreimage([2u8; 32])),
        secret: None,
        amount_msat: Some(1000),
        direction,
        status,
    }
}

#[test]
fn direction_and_status_names() {
    assert_eq!(direction_string(&PaymentDirection::Inbound), "Inbound");
    assert_eq!(direction_string(&PaymentDirection::Outbound), "Outbound");
    assert_eq!(status_string(&PaymentStatus::Pending), "Pending");
    assert_eq!(status_string(&PaymentStatus::Succeeded), "Succeeded");
    assert_eq!(status_string(&PaymentStatus::Failed), "Failed");
}

#[test]
fn payment_view_keeps_fields() {
    let w = WrappedPaymentDetails::from(payment(PaymentDirection::Outbound, PaymentStatus::Succeeded));
    assert_eq!(w.hash, [1u8; 32]);
    assert_eq!(w.preimage, Some([2u8; 32]));
    assert_eq!(w.secret, None);
    assert_eq!(w.amount_msat, Some(1000));
    assert_eq!(w.direction, "Outbound");
    assert_eq!(w.status, "Succeeded");
}

#[test]
fn payment_views_keep_order() {
    let records = vec![
        payment(PaymentDirection::Inbound, PaymentStatus::Pending),
        payment(PaymentDirection::Outbound, PaymentStatus::Failed),
    ];
    let views = payment_views(records);
    assert_eq!(views.len(), 2);
    assert_eq!(views[0].direction, "Inbound");
    assert_eq!(views[0].status, "Pending");
    assert_eq!(views[1].direction, "Outbound");
    assert_eq!(views[1].status, "Failed");
    assert!(payment_views(vec![]).is_empty());
}

fn chan(value: u64) -> ChanDetails {
    let mut id = [0u8; 32];
    id[0] = 0xab;
    id[31] = 0x01;
    ChanDetails {
        channel_id: ChannelId(id),
        counterparty_node_id: PublicKey::from_str(KEY).unwrap(),
        channel_value_sats: value,
        balance_msat: 5,
        outbound_capacity_msat: u64::MAX,
        inbound_capacity_msat: 0,
        is_outbound: true,
        is_channel_ready: false,
        is_usable: true,
        is_public: false,
    }
}

#[test]
fn channel_wire_form_widens_amounts() {
    let c = Channel::from(chan(100_000));
    assert_eq!(c.channel_value_sats, 100_000i64);
    assert_eq!(c.balance_msat, 5i64);
    assert_eq!(c.outbound_capacity_msat, -1i64);
    assert_eq!(c.inbound_capacity_msat, 0i64);
    assert!(c.is_outbound);
    assert!(!c.is_channel_ready);
    assert!(c.is_usable);
    assert!(!c.is_public);
}

#[test]
fn channel_wire_form_writes_ids_as_hex() {
    let c = Channel::from(chan(1));
    let mut expected = String::from("ab");
    expected.push_str(&"00".repeat(30));
    expected.push_str("01");
    assert_eq!(c.channel_id, expected);
    assert_eq!(c.counterparty_node_id, KEY);
}

#[test]
fn peer_view_has_empty_alias() {
    let p = PeerDetails {
        node_id: PublicKey::from_str(KEY).unwrap(),
        address: SocketAddress::from_str("127.0.0.1:9735").unwrap(),
        is_persisted: true,
        is_connected: false,
    };
    let w = WrappedPeerDetails::from(p);
    assert_eq!(w.address, "127.0.0.1:9735");
    assert_eq!(w.alias, "");
    assert!(w.is_persisted);
    assert!(!w.is_connected);
    let wire = Peer::from(w);
    assert_eq!(wire.node_id, KEY);
    assert_eq!(wire.address, "127.0.0.1:9735");
    assert_eq!(wire.alias, "");
}
