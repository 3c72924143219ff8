use ldk_node::bitcoin::secp256k1::PublicKey;
use ldk_node::lightning::ln::msgs::SocketAddress;
use lnwallet::requests::{channel_opening, peer_connection};
use std::str::FromStr;

const KEY: &str = "0279be667ef9dcbbac55a06295ce870b07029bfcdb2dce28d959f2815b16f81798";

fn key() -> PublicKey {
    PublicKey::from_str(KEY).unwrap()
}

fn address() -> SocketAddress {
    SocketAddress::from_str("127.0.0.1:9735").unwrap()
}

#[test]
fn opening_keeps_amount_and_flag() {
    let o = channel_opening(key(), address(), 100_000, 0, true);
    assert_eq!(o.node_id, key());
    assert_eq!(o.address, address());
    assert_eq!(o.channel_amount_sats, 100_000);
    assert_eq!(o.push_to_counterparty_msat, None);
    assert!(o.announce_channel);
}

#[test]
fn opening_push_of_one_is_no_push_and_two_is_pushed() {
    assert_eq!(channel_opening(key(), address(), 1, 1, false).push_to_counterparty_msat, None);
    let o = channel_opening(key(), address(), 1, 2, false);
    assert_eq!(o.push_to_counterparty_msat, Some(2));
    assert!(!o.announce_channel);
}

#[test]
fn peer_connection_is_remembered() {
    let c = peer_connection(key(), address());
    assert!(c.persist);
    assert_eq!(c.node_id, key());
    assert_eq!(c.address, address());
}
