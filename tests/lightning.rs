use ldk_node::lightning::ln::{ChannelId, PaymentHash};
use ldk_node::{Network, NodeError};
use lnwallet::config::{NodeConf, WalletConfig};
use lnwallet::lightning::{
    amount_or_zero, invoice_or_none, build_node, publish_built, start_outcome, log_dir_of, node_conf, channel_id_from_text, close_channel, connect_to_node,
    create_invoice, disconnect_peer, get_esplora_address, get_node_id, get_our_address,
    init_lazy, is_node_running, list_channels, list_payments, list_peers, new_onchain_address,
    open_channel, pay_invoice, push_amount, sent_hash, spendable_on_chain, stop_node, succeeded,
    text_or_empty, total_onchain_balance,
};
use lnwallet::registry::Registry;

const KEY: &str = "0279be667ef9dcbbac55a06295ce870b07029bfcdb2dce28d959f2815b16f81798";

#[test]
fn push_of_zero_or_one_is_no_push() {
    assert_eq!(push_amount(0), None);
    assert_eq!(push_amount(1), None);
    assert_eq!(push_amount(1), push_amount(0));
}

#[test]
fn push_of_two_is_a_push() {
    assert_eq!(push_amount(2), Some(2));
    assert_eq!(push_amount(u64::MAX), Some(u64::MAX));
}

#[test]
fn unknown_node_gives_negative_results() {
    assert_eq!(get_node_id(None), "");
    assert!(!stop_node(None));
    assert!(!is_node_running(None));
    assert_eq!(new_onchain_address(None), "");
    assert!(!close_channel(None, KEY.to_string(), ChannelId([0u8; 32])));
    assert!(!open_channel(None, KEY.to_string(), "127.0.0.1:9735".to_string(), 100_000, 2, true));
    assert!(list_payments(None).is_empty());
    assert!(list_channels(None).is_empty());
    assert!(list_peers(None).is_empty());
    assert_eq!(create_invoice(None, 1000, "desc", 3600), None);
    assert_eq!(pay_invoice(None, "lnbc1".to_string()), None);
    assert!(!disconnect_peer(None, KEY.to_string()));
    assert!(!connect_to_node(None, KEY.to_string(), "127.0.0.1:9735".to_string()));
    assert_eq!(spendable_on_chain(None), 0);
    assert_eq!(total_onchain_balance(None), 0);
}

#[test]
fn engine_outcomes_map_to_sentinels() {
    assert!(succeeded(Ok(())));
    assert!(!succeeded(Err(NodeError::NotRunning)));
    assert_eq!(amount_or_zero(Ok(42)), 42);
    assert_eq!(amount_or_zero(Err(NodeError::InsufficientFunds)), 0);
    assert_eq!(text_or_empty(Ok("tb1qaddress".to_string())), "tb1qaddress");
    assert_eq!(text_or_empty(Err(NodeError::NotRunning)), "");
    assert_eq!(sent_hash(Ok(PaymentHash([9u8; 32]))), Some([9u8; 32]));
    assert_eq!(sent_hash(Err(NodeError::DuplicatePayment)), None);
    assert_eq!(invoice_or_none(Err(NodeError::InvoiceCreationFailed)), None);
}


fn wallet_config() -> WalletConfig {
    WalletConfig {
        listening_address: "127.0.0.1:9735".to_string(),
        esplora_address: "https://blockstream.info/testnet/api".to_string(),
    }
}

#[test]
fn addresses_from_wallet_settings() {
    let c = wallet_config();
    assert_eq!(get_our_address(Some(&c)), "127.0.0.1:9735");
    assert_eq!(get_esplora_address(Some(&c)), "https://blockstream.info/testnet/api");
    assert_eq!(get_our_address(None), "");
    assert_eq!(get_esplora_address(None), "");
}

#[test]
fn channel_id_needs_exactly_32_bytes() {
    let text = "0123456789abcdef0123456789abcdef";
    let id = channel_id_from_text(text).unwrap();
    assert_eq!(id.0.to_vec(), text.as_bytes().to_vec());
    assert!(channel_id_from_text("0123456789abcdef0123456789abcde").is_none());
    assert!(channel_id_from_text("0123456789abcdef0123456789abcdef0").is_none());
    assert!(channel_id_from_text("").is_none());
}

fn conf(listening_address: &str, seed: Vec<u8>) -> NodeConf {
    NodeConf {
        network: Network::Testnet,
        storage_dir: "/nonexistent/lnwallet-test".to_string(),
        listening_address: listening_address.to_string(),
        seed,
        esplora_address: "https://blockstream.info/testnet/api".to_string(),
    }
}

#[test]
fn malformed_listening_address_is_refused() {
    let r = build_node(&conf("not an address", vec![0u8; 64]));
    assert!(r.is_err());
}

#[test]
fn short_seed_is_refused() {
    let r = build_node(&conf("127.0.0.1:9735", vec![0u8; 3]));
    assert!(r.is_err());
}

#[test]
fn failed_build_leaves_registry_unchanged() {
    let mut nodes = Registry::new();
    let key = "/nonexistent/lnwallet-test".to_string();
    let (ok, msg) = init_lazy(&mut nodes, key.clone(), Err("invalid seed".to_string()));
    assert!(!ok);
    assert_eq!(msg, "invalid seed");
    assert_eq!(nodes.len(), 0);
    assert!(!is_node_running(nodes.lookup(&key)));
    let (ok, msg) = publish_built(&mut nodes, key, Err("no store".to_string()));
    assert!(!ok);
    assert_eq!(msg, "no store");
    assert_eq!(nodes.len(), 0);
}

#[test]
fn well_formed_settings_configure_a_builder() {
    assert!(build_node(&conf("127.0.0.1:9735", vec![0u8; 64])).is_ok());
}

#[test]
fn start_outcome_maps_engine_result() {
    assert_eq!(start_outcome(Ok(())), (true, String::new()));
    let (ok, msg) = start_outcome(Err(NodeError::AlreadyRunning));
    assert!(!ok);
    assert!(!msg.is_empty());
}

#[test]
fn empty_storage_dir_is_refused() {
    let mut c = conf("127.0.0.1:9735", vec![0u8; 64]);
    c.storage_dir = String::new();
    assert!(build_node(&c).is_err());
}

#[test]
fn log_dir_lies_under_storage_dir() {
    assert_eq!(log_dir_of(&"/data/alice/ldk".to_string()), "/data/alice/ldk/logs");
    assert_eq!(log_dir_of(&"rel".to_string()), "rel/logs");
}

#[test]
fn node_conf_uses_test_network_and_wallet_addresses() {
    let c = node_conf(vec![7u8; 64], &wallet_config(), "/data/alice/ldk".to_string());
    assert_eq!(c.network, Network::Testnet);
    assert_eq!(c.seed, vec![7u8; 64]);
    assert_eq!(c.storage_dir, "/data/alice/ldk");
    assert_eq!(c.listening_address, "127.0.0.1:9735");
    assert_eq!(c.esplora_address, "https://blockstream.info/testnet/api");
}

#[test]
fn wallet_start_refuses_short_seed() {
    let r = lnwallet::lightning::start_node(
        vec![0u8; 10],
        &wallet_config(),
        "/nonexistent/lnwallet-test".to_string(),
    );
    assert!(r.is_err());
    let r = lnwallet::lightning::start_node(
        vec![0u8; 64],
        &wallet_config(),
        "/nonexistent/lnwallet-test".to_string(),
    );
    assert!(r.is_ok());
}
