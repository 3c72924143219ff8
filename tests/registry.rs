use lnwallet::registry::Registry;
use lnwallet::server::MyWallet;

#[test]
fn new_registry_is_empty() {
    let r: Registry<u32> = Registry::new();
    assert_eq!(r.len(), 0);
    assert!(r.lookup(&"alice".to_string()).is_none());
}

#[test]
fn publish_then_lookup_returns_handle() {
    let mut r: Registry<u32> = Registry::new();
    r.publish("alice".to_string(), 7);
    assert_eq!(r.lookup(&"alice".to_string()), Some(&7));
    assert_eq!(r.len(), 1);
}

#[test]
fn second_publish_replaces_and_keeps_one_entry() {
    let mut r: Registry<u32> = Registry::new();
    r.publish("alice".to_string(), 1);
    r.publish("alice".to_string(), 2);
    assert_eq!(r.lookup(&"alice".to_string()), Some(&2));
    assert_eq!(r.len(), 1);
}

#[test]
fn restart_alice_binds_second_engine() {
    let mut r: Registry<&str> = Registry::new();
    r.publish("alice".to_string(), "engine from first seed path");
    r.publish("bob".to_string(), "bob engine");
    r.publish("alice".to_string(), "engine from second seed path");
    assert_eq!(r.len(), 2);
    assert_eq!(r.lookup(&"alice".to_string()), Some(&"engine from second seed path"));
    assert_eq!(r.lookup(&"bob".to_string()), Some(&"bob engine"));
}

#[test]
fn lookup_of_unknown_identity_is_none() {
    let mut r: Registry<u32> = Registry::new();
    r.publish("alice".to_string(), 1);
    assert!(r.lookup(&"carol".to_string()).is_none());
    assert!(r.lookup(&"alic".to_string()).is_none());
    assert!(r.lookup(&"".to_string()).is_none());
}

#[test]
fn many_identities_each_kept_once() {
    let mut r: Registry<usize> = Registry::new();
    for round in 0..3usize {
        for i in 0..20usize {
            r.publish(format!("node{}", i), round * 100 + i);
        }
    }
    assert_eq!(r.len(), 20);
    for i in 0..20usize {
        assert_eq!(r.lookup(&format!("node{}", i)), Some(&(200 + i)));
    }
}

#[test]
fn fresh_service_knows_no_node() {
    let w = MyWallet::new();
    assert!(w.node(&"alice".to_string()).is_none());
    assert_eq!(w.nodes.len(), 0);
}
