use std::str::FromStr;

use solana_signature::Signature;
use transaction_cache::keys::{slot_key, tx_key};
use transaction_cache::storage::{get_from_tree, save_to_tree, CacheDb};

const SIG: &str = "2T3MH4NS7odnBKf7H9N2MQpNg7z4uqVdrd8wsqNxSuVAx6ndWE8XYHkQFxQjMX2EtH4UExohFFLq49Rh35G1R6Yn";

fn temp_trees() -> (sled::Tree, sled::Tree) {
    let db = sled::Config::new().temporary(true).open().unwrap();
    (db.open_tree("transactions").unwrap(), db.open_tree("slots").unwrap())
}

fn sig_bytes(text: &str) -> [u8; 64] {
    <[u8; 64]>::from(Signature::from_str(text).unwrap())
}

#[test]
fn slot_key_is_decimal_text() {
    assert_eq!(slot_key(250000000), b"250000000".to_vec());
    assert_eq!(slot_key(0), b"0".to_vec());
    assert_eq!(slot_key(7), b"7".to_vec());
    assert_eq!(slot_key(10), b"10".to_vec());
    assert_eq!(slot_key(u64::MAX), u64::MAX.to_string().into_bytes());
}

#[test]
fn slot_keys_of_distinct_slots_differ() {
    assert_ne!(slot_key(1), slot_key(10));
    assert_ne!(slot_key(12), slot_key(21));
}

#[test]
fn tx_key_is_base58_text_of_signature() {
    let bytes = sig_bytes(SIG);
    assert_eq!(tx_key(&bytes), SIG.as_bytes().to_vec());
    let zero = [0u8; 64];
    assert_eq!(tx_key(&zero), Signature::from(zero).to_string().into_bytes());
    assert_ne!(tx_key(&zero), zero.to_vec());
}

#[test]
fn tree_read_after_write() {
    let (mut tree, _) = temp_trees();
    assert!(matches!(get_from_tree(&tree, b"k"), Ok(None)));
    assert!(save_to_tree(&mut tree, b"k", b"v1".to_vec()).is_ok());
    assert_eq!(get_from_tree(&tree, b"k").ok().unwrap(), Some(b"v1".to_vec()));
    assert!(save_to_tree(&mut tree, b"k", b"v2".to_vec()).is_ok());
    assert_eq!(get_from_tree(&tree, b"k").ok().unwrap(), Some(b"v2".to_vec()));
    assert!(matches!(get_from_tree(&tree, b"other"), Ok(None)));
}

#[test]
fn cache_stores_transactions_by_signature() {
    let (tx_tree, slot_tree) = temp_trees();
    let mut cache = CacheDb::new(tx_tree.clone(), slot_tree);
    let sig = sig_bytes(SIG);
    assert!(matches!(cache.cached_tx(&sig), Ok(None)));
    assert!(cache.store_tx(&sig, b"{\"slot\":5}".to_vec()).is_ok());
    assert_eq!(cache.cached_tx(&sig).ok().unwrap(), Some(b"{\"slot\":5}".to_vec()));
    // stored under the base58 text of the signature
    assert_eq!(tx_tree.get(SIG).unwrap().unwrap().to_vec(), b"{\"slot\":5}".to_vec());
    let other = [3u8; 64];
    assert!(matches!(cache.cached_tx(&other), Ok(None)));
    assert!(matches!(cache.cached_slot(5), Ok(None)));
    assert!(cache.save_cache().is_ok());
}

#[test]
fn cache_stores_blocks_by_slot() {
    let (tx_tree, slot_tree) = temp_trees();
    let mut cache = CacheDb::new(tx_tree, slot_tree.clone());
    assert!(cache.store_slot(250000000, b"block".to_vec()).is_ok());
    assert!(cache.store_slot(25, b"other".to_vec()).is_ok());
    assert_eq!(cache.cached_slot(250000000).ok().unwrap(), Some(b"block".to_vec()));
    assert_eq!(cache.cached_slot(25).ok().unwrap(), Some(b"other".to_vec()));
    assert!(matches!(cache.cached_slot(2500), Ok(None)));
    assert_eq!(slot_tree.get("250000000").unwrap().unwrap().to_vec(), b"block".to_vec());
    assert!(matches!(cache.cached_tx(&[0u8; 64]), Ok(None)));
}

#[test]
fn storing_one_transaction_keeps_the_others() {
    let (tx_tree, slot_tree) = temp_trees();
    let mut cache = CacheDb::new(tx_tree, slot_tree);
    let a = sig_bytes(SIG);
    let b = [9u8; 64];
    assert!(cache.store_tx(&a, b"A".to_vec()).is_ok());
    assert!(cache.store_tx(&b, b"B".to_vec()).is_ok());
    assert!(cache.store_tx(&a, b"A2".to_vec()).is_ok());
    assert_eq!(cache.cached_tx(&a).ok().unwrap(), Some(b"A2".to_vec()));
    assert_eq!(cache.cached_tx(&b).ok().unwrap(), Some(b"B".to_vec()));
}
