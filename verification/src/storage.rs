//! The on-disk cache: two sled trees, one of transactions keyed by signature
//! and one of blocks keyed by slot. Records are stored as the bytes that the
//! caller serialised; this module decides under which key a record goes and
//! what a lookup answers.
use vstd::prelude::*;

use crate::keys::{slot_key, slot_key_spec, tx_key, tx_key_spec};

verus! {

#[verifier::external_type_specification]
#[verifier::external_body]
pub struct ExTree(sled::Tree);

#[verifier::external_type_specification]
#[verifier::external_body]
pub struct ExSledError(sled::Error);

/// What a sled tree holds: each key's bytes to the bytes stored under it.
/// (The model takes the tree handle as the only writer of its tree.)
pub uninterp spec fn tree_contents(tree: sled::Tree) -> Map<Seq<u8>, Seq<u8>>;

/// What the last successful flush through this tree handle guaranteed to be
/// on disk: the contents a crash or a restart recovers, at the least.
pub uninterp spec fn tree_durable(tree: sled::Tree) -> Map<Seq<u8>, Seq<u8>>;

/// The answer of a lookup in a map of records.
pub open spec fn lookup(entries: Map<Seq<u8>, Seq<u8>>, key: Seq<u8>) -> Option<Seq<u8>> {
    if entries.contains_key(key) {
        Some(entries[key])
    } else {
        None
    }
}

/// The view of an optional record.
pub open spec fn record_view(record: Option<Vec<u8>>) -> Option<Seq<u8>> {
    match record {
        Some(bytes) => Some(bytes@),
        None => None,
    }
}

/// Calls `sled::Tree::get`. Claimed: when sled answers, the answer is the
/// value the tree holds under the key, or `None` where it holds none. Nothing
/// is claimed of its errors.
#[verifier::external_body]
fn tree_get(tree: &sled::Tree, key: &[u8]) -> (result: Result<Option<Vec<u8>>, sled::Error>)
    ensures
        result matches Ok(found) ==> record_view(found) == lookup(tree_contents(*tree), key@),
{
    match tree.get(key) {
        Ok(found) => Ok(found.map(|value| value.to_vec())),
        Err(e) => Err(e),
    }
}

/// Calls `sled::Tree::insert`. Claimed: it writes no key but the given one;
/// when it succeeds, the tree holds the value under the key. Nothing is
/// claimed of the given key after an error.
#[verifier::external_body]
fn tree_insert(tree: &mut sled::Tree, key: &[u8], value: Vec<u8>) -> (result: Result<(), sled::Error>)
    ensures
        tree_contents(*final(tree)).remove(key@) == tree_contents(*old(tree)).remove(key@),
        result is Ok ==> tree_contents(*final(tree)) == tree_contents(*old(tree)).insert(key@, value@),
{
    match tree.insert(key, value) {
        Ok(_) => Ok(()),
        Err(e) => Err(e),
    }
}

/// Calls `sled::Tree::flush`, which writes the dirty buffers to disk and
/// leaves what the tree holds as it was. Claimed: when it succeeds, every
/// earlier write is on disk, so the durable contents are the contents.
/// Nothing is claimed of the number of bytes it reports.
#[verifier::external_body]
fn tree_flush(tree: &mut sled::Tree) -> (result: Result<usize, sled::Error>)
    ensures
        tree_contents(*final(tree)) == tree_contents(*old(tree)),
        result is Ok ==> tree_durable(*final(tree)) == tree_contents(*final(tree)),
{
    tree.flush()
}

/// Why the cache could not answer or store.
pub enum CacheError {
    /// sled reported an error.
    Storage(sled::Error),
}

/// Reads the record stored under `key`.
pub fn get_from_tree(tree: &sled::Tree, key: &[u8]) -> (result: Result<Option<Vec<u8>>, CacheError>)
    ensures
        result matches Ok(found) ==> record_view(found) == lookup(tree_contents(*tree), key@),
{
    match tree_get(tree, key) {
        Ok(found) => Ok(found),
        Err(e) => Err(CacheError::Storage(e)),
    }
}

/// Stores `value` under `key` and flushes the tree to disk. It succeeds only
/// where both the insert and the flush do; no other key is written either
/// way.
pub fn save_to_tree(tree: &mut sled::Tree, key: &[u8], value: Vec<u8>) -> (result: Result<(), CacheError>)
    ensures
        tree_contents(*final(tree)).remove(key@) == tree_contents(*old(tree)).remove(key@),
        result is Ok ==> tree_contents(*final(tree)) == tree_contents(*old(tree)).insert(key@, value@),
        result is Ok ==> tree_durable(*final(tree)) == tree_contents(*final(tree)),
{
    match tree_insert(tree, key, value) {
        Ok(()) => {},
        Err(e) => {
            return Err(CacheError::Storage(e));
        },
    }
    match tree_flush(tree) {
        Ok(_) => Ok(()),
        Err(e) => Err(CacheError::Storage(e)),
    }
}

/// The cache of transactions and blocks. Its two trees are to be distinct
/// trees of the database (the model takes a write to one to leave the other
/// as it was).
pub struct CacheDb {
    tx_tree: sled::Tree,
    slot_tree: sled::Tree,
}

impl CacheDb {
    /// The cached transactions, by the key of their signature.
    pub closed spec fn tx_entries(&self) -> Map<Seq<u8>, Seq<u8>> {
        tree_contents(self.tx_tree)
    }

    /// The cached blocks, by the key of their slot.
    pub closed spec fn slot_entries(&self) -> Map<Seq<u8>, Seq<u8>> {
        tree_contents(self.slot_tree)
    }

    /// What the last flush of the transaction tree left on disk.
    pub closed spec fn tx_durable_entries(&self) -> Map<Seq<u8>, Seq<u8>> {
        tree_durable(self.tx_tree)
    }

    /// What the last flush of the slot tree left on disk.
    pub closed spec fn slot_durable_entries(&self) -> Map<Seq<u8>, Seq<u8>> {
        tree_durable(self.slot_tree)
    }

    /// What the cache holds for the transaction with this signature.
    pub open spec fn tx_record(&self, sig: Seq<u8>) -> Option<Seq<u8>> {
        lookup(self.tx_entries(), tx_key_spec(sig))
    }

    /// What the cache holds for the block of this slot.
    pub open spec fn slot_record(&self, slot: u64) -> Option<Seq<u8>> {
        lookup(self.slot_entries(), slot_key_spec(slot))
    }

    /// What is on disk for the transaction with this signature.
    pub open spec fn tx_durable_record(&self, sig: Seq<u8>) -> Option<Seq<u8>> {
        lookup(self.tx_durable_entries(), tx_key_spec(sig))
    }

    /// What is on disk for the block of this slot.
    pub open spec fn slot_durable_record(&self, slot: u64) -> Option<Seq<u8>> {
        lookup(self.slot_durable_entries(), slot_key_spec(slot))
    }

    /// A cache over the given transaction and slot trees, which are to be
    /// distinct trees.
    pub fn new(tx_tree: sled::Tree, slot_tree: sled::Tree) -> (db: Self)
        ensures
            db.tx_entries() == tree_contents(tx_tree),
            db.slot_entries() == tree_contents(slot_tree),
    {
        CacheDb { tx_tree, slot_tree }
    }

    /// The stored record of the transaction with signature `sig`.
    pub fn cached_tx(&self, sig: &[u8; 64]) -> (result: Result<Option<Vec<u8>>, CacheError>)
        ensures
            result matches Ok(found) ==> record_view(found) == self.tx_record(sig@),
    {
        let key = tx_key(sig);
        get_from_tree(&self.tx_tree, key.as_slice())
    }

    /// Stores the record of the transaction with signature `sig` and flushes.
    pub fn store_tx(&mut self, sig: &[u8; 64], record: Vec<u8>) -> (result: Result<(), CacheError>)
        ensures
            final(self).slot_entries() == old(self).slot_entries(),
            final(self).tx_entries().remove(tx_key_spec(sig@)) == old(self).tx_entries().remove(
                tx_key_spec(sig@),
            ),
            result is Ok ==> final(self).tx_entries() == old(self).tx_entries().insert(
                tx_key_spec(sig@),
                record@,
            ),
            result is Ok ==> final(self).tx_durable_entries() == final(self).tx_entries(),
    {
        let key = tx_key(sig);
        save_to_tree(&mut self.tx_tree, key.as_slice(), record)
    }

    /// The stored record of the block of `slot`.
    pub fn cached_slot(&self, slot: u64) -> (result: Result<Option<Vec<u8>>, CacheError>)
        ensures
            result matches Ok(found) ==> record_view(found) == self.slot_record(slot),
    {
        let key = slot_key(slot);
        get_from_tree(&self.slot_tree, key.as_slice())
    }

    /// Stores the record of the block of `slot` and flushes.
    pub fn store_slot(&mut self, slot: u64, record: Vec<u8>) -> (result: Result<(), CacheError>)
        ensures
            final(self).tx_entries() == old(self).tx_entries(),
            final(self).slot_entries().remove(slot_key_spec(slot)) == old(self).slot_entries().remove(
                slot_key_spec(slot),
            ),
            result is Ok ==> final(self).slot_entries() == old(self).slot_entries().insert(
                slot_key_spec(slot),
                record@,
            ),
            result is Ok ==> final(self).slot_durable_entries() == final(self).slot_entries(),
    {
        let key = slot_key(slot);
        save_to_tree(&mut self.slot_tree, key.as_slice(), record)
    }

    /// Flushes both trees to disk, the transaction tree first. Succeeds only
    /// where both flushes do; what the cache holds is unchanged either way.
    pub fn save_cache(&mut self) -> (result: Result<(), CacheError>)
        ensures
            final(self).tx_entries() == old(self).tx_entries(),
            final(self).slot_entries() == old(self).slot_entries(),
            result is Ok ==> final(self).tx_durable_entries() == final(self).tx_entries(),
            result is Ok ==> final(self).slot_durable_entries() == final(self).slot_entries(),
    {
        match tree_flush(&mut self.tx_tree) {
            Ok(_) => {},
            Err(e) => {
                return Err(CacheError::Storage(e));
            },
        }
        match tree_flush(&mut self.slot_tree) {
            Ok(_) => Ok(()),
            Err(e) => Err(CacheError::Storage(e)),
        }
    }
}

/// A transaction stored in the cache is what a later lookup of the same
/// signature finds, whatever was stored before.
pub proof fn law_tx_read_after_write(before: CacheDb, after: CacheDb, sig: Seq<u8>, record: Seq<u8>)
    requires
        after.tx_entries() == before.tx_entries().insert(tx_key_spec(sig), record),
    ensures
        after.tx_record(sig) == Some(record),
{
}

/// Storing a transaction leaves the record of every signature with another
/// key as it was.
pub proof fn law_tx_write_keeps_others(
    before: CacheDb,
    after: CacheDb,
    sig: Seq<u8>,
    record: Seq<u8>,
    other: Seq<u8>,
)
    requires
        after.tx_entries() == before.tx_entries().insert(tx_key_spec(sig), record),
        tx_key_spec(other) != tx_key_spec(sig),
    ensures
        after.tx_record(other) == before.tx_record(other),
{
}

/// A block stored in the cache is what a later lookup of the same slot finds.
pub proof fn law_slot_read_after_write(before: CacheDb, after: CacheDb, slot: u64, record: Seq<u8>)
    requires
        after.slot_entries() == before.slot_entries().insert(slot_key_spec(slot), record),
    ensures
        after.slot_record(slot) == Some(record),
{
}

/// Storing the block of one slot leaves the record of every other slot as
/// it was.
pub proof fn law_slot_write_keeps_others(
    before: CacheDb,
    after: CacheDb,
    slot: u64,
    record: Seq<u8>,
    other: u64,
)
    requires
        after.slot_entries() == before.slot_entries().insert(slot_key_spec(slot), record),
        other != slot,
    ensures
        after.slot_record(other) == before.slot_record(other),
{
    crate::keys::law_slot_keys_distinct(other, slot);
}

/// A transaction stored with success is on disk: what the last flush left
/// there holds it, so a restart finds it.
pub proof fn law_stored_tx_is_durable(before: CacheDb, after: CacheDb, sig: Seq<u8>, record: Seq<u8>)
    requires
        after.tx_entries() == before.tx_entries().insert(tx_key_spec(sig), record),
        after.tx_durable_entries() == after.tx_entries(),
    ensures
        after.tx_durable_record(sig) == Some(record),
{
}

/// A block stored with success is on disk: what the last flush left there
/// holds it, so a restart finds it.
pub proof fn law_stored_slot_is_durable(before: CacheDb, after: CacheDb, slot: u64, record: Seq<u8>)
    requires
        after.slot_entries() == before.slot_entries().insert(slot_key_spec(slot), record),
        after.slot_durable_entries() == after.slot_entries(),
    ensures
        after.slot_durable_record(slot) == Some(record),
{
}

} // verus!
