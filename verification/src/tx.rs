//! Transactions and blocks as the cache hands them out, holding as plain
//! values what the library reads of them: whether a transaction failed, the
//! account keys of a JSON-encoded transaction, and the transactions of a
//! block.
use vstd::prelude::*;

use crate::codec::{parse_pubkey, pubkey_from_base58};

verus! {

/// The status part of a transaction's meta.
pub struct UiTransactionStatusMeta {
    /// The error the transaction failed with, as text; `None` where it
    /// succeeded.
    pub err: Option<String>,
}

/// The account keys of a raw (unparsed) message, base58 encoded.
pub struct UiRawMessage {
    pub account_keys: Vec<String>,
}

/// The message of a JSON-encoded transaction.
pub enum UiMessage {
    Parsed,
    Raw(UiRawMessage),
}

/// A JSON-encoded transaction.
pub struct UiTransaction {
    pub signatures: Vec<String>,
    pub message: UiMessage,
}

/// A transaction in one of the encodings the RPC node offers.
pub enum EncodedTransaction {
    LegacyBinary(String),
    Binary(String),
    Json(UiTransaction),
    Accounts,
}

/// A transaction with its status meta.
pub struct EncodedTransactionWithStatusMeta {
    pub transaction: EncodedTransaction,
    pub meta: Option<UiTransactionStatusMeta>,
}

/// A confirmed transaction as the RPC node answers it.
pub struct EncodedConfirmedTransactionWithStatusMeta {
    pub slot: u64,
    pub transaction: EncodedTransactionWithStatusMeta,
    pub block_time: Option<i64>,
}

/// A transaction as the cache stores it.
pub struct TxDetailLocal {
    pub slot: u64,
    pub transaction: EncodedTransactionWithStatusMeta,
    pub block_time: Option<i64>,
}

/// A block as the RPC node answers it.
pub struct UiConfirmedBlock {
    pub previous_blockhash: String,
    pub blockhash: String,
    pub parent_slot: u64,
    pub transactions: Option<Vec<EncodedTransactionWithStatusMeta>>,
    pub signatures: Option<Vec<String>>,
    pub block_time: Option<i64>,
    pub block_height: Option<u64>,
}

/// The value of a message, its lists taken as sequences.
pub enum UiMessageView {
    Parsed,
    Raw(Seq<String>),
}

/// The value of a JSON-encoded transaction.
pub struct UiTransactionView {
    pub signatures: Seq<String>,
    pub message: UiMessageView,
}

/// The value of an encoded transaction.
pub enum EncodedTransactionView {
    LegacyBinary(String),
    Binary(String),
    Json(UiTransactionView),
    Accounts,
}

/// The value of a transaction with its status meta.
pub struct TxWithMetaView {
    pub transaction: EncodedTransactionView,
    pub meta: Option<UiTransactionStatusMeta>,
}

/// The value of a confirmed transaction.
pub struct ConfirmedTxView {
    pub slot: u64,
    pub transaction: TxWithMetaView,
    pub block_time: Option<i64>,
}

impl View for UiMessage {
    type V = UiMessageView;

    open spec fn view(&self) -> UiMessageView {
        match self {
            UiMessage::Parsed => UiMessageView::Parsed,
            UiMessage::Raw(raw) => UiMessageView::Raw(raw.account_keys@),
        }
    }
}

impl View for UiTransaction {
    type V = UiTransactionView;

    open spec fn view(&self) -> UiTransactionView {
        UiTransactionView { signatures: self.signatures@, message: self.message@ }
    }
}

impl View for EncodedTransaction {
    type V = EncodedTransactionView;

    open spec fn view(&self) -> EncodedTransactionView {
        match self {
            EncodedTransaction::LegacyBinary(s) => EncodedTransactionView::LegacyBinary(*s),
            EncodedTransaction::Binary(s) => EncodedTransactionView::Binary(*s),
            EncodedTransaction::Json(t) => EncodedTransactionView::Json(t@),
            EncodedTransaction::Accounts => EncodedTransactionView::Accounts,
        }
    }
}

impl View for EncodedTransactionWithStatusMeta {
    type V = TxWithMetaView;

    open spec fn view(&self) -> TxWithMetaView {
        TxWithMetaView { transaction: self.transaction@, meta: self.meta }
    }
}

impl View for EncodedConfirmedTransactionWithStatusMeta {
    type V = ConfirmedTxView;

    open spec fn view(&self) -> ConfirmedTxView {
        ConfirmedTxView { slot: self.slot, transaction: self.transaction@, block_time: self.block_time }
    }
}

impl View for TxDetailLocal {
    type V = ConfirmedTxView;

    open spec fn view(&self) -> ConfirmedTxView {
        ConfirmedTxView { slot: self.slot, transaction: self.transaction@, block_time: self.block_time }
    }
}

fn clone_strings(v: &Vec<String>) -> (r: Vec<String>)
    ensures
        r@ == v@,
{
    let mut r: Vec<String> = Vec::new();
    let mut i: usize = 0;
    while i < v.len()
        invariant
            0 <= i <= v.len(),
            r@ == v@.take(i as int),
        decreases v.len() - i,
    {
        r.push(v[i].clone());
        proof {
            assert(v@.take(i + 1) =~= v@.take(i as int).push(v@[i as int]));
        }
        i = i + 1;
    }
    proof {
        assert(v@.take(v.len() as int) =~= v@);
    }
    r
}

fn clone_text(s: &Option<String>) -> (r: Option<String>)
    ensures
        r == *s,
{
    match s {
        Some(t) => Some(t.clone()),
        None => None,
    }
}

impl Clone for UiTransactionStatusMeta {
    fn clone(&self) -> (r: Self)
        ensures
            r == *self,
    {
        UiTransactionStatusMeta { err: clone_text(&self.err) }
    }
}

impl Clone for UiMessage {
    fn clone(&self) -> (r: Self)
        ensures
            r@ == self@,
    {
        match self {
            UiMessage::Parsed => UiMessage::Parsed,
            UiMessage::Raw(raw) => UiMessage::Raw(UiRawMessage { account_keys: clone_strings(&raw.account_keys) }),
        }
    }
}

impl Clone for UiTransaction {
    fn clone(&self) -> (r: Self)
        ensures
            r@ == self@,
    {
        UiTransaction { signatures: clone_strings(&self.signatures), message: self.message.clone() }
    }
}

impl Clone for EncodedTransaction {
    fn clone(&self) -> (r: Self)
        ensures
            r@ == self@,
    {
        match self {
            EncodedTransaction::LegacyBinary(s) => EncodedTransaction::LegacyBinary(s.clone()),
            EncodedTransaction::Binary(s) => EncodedTransaction::Binary(s.clone()),
            EncodedTransaction::Json(t) => EncodedTransaction::Json(t.clone()),
            EncodedTransaction::Accounts => EncodedTransaction::Accounts,
        }
    }
}

impl Clone for EncodedTransactionWithStatusMeta {
    fn clone(&self) -> (r: Self)
        ensures
            r@ == self@,
    {
        let meta = match &self.meta {
            Some(m) => Some(m.clone()),
            None => None,
        };
        EncodedTransactionWithStatusMeta { transaction: self.transaction.clone(), meta }
    }
}

/// Whether a transaction has a status meta that records no error.
pub open spec fn tx_succeeded(tx: EncodedTransactionWithStatusMeta) -> bool {
    tx.meta matches Some(m) && m.err is None
}

impl TxDetailLocal {
    /// Whether the transaction succeeded: it has a status meta and the meta
    /// records no error.
    pub fn succeeded(&self) -> (ok: bool)
        ensures
            ok == tx_succeeded(self.transaction),
    {
        match &self.transaction.meta {
            Some(meta) => meta.err.is_none(),
            None => false,
        }
    }
}

impl From<EncodedConfirmedTransactionWithStatusMeta> for TxDetailLocal {
    fn from(e: EncodedConfirmedTransactionWithStatusMeta) -> (d: Self) {
        TxDetailLocal { slot: e.slot, transaction: e.transaction, block_time: e.block_time }
    }
}

impl vstd::std_specs::convert::FromSpecImpl<EncodedConfirmedTransactionWithStatusMeta> for TxDetailLocal {
    open spec fn obeys_from_spec() -> bool {
        true
    }

    open spec fn from_spec(e: EncodedConfirmedTransactionWithStatusMeta) -> Self {
        TxDetailLocal { slot: e.slot, transaction: e.transaction, block_time: e.block_time }
    }
}

impl From<TxDetailLocal> for EncodedConfirmedTransactionWithStatusMeta {
    fn from(l: TxDetailLocal) -> (e: Self) {
        EncodedConfirmedTransactionWithStatusMeta { slot: l.slot, transaction: l.transaction, block_time: l.block_time }
    }
}

impl vstd::std_specs::convert::FromSpecImpl<TxDetailLocal> for EncodedConfirmedTransactionWithStatusMeta {
    open spec fn obeys_from_spec() -> bool {
        true
    }

    open spec fn from_spec(l: TxDetailLocal) -> Self {
        EncodedConfirmedTransactionWithStatusMeta { slot: l.slot, transaction: l.transaction, block_time: l.block_time }
    }
}

/// A cached transaction, turned into the RPC node's form and back, is the
/// same transaction, and so is the other way round.
pub proof fn law_detail_round_trip(d: TxDetailLocal, e: EncodedConfirmedTransactionWithStatusMeta)
    ensures
        <TxDetailLocal as vstd::std_specs::convert::FromSpec<EncodedConfirmedTransactionWithStatusMeta>>::from_spec(
            <EncodedConfirmedTransactionWithStatusMeta as vstd::std_specs::convert::FromSpec<TxDetailLocal>>::from_spec(d),
        ) == d,
        <EncodedConfirmedTransactionWithStatusMeta as vstd::std_specs::convert::FromSpec<TxDetailLocal>>::from_spec(
            <TxDetailLocal as vstd::std_specs::convert::FromSpec<EncodedConfirmedTransactionWithStatusMeta>>::from_spec(e),
        ) == e,
{
}

/// A cached transaction is its own detail type under another name.
pub type TxDetail = TxDetailLocal;

/// The account keys listed by a transaction: those of a raw message of a
/// JSON-encoded transaction, none otherwise.
pub open spec fn listed_account_keys(tx: EncodedTransactionWithStatusMeta) -> Seq<String> {
    match tx.transaction {
        EncodedTransaction::Json(t) => match t.message {
            UiMessage::Raw(raw) => raw.account_keys@,
            UiMessage::Parsed => Seq::empty(),
        },
        _ => Seq::empty(),
    }
}

/// Whether every key parses as a public key.
pub open spec fn keys_parse(keys: Seq<String>) -> bool {
    forall|i: int| 0 <= i < keys.len() ==> (#[trigger] pubkey_from_base58(keys[i]@)) is Some
}

/// The bytes of each key.
pub open spec fn parsed_keys(keys: Seq<String>) -> Seq<Seq<u8>> {
    keys.map_values(|k: String| pubkey_from_base58(k@)->0)
}

/// The bytes of each public key.
pub open spec fn key_views(keys: Seq<[u8; 32]>) -> Seq<Seq<u8>> {
    keys.map_values(|k: [u8; 32]| k@)
}

fn listed_keys_of(tx: &EncodedTransactionWithStatusMeta) -> (keys: Option<&Vec<String>>)
    ensures
        match keys {
            Some(k) => k@ == listed_account_keys(*tx),
            None => listed_account_keys(*tx).len() == 0,
        },
{
    match &tx.transaction {
        EncodedTransaction::Json(t) => match &t.message {
            UiMessage::Raw(raw) => Some(&raw.account_keys),
            UiMessage::Parsed => None,
        },
        _ => None,
    }
}

fn all_keys_parse(tx: &EncodedTransactionWithStatusMeta) -> (ok: bool)
    ensures
        ok == keys_parse(listed_account_keys(*tx)),
{
    match listed_keys_of(tx) {
        Some(keys) => {
            let mut i: usize = 0;
            while i < keys.len()
                invariant
                    0 <= i <= keys.len(),
                    keys@ == listed_account_keys(*tx),
                    forall|j: int| 0 <= j < i ==> (#[trigger] pubkey_from_base58(keys@[j]@)) is Some,
                decreases keys.len() - i,
            {
                if parse_pubkey(keys[i].as_str()).is_none() {
                    return false;
                }
                i = i + 1;
            }
            true
        },
        None => true,
    }
}

fn accounts_of(tx: &EncodedTransactionWithStatusMeta) -> (accounts: Vec<[u8; 32]>)
    requires
        keys_parse(listed_account_keys(*tx)),
    ensures
        key_views(accounts@) == parsed_keys(listed_account_keys(*tx)),
{
    let mut accounts: Vec<[u8; 32]> = Vec::new();
    match listed_keys_of(tx) {
        Some(keys) => {
            let mut i: usize = 0;
            while i < keys.len()
                invariant
                    0 <= i <= keys.len(),
                    keys@ == listed_account_keys(*tx),
                    keys_parse(keys@),
                    key_views(accounts@) == parsed_keys(keys@.take(i as int)),
                decreases keys.len() - i,
            {
                assert(pubkey_from_base58(keys@[i as int]@) is Some);
                let key = parse_pubkey(keys[i].as_str()).unwrap();
                let ghost before_push = accounts@;
                accounts.push(key);
                proof {
                    assert(key_views(accounts@) =~= key_views(before_push).push(key@));
                    assert(parsed_keys(keys@.take(i + 1)) =~= parsed_keys(keys@.take(i as int)).push(
                        key@,
                    ));
                }
                i = i + 1;
            }
            proof {
                assert(keys@.take(keys.len() as int) =~= keys@);
            }
        },
        None => {
            proof {
                assert(key_views(accounts@) =~= parsed_keys(listed_account_keys(*tx)));
            }
        },
    }
    accounts
}

/// The accounts a transaction touches.
pub trait GetAccounts {
    /// The account keys the transaction lists.
    spec fn account_keys(&self) -> Seq<String>;

    /// Whether every listed key parses as a public key.
    fn accounts_parse(&self) -> (ok: bool)
        ensures
            ok == keys_parse(self.account_keys()),
    ;

    /// The listed account keys as public keys, in order.
    fn accounts(&self) -> (accounts: Vec<[u8; 32]>)
        requires
            keys_parse(self.account_keys()),
        ensures
            key_views(accounts@) == parsed_keys(self.account_keys()),
    ;
}

impl GetAccounts for EncodedConfirmedTransactionWithStatusMeta {
    open spec fn account_keys(&self) -> Seq<String> {
        listed_account_keys(self.transaction)
    }

    fn accounts_parse(&self) -> (ok: bool) {
        all_keys_parse(&self.transaction)
    }

    fn accounts(&self) -> (accounts: Vec<[u8; 32]>) {
        accounts_of(&self.transaction)
    }
}

impl GetAccounts for TxDetailLocal {
    open spec fn account_keys(&self) -> Seq<String> {
        listed_account_keys(self.transaction)
    }

    fn accounts_parse(&self) -> (ok: bool) {
        all_keys_parse(&self.transaction)
    }

    fn accounts(&self) -> (accounts: Vec<[u8; 32]>) {
        accounts_of(&self.transaction)
    }
}

/// The listed accounts of a transaction where every key parses, `None` where
/// one does not.
pub fn try_accounts<T: GetAccounts>(item: &T) -> (accounts: Option<Vec<[u8; 32]>>)
    ensures
        accounts is Some <==> keys_parse(item.account_keys()),
        accounts matches Some(a) ==> key_views(a@) == parsed_keys(item.account_keys()),
{
    if item.accounts_parse() {
        Some(item.accounts())
    } else {
        None
    }
}

/// A sequence of transactions, read by index.
pub trait TxSequence {
    /// How many transactions there are.
    spec fn tx_total(&self) -> nat;

    /// The `i`-th transaction.
    spec fn tx_value(&self, i: int) -> ConfirmedTxView;

    /// The `i`-th transaction, or `None` past the end.
    fn tx_at(&self, i: usize) -> (tx: Option<EncodedConfirmedTransactionWithStatusMeta>)
        ensures
            tx is Some <==> i < self.tx_total(),
            tx matches Some(t) ==> t@ == self.tx_value(i as int),
    ;

    /// How many transactions there are.
    fn tx_count(&self) -> (n: usize)
        ensures
            n == self.tx_total(),
    ;
}

/// The block's transactions (none where it lists none).
pub open spec fn block_txs(block: UiConfirmedBlock) -> Seq<EncodedTransactionWithStatusMeta> {
    match block.transactions {
        Some(txs) => txs@,
        None => Seq::empty(),
    }
}

impl TxSequence for (u64, UiConfirmedBlock) {
    open spec fn tx_total(&self) -> nat {
        block_txs(self.1).len()
    }

    open spec fn tx_value(&self, i: int) -> ConfirmedTxView {
        ConfirmedTxView { slot: self.0, transaction: block_txs(self.1)[i]@, block_time: self.1.block_time }
    }

    fn tx_at(&self, i: usize) -> (tx: Option<EncodedConfirmedTransactionWithStatusMeta>) {
        match &self.1.transactions {
            Some(txs) => {
                if i < txs.len() {
                    let transaction = txs[i].clone();
                    Some(
                        EncodedConfirmedTransactionWithStatusMeta {
                            slot: self.0,
                            transaction,
                            block_time: self.1.block_time,
                        },
                    )
                } else {
                    None
                }
            },
            None => None,
        }
    }

    fn tx_count(&self) -> (n: usize) {
        match &self.1.transactions {
            Some(txs) => txs.len(),
            None => 0,
        }
    }
}

/// Reading the `i`-th transaction of a block gives that transaction as the
/// block holds it, its status meta included, with the block's slot and block
/// time; so whether it succeeded is kept too.
pub proof fn law_block_tx_kept_whole(
    slot: u64,
    block: UiConfirmedBlock,
    i: int,
    read: EncodedConfirmedTransactionWithStatusMeta,
)
    requires
        block.transactions matches Some(txs) && 0 <= i < txs.len(),
        read@ == (slot, block).tx_value(i),
    ensures
        (slot, block).tx_total() == block.transactions->0.len(),
        read.slot == slot,
        read.block_time == block.block_time,
        read.transaction@ == block.transactions->0@[i]@,
        read.transaction.meta == block.transactions->0@[i].meta,
        tx_succeeded(read.transaction) == tx_succeeded(block.transactions->0@[i]),
{
}

/// A block without a transaction list holds no transaction to read.
pub proof fn law_block_without_txs_is_empty(slot: u64, block: UiConfirmedBlock)
    requires
        block.transactions is None,
    ensures
        (slot, block).tx_total() == 0,
{
}

} // verus!
