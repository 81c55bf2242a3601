//! A cache of Solana transactions and blocks in front of an RPC node.
//!
//! The first lookup of a transaction or a block fetches it from the node
//! (retrying a failed fetch) and stores it in a sled database; later lookups
//! answer from the database. The library holds the decisions: the keys
//! records are stored under, what the cache answers, when to fetch, retry,
//! store and give up, how an address's signatures are paged and cut by count
//! and age, and what is read of a transaction or a block. The requests to the
//! node and the (de)serialisation of records are the caller's.
pub mod akbot;
pub mod codec;
pub mod fetcher;
pub mod keys;
pub mod lookup;
pub mod pager;
pub mod storage;
pub mod tx;

pub use akbot::{AktoolResponse, TradeRecord};
pub use fetcher::{FetchAction, FetchRun, ProbeOutcome, SignatureFetcher, SignatureFetcherBuilder};
pub use lookup::{CachedLookup, GiveUp, LookupAction, LookupEvent};
pub use pager::{AddressPager, PageAction};
pub use storage::{CacheDb, CacheError};
pub use tx::{GetAccounts, TxDetail, TxDetailLocal, TxSequence};
