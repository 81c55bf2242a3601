# transaction_cache

A cache of Solana transactions and blocks in front of an RPC node, written in
Verus. The first lookup of a transaction (by signature) or of a block (by slot)
fetches it from the node, retrying a failed fetch, and stores it in a sled
database; later lookups answer from the database.

Layout:

- `src/` — the verified library.
  - `storage.rs`: the two sled trees and what a lookup and a store do to them.
  - `keys.rs`: the keys records are stored under (decimal slot, base58 signature).
  - `lookup.rs`: the decisions of a cached lookup (read, fetch, retry, store, answer).
  - `pager.rs`: listing an address's signatures page by page, cut at a count.
  - `fetcher.rs`: the signature fetcher and its builder; cuts by count and by age,
    with a binary search over each page.
  - `tx.rs`: what is read of a transaction or a block.
  - `codec.rs`: base58 parsing and printing by the Solana crates.
  - `akbot.rs`: the records of the aktool search service.
- `app/` — the runtime: the RPC client, the database on disk, JSON, timers.
- `tests/` — tests of the library against the real outside crates.
