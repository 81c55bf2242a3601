//! A signature fetcher for one address: pages of signatures, newest first,
//! optionally cut at a maximum count and at a maximum age. The age of a page's
//! signatures is found by a binary search over the page, looking up the block
//! time of one transaction per probe. The caller performs the requests and the
//! lookups; this module decides what to keep and what to do next.
use vstd::prelude::*;

use crate::codec::parse_signature;
use crate::pager::{limit_of, parse_all, sig_views, take_at_most, text_views};

verus! {

/// How many signatures a fetcher keeps unless told otherwise.
pub const DEFAULT_MAX_COUNT: usize = 1000;

/// How many signatures a fetcher asks for per page unless told otherwise.
pub const DEFAULT_BATCH_SIZE: usize = 1000;

/// How long a fetcher waits between two pages.
pub const BATCH_DELAY_MS: u64 = 100;

/// Nanoseconds per second.
pub const NANOS_PER_SEC: u128 = 1_000_000_000;

/// The settings of a fetcher.
pub struct FetcherSettings {
    pub address: [u8; 32],
    pub max_count: Option<usize>,
    /// The greatest age of a kept signature's transaction, in nanoseconds.
    pub max_age_nanos: Option<u128>,
    pub batch_size: usize,
}

/// Builds a [`SignatureFetcher`].
pub struct SignatureFetcherBuilder {
    address: [u8; 32],
    max_count: Option<usize>,
    max_age_nanos: Option<u128>,
    batch_size: usize,
}

impl View for SignatureFetcherBuilder {
    type V = FetcherSettings;

    closed spec fn view(&self) -> FetcherSettings {
        FetcherSettings {
            address: self.address,
            max_count: self.max_count,
            max_age_nanos: self.max_age_nanos,
            batch_size: self.batch_size,
        }
    }
}

/// Fetches the signatures of one address.
pub struct SignatureFetcher {
    address: [u8; 32],
    max_count: Option<usize>,
    max_age_nanos: Option<u128>,
    batch_size: usize,
}

impl View for SignatureFetcher {
    type V = FetcherSettings;

    closed spec fn view(&self) -> FetcherSettings {
        FetcherSettings {
            address: self.address,
            max_count: self.max_count,
            max_age_nanos: self.max_age_nanos,
            batch_size: self.batch_size,
        }
    }
}

impl SignatureFetcherBuilder {
    /// A builder for the given address: at most a thousand signatures, no
    /// age limit, pages of a thousand.
    pub fn for_address(address: [u8; 32]) -> (builder: Self)
        ensures
            builder@ == (FetcherSettings {
                address,
                max_count: Some(DEFAULT_MAX_COUNT),
                max_age_nanos: None,
                batch_size: DEFAULT_BATCH_SIZE,
            }),
    {
        SignatureFetcherBuilder {
            address,
            max_count: Some(DEFAULT_MAX_COUNT),
            max_age_nanos: None,
            batch_size: DEFAULT_BATCH_SIZE,
        }
    }

    /// Keeps at most `count` signatures.
    pub fn max_count(self, count: usize) -> (builder: Self)
        ensures
            builder@ == (FetcherSettings { max_count: Some(count), ..self@ }),
    {
        SignatureFetcherBuilder { max_count: Some(count), ..self }
    }

    /// Keeps only signatures whose transactions are at most `age_nanos`
    /// nanoseconds old.
    pub fn max_age(self, age_nanos: u128) -> (builder: Self)
        ensures
            builder@ == (FetcherSettings { max_age_nanos: Some(age_nanos), ..self@ }),
    {
        SignatureFetcherBuilder { max_age_nanos: Some(age_nanos), ..self }
    }

    /// Asks for `size` signatures per page.
    pub fn batch_size(self, size: usize) -> (builder: Self)
        ensures
            builder@ == (FetcherSettings { batch_size: size, ..self@ }),
    {
        SignatureFetcherBuilder { batch_size: size, ..self }
    }

    /// The fetcher with these settings.
    pub fn build(self) -> (fetcher: SignatureFetcher)
        ensures
            fetcher@ == self@,
    {
        SignatureFetcher {
            address: self.address,
            max_count: self.max_count,
            max_age_nanos: self.max_age_nanos,
            batch_size: self.batch_size,
        }
    }
}

/// What the lookup of a probed transaction found.
pub enum ProbeOutcome {
    /// No transaction was found.
    Missing,
    /// The transaction has no block time.
    NoBlockTime,
    /// The transaction's block time, in seconds since the Unix epoch.
    BlockTime(i64),
}

/// What to do next.
pub enum FetchAction {
    /// Wait `wait_ms` milliseconds, then ask for up to `limit` signatures of
    /// `address` older than `before` (the newest ones where it is `None`).
    FetchBatch { address: [u8; 32], wait_ms: u64, limit: usize, before: Option<[u8; 64]> },
    /// Look up the transaction with this signature and report its block time.
    ProbeTx([u8; 64]),
    /// The fetch is finished; its result is the run's signatures.
    Finish,
}

/// Where a run stands.
pub enum RunStage {
    NeedBatch,
    Searching,
    Finished,
}

/// The state of one run of a fetcher.
pub struct FetchRun {
    pub address: [u8; 32],
    pub max_count: Option<usize>,
    pub max_age_nanos: Option<u128>,
    pub batch_size: usize,
    /// The time the run started, in nanoseconds since the Unix epoch.
    pub now_nanos: u128,
    pub signatures: Vec<[u8; 64]>,
    pub before: Option<[u8; 64]>,
    pub stage: RunStage,
    /// The page being searched.
    pub batch: Vec<[u8; 64]>,
    pub left: usize,
    pub right: usize,
}

/// Whether a transaction with the given block time is at most `max_age_nanos`
/// old at `now_nanos`. A block time later than now counts as no age at all.
pub open spec fn age_ok(now_nanos: u128, block_time: i64, max_age_nanos: u128) -> bool {
    let tx_nanos: int = block_time * NANOS_PER_SEC;
    let elapsed: int = if now_nanos >= tx_nanos {
        now_nanos - tx_nanos
    } else {
        0
    };
    elapsed <= max_age_nanos
}

/// Whether a probe counts its transaction as recent: one that is missing or
/// has no block time does.
pub open spec fn probe_recent(outcome: ProbeOutcome, now_nanos: u128, max_age_nanos: u128) -> bool {
    match outcome {
        ProbeOutcome::BlockTime(t) => age_ok(now_nanos, t, max_age_nanos),
        _ => true,
    }
}

/// One step of the binary search: a recent middle moves the left end past
/// it, an old one moves the right end onto it.
pub open spec fn search_step(left: nat, right: nat, recent: bool) -> (nat, nat) {
    let mid: nat = (left + right) / 2;
    if recent {
        ((mid + 1) as nat, right)
    } else {
        (left, mid)
    }
}

/// Where the binary search over `recent` between `left` and `right` ends.
pub open spec fn search(recent: Seq<bool>, left: nat, right: nat) -> nat
    decreases right - left,
{
    if left >= right {
        left
    } else {
        let (l, r) = search_step(left, right, recent[((left + right) / 2) as int]);
        search(recent, l, r)
    }
}

/// The signatures kept, and whether the run is finished, once a page's
/// signatures have been added: reaching the limit cuts the list there.
pub open spec fn apply_limit(max_count: Option<usize>, sigs: Seq<Seq<u8>>) -> (Seq<Seq<u8>>, bool) {
    match max_count {
        Some(m) => if sigs.len() >= m {
            (sigs.take(m as int), true)
        } else {
            (sigs, false)
        },
        None => (sigs, false),
    }
}

/// What is kept once the first `end` signatures of `page` are added to
/// `kept`, and whether the run is finished: it is where the count limit is
/// reached or where the page was cut by age (`end` short of its end).
pub open spec fn close_spec(max_count: Option<usize>, kept: Seq<Seq<u8>>, page: Seq<Seq<u8>>, end: nat) -> (
    Seq<Seq<u8>>,
    bool,
) {
    let (sigs, full) = apply_limit(max_count, kept + page.take(end as int));
    (sigs, full || end < page.len())
}

/// Whether a block time is one that the age test can take.
pub open spec fn probe_ok(outcome: ProbeOutcome) -> bool {
    outcome matches ProbeOutcome::BlockTime(t) ==> t >= 0
}

/// Tells whether a transaction with the given block time is at most
/// `max_age_nanos` old at `now_nanos`.
pub fn within_age(now_nanos: u128, block_time: i64, max_age_nanos: u128) -> (ok: bool)
    requires
        block_time >= 0,
    ensures
        ok == age_ok(now_nanos, block_time, max_age_nanos),
{
    let secs: u128 = block_time as u128;
    assert(secs * NANOS_PER_SEC <= 0x7fff_ffff_ffff_ffffu128 * 1_000_000_000u128) by (nonlinear_arith)
        requires
            secs <= 0x7fff_ffff_ffff_ffffu128,
    ;
    let tx_nanos: u128 = secs * NANOS_PER_SEC;
    let elapsed: u128 = if now_nanos >= tx_nanos {
        now_nanos - tx_nanos
    } else {
        0
    };
    elapsed <= max_age_nanos
}

impl SignatureFetcher {
    /// A run of this fetcher started at `now_nanos` (nanoseconds since the
    /// Unix epoch), and its first request.
    pub fn start(&self, now_nanos: u128) -> (started: (FetchRun, FetchAction))
        ensures
            started.0.wf(),
            started.0.address == self@.address,
            started.0.max_count == self@.max_count,
            started.0.max_age_nanos == self@.max_age_nanos,
            started.0.batch_size == self@.batch_size,
            started.0.now_nanos == now_nanos,
            started.0.signatures@.len() == 0,
            started.0.before is None,
            started.0.stage is NeedBatch,
            started.1 == (FetchAction::FetchBatch {
                address: self@.address,
                wait_ms: 0,
                limit: self@.batch_size,
                before: None,
            }),
    {
        let max_age_nanos: Option<u128> = self.max_age_nanos;
        (
            FetchRun {
                address: self.address,
                max_count: self.max_count,
                max_age_nanos,
                batch_size: self.batch_size,
                now_nanos,
                signatures: Vec::new(),
                before: None,
                stage: RunStage::NeedBatch,
                batch: Vec::new(),
                left: 0,
                right: 0,
            },
            FetchAction::FetchBatch { address: self.address, wait_ms: 0, limit: self.batch_size, before: None },
        )
    }
}

impl FetchRun {
    /// The states a run can be in.
    pub open spec fn wf(&self) -> bool {
        self.stage is Searching ==> {
            &&& self.left < self.right <= self.batch.len()
            &&& self.max_age_nanos is Some
        }
    }

    /// The request for the next page.
    pub open spec fn next_batch(&self) -> FetchAction {
        FetchAction::FetchBatch {
            address: self.address,
            wait_ms: BATCH_DELAY_MS,
            limit: self.batch_size,
            before: self.before,
        }
    }

    /// Adds the first `end` signatures of the page, then either finishes (the
    /// page was cut by age, or the limit is reached) or asks for the next page.
    fn close_batch(&mut self, end: usize) -> (action: FetchAction)
        requires
            end <= old(self).batch.len(),
        ensures
            final(self).address == old(self).address,
            final(self).max_count == old(self).max_count,
            final(self).max_age_nanos == old(self).max_age_nanos,
            final(self).batch_size == old(self).batch_size,
            final(self).now_nanos == old(self).now_nanos,
            final(self).before == old(self).before,
            final(self).batch == old(self).batch,
            final(self).left == old(self).left,
            final(self).right == old(self).right,
            ({
                let (sigs, finished) = close_spec(
                    old(self).max_count,
                    sig_views(old(self).signatures@),
                    sig_views(old(self).batch@),
                    end as nat,
                );
                &&& sig_views(final(self).signatures@) == sigs
                &&& finished ==> final(self).stage is Finished && action is Finish
                &&& !finished ==> final(self).stage is NeedBatch && action == final(self).next_batch()
            }),
    {
        let ghost start = self.signatures@;
        let mut j: usize = 0;
        while j < end
            invariant
                0 <= j <= end <= self.batch.len(),
                self.batch == old(self).batch,
                self.address == old(self).address,
                self.max_count == old(self).max_count,
                self.max_age_nanos == old(self).max_age_nanos,
                self.batch_size == old(self).batch_size,
                self.now_nanos == old(self).now_nanos,
                self.before == old(self).before,
                self.left == old(self).left,
                self.right == old(self).right,
                sig_views(self.signatures@) == sig_views(start) + sig_views(self.batch@.take(j as int)),
                start == old(self).signatures@,
            decreases end - j,
        {
            let sig = self.batch[j];
            let ghost before_push = self.signatures@;
            self.signatures.push(sig);
            proof {
                assert(self.batch@.take(j + 1) =~= self.batch@.take(j as int).push(sig));
                assert(sig_views(self.batch@.take(j + 1)) =~= sig_views(self.batch@.take(j as int)).push(sig@));
                assert(sig_views(self.signatures@) =~= sig_views(before_push).push(sig@));
                assert(sig_views(self.signatures@) =~= sig_views(start) + sig_views(self.batch@.take(j + 1)));
            }
            j = j + 1;
        }
        match self.max_count {
            Some(max) => {
                if self.signatures.len() >= max {
                    self.signatures.truncate(max);
                    self.stage = RunStage::Finished;
                    proof {
                        assert(sig_views(self.signatures@) =~= sig_views(old(self).signatures@).add(
                            sig_views(old(self).batch@.take(end as int)),
                        ).take(max as int));
                    }
                    return FetchAction::Finish;
                }
            },
            None => {},
        }
        if end < self.batch.len() {
            self.stage = RunStage::Finished;
            return FetchAction::Finish;
        }
        self.stage = RunStage::NeedBatch;
        FetchAction::FetchBatch {
            address: self.address,
            wait_ms: BATCH_DELAY_MS,
            limit: self.batch_size,
            before: self.before,
        }
    }

    /// Takes a page (the signature texts the node answered, newest first).
    /// The texts that do not parse are dropped; an empty page finishes the
    /// run. The next page is asked for before the page's last signature.
    /// With an age limit, the search over the page starts at its middle.
    pub fn on_batch(&mut self, texts: &Vec<String>) -> (action: FetchAction)
        requires
            old(self).wf(),
            old(self).stage is NeedBatch,
        ensures
            final(self).wf(),
            final(self).address == old(self).address,
            final(self).max_count == old(self).max_count,
            final(self).max_age_nanos == old(self).max_age_nanos,
            final(self).batch_size == old(self).batch_size,
            final(self).now_nanos == old(self).now_nanos,
            ({
                let parsed = parse_all(text_views(texts@));
                if parsed.len() == 0 {
                    &&& final(self).signatures@ == old(self).signatures@
                    &&& final(self).stage is Finished
                    &&& action is Finish
                } else {
                    &&& sig_views(final(self).batch@) == parsed
                    &&& final(self).before matches Some(b) && b@ == parsed.last()
                    &&& match old(self).max_age_nanos {
                        Some(_) => {
                            &&& final(self).signatures@ == old(self).signatures@
                            &&& final(self).stage is Searching
                            &&& final(self).left == 0
                            &&& final(self).right == parsed.len()
                            &&& action == FetchAction::ProbeTx(final(self).batch@[(parsed.len() / 2) as int])
                        },
                        None => {
                            let (sigs, finished) = close_spec(
                                old(self).max_count,
                                sig_views(old(self).signatures@),
                                parsed,
                                parsed.len(),
                            );
                            &&& sig_views(final(self).signatures@) == sigs
                            &&& finished ==> final(self).stage is Finished && action is Finish
                            &&& !finished ==> final(self).stage is NeedBatch && action == final(self).next_batch()
                        },
                    }
                }
            }),
    {
        let ghost views = text_views(texts@);
        let mut batch: Vec<[u8; 64]> = Vec::new();
        let mut i: usize = 0;
        while i < texts.len()
            invariant
                0 <= i <= texts.len(),
                views == text_views(texts@),
                sig_views(batch@) == parse_all(views.take(i as int)),
            decreases texts.len() - i,
        {
            proof {
                crate::pager::lemma_parse_all_push(views.take(i as int), views[i as int]);
                assert(views.take(i as int).push(views[i as int]) =~= views.take(i + 1));
                assert(texts@[i as int]@ == views[i as int]);
            }
            let parsed = parse_signature(texts[i].as_str());
            match parsed {
                Some(sig) => {
                    let ghost before_push = batch@;
                    batch.push(sig);
                    proof {
                        assert(sig_views(batch@) =~= sig_views(before_push).push(sig@));
                    }
                },
                None => {},
            }
            i = i + 1;
        }
        proof {
            assert(views.take(texts.len() as int) =~= views);
        }
        let n: usize = batch.len();
        if n == 0 {
            self.stage = RunStage::Finished;
            return FetchAction::Finish;
        }
        self.before = Some(batch[n - 1]);
        proof {
            assert(sig_views(batch@).last() == batch@[n - 1]@);
        }
        self.batch = batch;
        match self.max_age_nanos {
            Some(_) => {
                self.stage = RunStage::Searching;
                self.left = 0;
                self.right = n;
                FetchAction::ProbeTx(self.batch[n / 2])
            },
            None => {
                proof {
                    assert(self.batch@.take(n as int) =~= self.batch@);
                }
                self.close_batch(n)
            },
        }
    }

    /// Takes the outcome of the probe of the middle of the searched range,
    /// and either probes the next middle or, once the range is empty, keeps
    /// the page up to where the search ended.
    pub fn on_probe(&mut self, outcome: ProbeOutcome) -> (action: FetchAction)
        requires
            old(self).wf(),
            old(self).stage is Searching,
            probe_ok(outcome),
        ensures
            final(self).wf(),
            final(self).address == old(self).address,
            final(self).max_count == old(self).max_count,
            final(self).max_age_nanos == old(self).max_age_nanos,
            final(self).batch_size == old(self).batch_size,
            final(self).now_nanos == old(self).now_nanos,
            final(self).before == old(self).before,
            final(self).batch == old(self).batch,
            ({
                let recent = probe_recent(outcome, old(self).now_nanos, old(self).max_age_nanos->0);
                let (l, r) = search_step(old(self).left as nat, old(self).right as nat, recent);
                if l < r {
                    &&& final(self).signatures@ == old(self).signatures@
                    &&& final(self).stage is Searching
                    &&& final(self).left == l
                    &&& final(self).right == r
                    &&& action == FetchAction::ProbeTx(old(self).batch@[((l + r) / 2) as int])
                } else {
                    let (sigs, finished) = close_spec(
                        old(self).max_count,
                        sig_views(old(self).signatures@),
                        sig_views(old(self).batch@),
                        l,
                    );
                    &&& final(self).left == l
                    &&& final(self).right == r
                    &&& sig_views(final(self).signatures@) == sigs
                    &&& finished ==> final(self).stage is Finished && action is Finish
                    &&& !finished ==> final(self).stage is NeedBatch && action == final(self).next_batch()
                }
            }),
    {
        let max_age: u128 = match self.max_age_nanos {
            Some(m) => m,
            None => 0,
        };
        let recent = match outcome {
            ProbeOutcome::BlockTime(t) => within_age(self.now_nanos, t, max_age),
            _ => true,
        };
        let mid: usize = self.left + (self.right - self.left) / 2;
        assert(mid == (self.left + self.right) / 2);
        if recent {
            self.left = mid + 1;
        } else {
            self.right = mid;
        }
        if self.left < self.right {
            let next: usize = self.left + (self.right - self.left) / 2;
            FetchAction::ProbeTx(self.batch[next])
        } else {
            let end: usize = self.left;
            self.close_batch(end)
        }
    }
}

proof fn lemma_search_boundary(recent: Seq<bool>, left: nat, right: nat)
    requires
        left <= right <= recent.len(),
        forall|i: int, j: int| 0 <= i < j < recent.len() && recent[j] ==> recent[i],
        forall|i: int| 0 <= i < left ==> recent[i],
        forall|i: int| right <= i < recent.len() ==> !recent[i],
    ensures
        search(recent, left, right) <= recent.len(),
        forall|i: int| 0 <= i < search(recent, left, right) ==> recent[i],
        forall|i: int| search(recent, left, right) <= i < recent.len() ==> !recent[i],
    decreases right - left,
{
    if left < right {
        let mid: nat = (left + right) / 2;
        let (l, r) = search_step(left, right, recent[mid as int]);
        lemma_search_boundary(recent, l, r);
    }
}

/// Where the recency of a page's transactions falls off once (recent ones
/// first, as the node lists newest first), the binary search over the page
/// ends exactly where it falls off: everything before is recent, nothing
/// after is.
pub proof fn law_age_search_finds_boundary(recent: Seq<bool>)
    requires
        forall|i: int, j: int| 0 <= i < j < recent.len() && recent[j] ==> recent[i],
    ensures
        search(recent, 0, recent.len()) <= recent.len(),
        forall|i: int| 0 <= i < search(recent, 0, recent.len()) ==> recent[i],
        forall|i: int| search(recent, 0, recent.len()) <= i < recent.len() ==> !recent[i],
{
    lemma_search_boundary(recent, 0, recent.len());
}

/// Whether a signature counts as young under an age test given as a
/// predicate (every one does where there is none).
pub open spec fn young(recent: Option<spec_fn(Seq<u8>) -> bool>, sig: Seq<u8>) -> bool {
    match recent {
        Some(r) => r(sig),
        None => true,
    }
}

/// Where a page is cut: by the binary search over its young marks where
/// there is an age test, at its end otherwise.
pub open spec fn page_end(recent: Option<spec_fn(Seq<u8>) -> bool>, page: Seq<Seq<u8>>) -> nat {
    match recent {
        Some(r) => search(page.map_values(|s: Seq<u8>| r(s)), 0, page.len()),
        None => page.len(),
    }
}

/// What a whole run keeps, from `kept`, when the node answers `pages` (the
/// signatures that parsed, page by page) and the probes answer by `recent`.
pub open spec fn run_fetch(
    max_count: Option<usize>,
    recent: Option<spec_fn(Seq<u8>) -> bool>,
    kept: Seq<Seq<u8>>,
    pages: Seq<Seq<Seq<u8>>>,
) -> Seq<Seq<u8>>
    decreases pages.len(),
{
    if pages.len() == 0 || pages[0].len() == 0 {
        kept
    } else {
        let (next, finished) = close_spec(max_count, kept, pages[0], page_end(recent, pages[0]));
        if finished {
            next
        } else {
            run_fetch(max_count, recent, next, pages.drop_first())
        }
    }
}

/// All the signatures of the pages in order, up to the first empty page.
pub open spec fn flat_pages(pages: Seq<Seq<Seq<u8>>>) -> Seq<Seq<u8>>
    decreases pages.len(),
{
    if pages.len() == 0 || pages[0].len() == 0 {
        Seq::empty()
    } else {
        pages[0] + flat_pages(pages.drop_first())
    }
}

/// The longest prefix of `s` whose signatures are all young.
pub open spec fn young_prefix(recent: Option<spec_fn(Seq<u8>) -> bool>, s: Seq<Seq<u8>>) -> Seq<Seq<u8>>
    decreases s.len(),
{
    if s.len() == 0 || !young(recent, s[0]) {
        Seq::empty()
    } else {
        seq![s[0]] + young_prefix(recent, s.drop_first())
    }
}

/// Whether youth falls off at most once along `s` (young ones first).
pub open spec fn falls_off_once(recent: Option<spec_fn(Seq<u8>) -> bool>, s: Seq<Seq<u8>>) -> bool {
    forall|i: int, j: int| 0 <= i < j < s.len() && #[trigger] young(recent, s[j]) ==> #[trigger] young(recent, s[i])
}

proof fn lemma_young_prefix_cut(recent: Option<spec_fn(Seq<u8>) -> bool>, s: Seq<Seq<u8>>, b: nat)
    requires
        b <= s.len(),
        forall|i: int| 0 <= i < b ==> young(recent, #[trigger] s[i]),
        b < s.len() ==> !young(recent, s[b as int]),
    ensures
        young_prefix(recent, s) == s.take(b as int),
    decreases s.len(),
{
    if b == 0 {
        assert(s.take(0) =~= Seq::<Seq<u8>>::empty());
    } else {
        assert(young(recent, s[0]));
        let t = s.drop_first();
        assert forall|i: int| 0 <= i < b - 1 implies young(recent, #[trigger] t[i]) by {
            assert(t[i] == s[i + 1]);
        }
        if b < s.len() {
            assert(t[b - 1] == s[b as int]);
        }
        lemma_young_prefix_cut(recent, t, (b - 1) as nat);
        assert(s.take(b as int) =~= seq![s[0]] + t.take(b - 1));
    }
}

proof fn lemma_young_prefix_append(recent: Option<spec_fn(Seq<u8>) -> bool>, a: Seq<Seq<u8>>, b: Seq<Seq<u8>>)
    requires
        forall|i: int| 0 <= i < a.len() ==> young(recent, #[trigger] a[i]),
    ensures
        young_prefix(recent, a + b) == a + young_prefix(recent, b),
    decreases a.len(),
{
    if a.len() == 0 {
        assert(a + b =~= b);
        assert(a + young_prefix(recent, b) =~= young_prefix(recent, b));
    } else {
        let t = a.drop_first();
        assert forall|i: int| 0 <= i < t.len() implies young(recent, #[trigger] t[i]) by {
            assert(t[i] == a[i + 1]);
        }
        lemma_young_prefix_append(recent, t, b);
        assert((a + b)[0] == a[0]);
        assert((a + b).drop_first() =~= t + b);
        assert(a + young_prefix(recent, b) =~= seq![a[0]] + (t + young_prefix(recent, b)));
    }
}

proof fn lemma_page_end(recent: Option<spec_fn(Seq<u8>) -> bool>, page: Seq<Seq<u8>>)
    requires
        falls_off_once(recent, page),
    ensures
        page_end(recent, page) <= page.len(),
        forall|i: int| 0 <= i < page_end(recent, page) ==> young(recent, #[trigger] page[i]),
        forall|i: int| page_end(recent, page) <= i < page.len() ==> !young(recent, #[trigger] page[i]),
{
    match recent {
        Some(r) => {
            let marks = page.map_values(|s: Seq<u8>| r(s));
            assert forall|i: int, j: int| 0 <= i < j < marks.len() && marks[j] implies marks[i] by {
                assert(young(recent, page[j]));
                assert(young(recent, page[i]));
            }
            lemma_search_boundary(marks, 0, marks.len());
            let b = page_end(recent, page);
            assert forall|i: int| 0 <= i < b implies young(recent, #[trigger] page[i]) by {
                assert(marks[i]);
            }
            assert forall|i: int| b <= i < page.len() implies !young(recent, #[trigger] page[i]) by {
                assert(!marks[i]);
            }
        },
        None => {},
    }
}

proof fn lemma_run_fetch(
    max_count: Option<usize>,
    recent: Option<spec_fn(Seq<u8>) -> bool>,
    kept: Seq<Seq<u8>>,
    pages: Seq<Seq<Seq<u8>>>,
)
    requires
        max_count matches Some(m) ==> kept.len() <= m,
        falls_off_once(recent, flat_pages(pages)),
    ensures
        run_fetch(max_count, recent, kept, pages) == take_at_most(
            kept + young_prefix(recent, flat_pages(pages)),
            limit_of(max_count),
        ),
    decreases pages.len(),
{
    let flat = flat_pages(pages);
    if pages.len() == 0 || pages[0].len() == 0 {
        assert(flat =~= Seq::<Seq<u8>>::empty());
        assert(kept + young_prefix(recent, flat) =~= kept);
    } else {
        let page = pages[0];
        let rest = flat_pages(pages.drop_first());
        assert(flat == page + rest);
        assert forall|i: int, j: int| 0 <= i < j < page.len() && #[trigger] young(recent, page[j]) implies #[trigger] young(
            recent,
            page[i],
        ) by {
            assert(flat[i] == page[i]);
            assert(flat[j] == page[j]);
        }
        assert forall|i: int, j: int| 0 <= i < j < rest.len() && #[trigger] young(recent, rest[j]) implies #[trigger] young(
            recent,
            rest[i],
        ) by {
            assert(flat[i + page.len()] == rest[i]);
            assert(flat[j + page.len()] == rest[j]);
        }
        lemma_page_end(recent, page);
        let b = page_end(recent, page);
        let s = kept + page.take(b as int);
        let (next, finished) = close_spec(max_count, kept, page, b);
        if b < page.len() {
            assert forall|i: int| 0 <= i < b implies young(recent, #[trigger] flat[i]) by {
                assert(flat[i] == page[i]);
            }
            assert(flat[b as int] == page[b as int]);
            lemma_young_prefix_cut(recent, flat, b);
            assert(flat.take(b as int) =~= page.take(b as int));
            match max_count {
                Some(m) => {
                    if s.len() == m {
                        assert(s.take(m as int) =~= s);
                    }
                },
                None => {},
            }
        } else {
            assert(page.take(b as int) =~= page);
            assert forall|i: int| 0 <= i < page.len() implies young(recent, #[trigger] page[i]) by {}
            lemma_young_prefix_append(recent, page, rest);
            let whole = kept + young_prefix(recent, flat);
            assert(whole =~= s + young_prefix(recent, rest));
            if finished {
                match max_count {
                    Some(m) => {
                        assert(whole.take(m as int) =~= s.take(m as int));
                        if whole.len() <= m {
                            assert(whole =~= s);
                            assert(s.take(m as int) =~= s);
                        }
                    },
                    None => {},
                }
            } else {
                lemma_run_fetch(max_count, recent, s, pages.drop_first());
            }
        }
    }
}

/// What a whole run keeps, where the node answers the given pages and
/// youth falls off at most once along them (the node lists newest first):
/// the longest young prefix of the pages' signatures, cut at `max_count`.
pub proof fn law_fetch_keeps_young_prefix(
    max_count: Option<usize>,
    recent: Option<spec_fn(Seq<u8>) -> bool>,
    pages: Seq<Seq<Seq<u8>>>,
)
    requires
        falls_off_once(recent, flat_pages(pages)),
    ensures
        run_fetch(max_count, recent, Seq::empty(), pages) == take_at_most(
            young_prefix(recent, flat_pages(pages)),
            limit_of(max_count),
        ),
{
    lemma_run_fetch(max_count, recent, Seq::empty(), pages);
    assert(Seq::<Seq<u8>>::empty() + young_prefix(recent, flat_pages(pages)) =~= young_prefix(
        recent,
        flat_pages(pages),
    ));
}

/// Of two runs over the same pages that differ only in the count limit, the
/// one with the smaller limit keeps a prefix of what the other keeps.
pub proof fn law_fetch_prefix_in_max_count(
    m1: usize,
    m2: usize,
    recent: Option<spec_fn(Seq<u8>) -> bool>,
    pages: Seq<Seq<Seq<u8>>>,
)
    requires
        m1 <= m2,
        falls_off_once(recent, flat_pages(pages)),
    ensures
        run_fetch(Some(m1), recent, Seq::empty(), pages).len() <= run_fetch(Some(m2), recent, Seq::empty(), pages).len(),
        run_fetch(Some(m1), recent, Seq::empty(), pages) == run_fetch(Some(m2), recent, Seq::empty(), pages).take(
            run_fetch(Some(m1), recent, Seq::empty(), pages).len() as int,
        ),
{
    law_fetch_keeps_young_prefix(Some(m1), recent, pages);
    law_fetch_keeps_young_prefix(Some(m2), recent, pages);
    let y = young_prefix(recent, flat_pages(pages));
    let r1 = take_at_most(y, Some(m1 as nat));
    let r2 = take_at_most(y, Some(m2 as nat));
    assert(r1 =~= r2.take(r1.len() as int));
}

} // verus!
