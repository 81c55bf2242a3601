//! The decisions of a cached lookup (of a transaction or of a block): read the
//! cache first; on a miss fetch from the RPC node, retrying a failed fetch
//! after a short wait up to three attempts in all; store what was fetched
//! before handing it out. The caller performs each action and reports what
//! happened; this module decides what comes next.
use vstd::prelude::*;

use crate::keys::tx_key_spec;
use crate::storage::CacheDb;

verus! {

/// How many fetches a lookup makes at most.
pub const MAX_FETCH_ATTEMPTS: u32 = 3;

/// How long a lookup waits before it retries a failed fetch.
pub const RETRY_DELAY_MS: u64 = 100;

/// What a lookup answers when every fetch failed: a transaction lookup
/// answers that there is none, a block lookup answers the last error.
#[derive(Clone, Copy, PartialEq, Eq, Structural)]
pub enum GiveUp {
    ReturnNothing,
    ReturnLastError,
}

/// Where a lookup stands.
#[derive(Clone, Copy, PartialEq, Eq, Structural)]
pub enum LookupStage {
    ReadCache,
    Fetch,
    Store,
    Done,
}

/// What the caller observed after performing the last action.
#[derive(Clone, Copy, PartialEq, Eq, Structural)]
pub enum LookupEvent {
    CacheHit,
    CacheMiss,
    CacheFailed,
    FetchSucceeded,
    FetchFailed,
    Stored,
    StoreFailed,
}

/// What the caller is to do next.
#[derive(Clone, Copy, PartialEq, Eq, Structural)]
pub enum LookupAction {
    /// Look the key up in the cache.
    ReadCache,
    /// Wait `wait_ms` milliseconds, then fetch from the RPC node.
    Fetch { wait_ms: u64 },
    /// Store the fetched record in the cache.
    Store,
    /// Answer the record found in the cache.
    ReturnCached,
    /// Answer the record that was fetched and stored.
    ReturnFetched,
    /// Answer that there is no record.
    ReturnNothing,
    /// Answer the last error observed.
    ReturnError,
}

/// The state of one cached lookup.
#[derive(Clone, Copy)]
pub struct CachedLookup {
    pub stage: LookupStage,
    /// Fetches that may still be made, counting the one in flight.
    pub attempts_left: u32,
    pub give_up: GiveUp,
}

impl CachedLookup {
    /// The states a lookup can be in.
    pub open spec fn wf(self) -> bool {
        self.stage == LookupStage::Fetch ==> 1 <= self.attempts_left <= MAX_FETCH_ATTEMPTS
    }

    /// Whether the lookup can take `event` now.
    pub open spec fn accepts(self, event: LookupEvent) -> bool {
        match self.stage {
            LookupStage::ReadCache => event == LookupEvent::CacheHit || event == LookupEvent::CacheMiss
                || event == LookupEvent::CacheFailed,
            LookupStage::Fetch => event == LookupEvent::FetchSucceeded || event == LookupEvent::FetchFailed,
            LookupStage::Store => event == LookupEvent::Stored || event == LookupEvent::StoreFailed,
            LookupStage::Done => false,
        }
    }

    /// The next state and action after `event`.
    pub open spec fn next(self, event: LookupEvent) -> (CachedLookup, LookupAction) {
        let done = CachedLookup { stage: LookupStage::Done, ..self };
        match self.stage {
            LookupStage::ReadCache => match event {
                LookupEvent::CacheHit => (done, LookupAction::ReturnCached),
                LookupEvent::CacheMiss => (
                    CachedLookup {
                        stage: LookupStage::Fetch,
                        attempts_left: MAX_FETCH_ATTEMPTS,
                        ..self
                    },
                    LookupAction::Fetch { wait_ms: 0 },
                ),
                _ => (done, LookupAction::ReturnError),
            },
            LookupStage::Fetch => match event {
                LookupEvent::FetchSucceeded => (
                    CachedLookup { stage: LookupStage::Store, ..self },
                    LookupAction::Store,
                ),
                _ => if self.attempts_left <= 1 {
                    (
                        CachedLookup { stage: LookupStage::Done, attempts_left: 0, ..self },
                        match self.give_up {
                            GiveUp::ReturnNothing => LookupAction::ReturnNothing,
                            GiveUp::ReturnLastError => LookupAction::ReturnError,
                        },
                    )
                } else {
                    (
                        CachedLookup { attempts_left: (self.attempts_left - 1) as u32, ..self },
                        LookupAction::Fetch { wait_ms: RETRY_DELAY_MS },
                    )
                },
            },
            LookupStage::Store => match event {
                LookupEvent::Stored => (done, LookupAction::ReturnFetched),
                _ => (done, LookupAction::ReturnError),
            },
            LookupStage::Done => (self, LookupAction::ReturnError),
        }
    }

    /// A new lookup, and its first action: read the cache.
    pub fn start(give_up: GiveUp) -> (started: (CachedLookup, LookupAction))
        ensures
            started.0 == (CachedLookup { stage: LookupStage::ReadCache, attempts_left: MAX_FETCH_ATTEMPTS, give_up }),
            started.1 == LookupAction::ReadCache,
            started.0.wf(),
    {
        (
            CachedLookup { stage: LookupStage::ReadCache, attempts_left: MAX_FETCH_ATTEMPTS, give_up },
            LookupAction::ReadCache,
        )
    }

    /// Takes what the caller observed and decides the next action.
    pub fn step(&mut self, event: LookupEvent) -> (action: LookupAction)
        requires
            old(self).wf(),
            old(self).accepts(event),
        ensures
            (*final(self), action) == old(self).next(event),
            final(self).wf(),
    {
        match self.stage {
            LookupStage::ReadCache => match event {
                LookupEvent::CacheHit => {
                    self.stage = LookupStage::Done;
                    LookupAction::ReturnCached
                },
                LookupEvent::CacheMiss => {
                    self.stage = LookupStage::Fetch;
                    self.attempts_left = MAX_FETCH_ATTEMPTS;
                    LookupAction::Fetch { wait_ms: 0 }
                },
                _ => {
                    self.stage = LookupStage::Done;
                    LookupAction::ReturnError
                },
            },
            LookupStage::Fetch => match event {
                LookupEvent::FetchSucceeded => {
                    self.stage = LookupStage::Store;
                    LookupAction::Store
                },
                _ => {
                    if self.attempts_left <= 1 {
                        self.stage = LookupStage::Done;
                        self.attempts_left = 0;
                        match self.give_up {
                            GiveUp::ReturnNothing => LookupAction::ReturnNothing,
                            GiveUp::ReturnLastError => LookupAction::ReturnError,
                        }
                    } else {
                        self.attempts_left = self.attempts_left - 1;
                        LookupAction::Fetch { wait_ms: RETRY_DELAY_MS }
                    }
                },
            },
            LookupStage::Store => match event {
                LookupEvent::Stored => {
                    self.stage = LookupStage::Done;
                    LookupAction::ReturnFetched
                },
                _ => {
                    self.stage = LookupStage::Done;
                    LookupAction::ReturnError
                },
            },
            LookupStage::Done => LookupAction::ReturnError,
        }
    }
}

/// The actions a lookup takes, from state `s`, on the events `events` in turn
/// (it stops at the first event it does not accept).
pub open spec fn run_actions(s: CachedLookup, events: Seq<LookupEvent>) -> Seq<LookupAction>
    decreases events.len(),
{
    if events.len() == 0 || !s.accepts(events[0]) {
        Seq::empty()
    } else {
        let (t, a) = s.next(events[0]);
        seq![a] + run_actions(t, events.drop_first())
    }
}

/// How many fetches are asked for among `actions`.
pub open spec fn fetch_count(actions: Seq<LookupAction>) -> nat
    decreases actions.len(),
{
    if actions.len() == 0 {
        0
    } else {
        (if actions[0] is Fetch { 1nat } else { 0nat }) + fetch_count(actions.drop_first())
    }
}

/// How many more fetches a lookup in state `s` may still ask for.
pub open spec fn fetch_budget(s: CachedLookup) -> nat {
    match s.stage {
        LookupStage::ReadCache => MAX_FETCH_ATTEMPTS as nat,
        LookupStage::Fetch => (s.attempts_left - 1) as nat,
        _ => 0,
    }
}

proof fn lemma_fetch_count_within_budget(s: CachedLookup, events: Seq<LookupEvent>)
    requires
        s.wf(),
    ensures
        fetch_count(run_actions(s, events)) <= fetch_budget(s),
    decreases events.len(),
{
    if events.len() > 0 && s.accepts(events[0]) {
        let (t, a) = s.next(events[0]);
        lemma_fetch_count_within_budget(t, events.drop_first());
        let actions = run_actions(s, events);
        assert(actions.drop_first() =~= run_actions(t, events.drop_first()));
    }
}

/// Whatever the RPC node and the cache answer, one lookup fetches at most
/// three times.
pub proof fn law_at_most_three_fetches(give_up: GiveUp, events: Seq<LookupEvent>)
    ensures
        fetch_count(
            run_actions(
                CachedLookup { stage: LookupStage::ReadCache, attempts_left: MAX_FETCH_ATTEMPTS, give_up },
                events,
            ),
        ) <= MAX_FETCH_ATTEMPTS,
{
    lemma_fetch_count_within_budget(
        CachedLookup { stage: LookupStage::ReadCache, attempts_left: MAX_FETCH_ATTEMPTS, give_up },
        events,
    );
}

/// Whether `actions` answer that there is no record.
pub open spec fn answers_nothing(actions: Seq<LookupAction>) -> bool {
    exists|i: int| 0 <= i < actions.len() && actions[i] == LookupAction::ReturnNothing
}

proof fn lemma_gives_up_after_budget(s: CachedLookup, events: Seq<LookupEvent>)
    requires
        s.wf(),
        s.give_up == GiveUp::ReturnNothing,
        answers_nothing(run_actions(s, events)),
    ensures
        fetch_count(run_actions(s, events)) == fetch_budget(s),
        s.stage == LookupStage::ReadCache || s.stage == LookupStage::Fetch,
    decreases events.len(),
{
    let actions = run_actions(s, events);
    let (t, a) = s.next(events[0]);
    let rest = run_actions(t, events.drop_first());
    assert(actions.drop_first() =~= rest);
    assert(actions[0] == a);
    assert(fetch_count(actions) == (if a is Fetch { 1nat } else { 0nat }) + fetch_count(rest));
    let i = choose|i: int| 0 <= i < actions.len() && actions[i] == LookupAction::ReturnNothing;
    if i == 0 {
        assert(a == LookupAction::ReturnNothing);
        assert(t.stage == LookupStage::Done);
        assert(rest =~= Seq::<LookupAction>::empty());
    } else {
        assert(rest[i - 1] == LookupAction::ReturnNothing);
        assert(answers_nothing(rest));
        lemma_gives_up_after_budget(t, events.drop_first());
    }
}

/// A transaction lookup answers that there is no record only after three
/// fetches, each of them failed.
pub proof fn law_gives_up_after_three_fetches(events: Seq<LookupEvent>)
    requires
        answers_nothing(
            run_actions(
                CachedLookup {
                    stage: LookupStage::ReadCache,
                    attempts_left: MAX_FETCH_ATTEMPTS,
                    give_up: GiveUp::ReturnNothing,
                },
                events,
            ),
        ),
    ensures
        fetch_count(
            run_actions(
                CachedLookup {
                    stage: LookupStage::ReadCache,
                    attempts_left: MAX_FETCH_ATTEMPTS,
                    give_up: GiveUp::ReturnNothing,
                },
                events,
            ),
        ) == MAX_FETCH_ATTEMPTS,
{
    lemma_gives_up_after_budget(
        CachedLookup { stage: LookupStage::ReadCache, attempts_left: MAX_FETCH_ATTEMPTS, give_up: GiveUp::ReturnNothing },
        events,
    );
}

/// A record found in the cache is answered at once: the lookup ends without
/// fetching.
pub proof fn law_cache_hit_answers_without_fetch(s: CachedLookup)
    requires
        s.stage == LookupStage::ReadCache,
    ensures
        s.next(LookupEvent::CacheHit).1 == LookupAction::ReturnCached,
        s.next(LookupEvent::CacheHit).0.stage == LookupStage::Done,
{
}

/// A fetched record is answered only once it is stored: the only step that
/// answers a fetched record is the one that learns the store succeeded.
pub proof fn law_fetched_record_stored_first(s: CachedLookup, event: LookupEvent)
    requires
        s.accepts(event),
        s.next(event).1 == LookupAction::ReturnFetched,
    ensures
        s.stage == LookupStage::Store,
        event == LookupEvent::Stored,
{
}

/// A lookup just started, before it has read the cache.
pub open spec fn started(give_up: GiveUp) -> CachedLookup {
    CachedLookup { stage: LookupStage::ReadCache, attempts_left: MAX_FETCH_ATTEMPTS, give_up }
}

/// Once a transaction is stored in the cache, a later lookup of its signature
/// finds the stored record, and a lookup that finds its record answers it
/// without a single fetch.
pub proof fn law_stored_record_answered_without_fetch(
    before: CacheDb,
    after: CacheDb,
    sig: Seq<u8>,
    record: Seq<u8>,
    give_up: GiveUp,
)
    requires
        after.tx_entries() == before.tx_entries().insert(tx_key_spec(sig), record),
    ensures
        after.tx_record(sig) == Some(record),
        run_actions(started(give_up), seq![LookupEvent::CacheHit]) == seq![LookupAction::ReturnCached],
        fetch_count(run_actions(started(give_up), seq![LookupEvent::CacheHit])) == 0,
{
    let s = started(give_up);
    let events = seq![LookupEvent::CacheHit];
    let (t, a) = s.next(events[0]);
    assert(events.drop_first() =~= Seq::<LookupEvent>::empty());
    assert(run_actions(t, events.drop_first()) =~= Seq::<LookupAction>::empty());
    assert(run_actions(s, events) =~= seq![LookupAction::ReturnCached]);
    let actions = seq![LookupAction::ReturnCached];
    assert(actions.drop_first() =~= Seq::<LookupAction>::empty());
    assert(fetch_count(actions.drop_first()) == 0);
    assert(!(actions[0] is Fetch));
    assert(fetch_count(actions) == 0);
}

/// The cache is written only after a miss and a fetch that succeeded: the
/// only step that asks for a store is the one that learns a fetch succeeded.
pub proof fn law_store_only_after_fetch(s: CachedLookup, event: LookupEvent)
    requires
        s.accepts(event),
        s.next(event).1 == LookupAction::Store,
    ensures
        s.stage == LookupStage::Fetch,
        event == LookupEvent::FetchSucceeded,
{
}

/// What a lookup answers when its last fetch fails: its policy's answer.
pub open spec fn give_up_answer(give_up: GiveUp) -> LookupAction {
    match give_up {
        GiveUp::ReturnNothing => LookupAction::ReturnNothing,
        GiveUp::ReturnLastError => LookupAction::ReturnError,
    }
}

/// A missed cache read leads to a first fetch, at once and with all three
/// attempts ahead, whatever the lookup answers on giving up.
pub proof fn law_miss_fetches_at_once(s: CachedLookup)
    requires
        s.stage == LookupStage::ReadCache,
    ensures
        s.next(LookupEvent::CacheMiss).1 == (LookupAction::Fetch { wait_ms: 0 }),
        s.next(LookupEvent::CacheMiss).0.stage == LookupStage::Fetch,
        s.next(LookupEvent::CacheMiss).0.attempts_left == MAX_FETCH_ATTEMPTS,
        s.next(LookupEvent::CacheMiss).0.give_up == s.give_up,
{
}

/// A fetch that succeeds is never thrown away: whatever attempts remain, the
/// lookup goes on to store what was fetched.
pub proof fn law_successful_fetch_is_stored(s: CachedLookup)
    requires
        s.wf(),
        s.stage == LookupStage::Fetch,
    ensures
        s.next(LookupEvent::FetchSucceeded).1 == LookupAction::Store,
        s.next(LookupEvent::FetchSucceeded).0.stage == LookupStage::Store,
        s.next(LookupEvent::FetchSucceeded).0.give_up == s.give_up,
{
}

/// A failed fetch with attempts still ahead is retried after the retry
/// delay, with one attempt fewer, whatever the lookup answers on giving up.
pub proof fn law_failed_fetch_is_retried(s: CachedLookup)
    requires
        s.wf(),
        s.stage == LookupStage::Fetch,
        s.attempts_left >= 2,
    ensures
        s.next(LookupEvent::FetchFailed).1 == (LookupAction::Fetch { wait_ms: RETRY_DELAY_MS }),
        s.next(LookupEvent::FetchFailed).0.stage == LookupStage::Fetch,
        s.next(LookupEvent::FetchFailed).0.attempts_left == s.attempts_left - 1,
        s.next(LookupEvent::FetchFailed).0.give_up == s.give_up,
{
}

/// The last attempt failing ends the lookup with its policy's answer.
pub proof fn law_last_failure_gives_up(s: CachedLookup)
    requires
        s.wf(),
        s.stage == LookupStage::Fetch,
        s.attempts_left == 1,
    ensures
        s.next(LookupEvent::FetchFailed).1 == give_up_answer(s.give_up),
        s.next(LookupEvent::FetchFailed).0.stage == LookupStage::Done,
{
}

/// Whether some fetch failure is answered by giving up (answering nothing or
/// an error).
pub open spec fn gives_up_on_failure(events: Seq<LookupEvent>, actions: Seq<LookupAction>) -> bool {
    exists|i: int|
        0 <= i < actions.len() && i < events.len() && events[i] == LookupEvent::FetchFailed && (
        actions[i] == LookupAction::ReturnNothing || actions[i] == LookupAction::ReturnError)
}

proof fn lemma_failure_gives_up_after_budget(s: CachedLookup, events: Seq<LookupEvent>)
    requires
        s.wf(),
        gives_up_on_failure(events, run_actions(s, events)),
    ensures
        fetch_count(run_actions(s, events)) == fetch_budget(s),
        s.stage == LookupStage::ReadCache || s.stage == LookupStage::Fetch,
    decreases events.len(),
{
    let actions = run_actions(s, events);
    let (t, a) = s.next(events[0]);
    let rest = run_actions(t, events.drop_first());
    assert(actions.drop_first() =~= rest);
    assert(actions[0] == a);
    assert(fetch_count(actions) == (if a is Fetch { 1nat } else { 0nat }) + fetch_count(rest));
    let i = choose|i: int|
        0 <= i < actions.len() && i < events.len() && events[i] == LookupEvent::FetchFailed && (
        actions[i] == LookupAction::ReturnNothing || actions[i] == LookupAction::ReturnError);
    if i == 0 {
        assert(t.stage == LookupStage::Done);
        assert(rest =~= Seq::<LookupAction>::empty());
    } else {
        assert(rest[i - 1] == actions[i]);
        assert(events.drop_first()[i - 1] == events[i]);
        assert(gives_up_on_failure(events.drop_first(), rest));
        lemma_failure_gives_up_after_budget(t, events.drop_first());
    }
}

/// A lookup of either kind (a transaction's or a block's) gives up on a
/// failed fetch only after three fetches in all.
pub proof fn law_gives_up_only_after_three_fetches(give_up: GiveUp, events: Seq<LookupEvent>)
    requires
        gives_up_on_failure(events, run_actions(started(give_up), events)),
    ensures
        fetch_count(run_actions(started(give_up), events)) == MAX_FETCH_ATTEMPTS,
{
    lemma_failure_gives_up_after_budget(started(give_up), events);
}

/// The outcome of a store decides the answer: a stored record is answered,
/// a failed store is answered with its error.
pub proof fn law_store_outcome_answers(s: CachedLookup)
    requires
        s.stage == LookupStage::Store,
    ensures
        s.next(LookupEvent::Stored).1 == LookupAction::ReturnFetched,
        s.next(LookupEvent::StoreFailed).1 == LookupAction::ReturnError,
        s.next(LookupEvent::Stored).0.stage == LookupStage::Done,
        s.next(LookupEvent::StoreFailed).0.stage == LookupStage::Done,
{
}

/// A cache read that fails ends the lookup with its error, without a fetch.
pub proof fn law_cache_failure_answers_error(s: CachedLookup)
    requires
        s.stage == LookupStage::ReadCache,
    ensures
        s.next(LookupEvent::CacheFailed).1 == LookupAction::ReturnError,
        s.next(LookupEvent::CacheFailed).0.stage == LookupStage::Done,
{
}

} // verus!
