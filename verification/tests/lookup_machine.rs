use transaction_cache::lookup::{
    CachedLookup, GiveUp, LookupAction, LookupEvent, LookupStage, MAX_FETCH_ATTEMPTS, RETRY_DELAY_MS,
};

#[test]
fn cache_hit_answers_without_fetch() {
    let (mut s, first) = CachedLookup::start(GiveUp::ReturnNothing);
    assert!(first == LookupAction::ReadCache);
    assert!(s.step(LookupEvent::CacheHit) == LookupAction::ReturnCached);
    assert!(s.stage == LookupStage::Done);
}

#[test]
fn miss_fetches_then_stores_then_answers() {
    let (mut s, _) = CachedLookup::start(GiveUp::ReturnNothing);
    assert!(s.step(LookupEvent::CacheMiss) == LookupAction::Fetch { wait_ms: 0 });
    assert!(s.step(LookupEvent::FetchSucceeded) == LookupAction::Store);
    assert!(s.step(LookupEvent::Stored) == LookupAction::ReturnFetched);
}

#[test]
fn transaction_lookup_gives_up_after_three_failures() {
    let (mut s, _) = CachedLookup::start(GiveUp::ReturnNothing);
    assert_eq!(MAX_FETCH_ATTEMPTS, 3);
    assert!(s.step(LookupEvent::CacheMiss) == LookupAction::Fetch { wait_ms: 0 });
    assert!(s.step(LookupEvent::FetchFailed) == LookupAction::Fetch { wait_ms: RETRY_DELAY_MS });
    assert!(s.step(LookupEvent::FetchFailed) == LookupAction::Fetch { wait_ms: 100 });
    assert!(s.step(LookupEvent::FetchFailed) == LookupAction::ReturnNothing);
    assert!(s.stage == LookupStage::Done);
}

#[test]
fn block_lookup_answers_last_error_after_three_failures() {
    let (mut s, _) = CachedLookup::start(GiveUp::ReturnLastError);
    s.step(LookupEvent::CacheMiss);
    s.step(LookupEvent::FetchFailed);
    s.step(LookupEvent::FetchFailed);
    assert!(s.step(LookupEvent::FetchFailed) == LookupAction::ReturnError);
}

#[test]
fn retry_then_success() {
    let (mut s, _) = CachedLookup::start(GiveUp::ReturnLastError);
    s.step(LookupEvent::CacheMiss);
    assert!(s.step(LookupEvent::FetchFailed) == LookupAction::Fetch { wait_ms: 100 });
    assert!(s.step(LookupEvent::FetchSucceeded) == LookupAction::Store);
    assert!(s.step(LookupEvent::Stored) == LookupAction::ReturnFetched);
}

#[test]
fn cache_and_store_errors_end_with_error() {
    let (mut s, _) = CachedLookup::start(GiveUp::ReturnNothing);
    assert!(s.step(LookupEvent::CacheFailed) == LookupAction::ReturnError);
    let (mut t, _) = CachedLookup::start(GiveUp::ReturnNothing);
    t.step(LookupEvent::CacheMiss);
    t.step(LookupEvent::FetchSucceeded);
    assert!(t.step(LookupEvent::StoreFailed) == LookupAction::ReturnError);
}
