use solana_signature::Signature;
use transaction_cache::fetcher::{
    within_age, FetchAction, ProbeOutcome, SignatureFetcher, SignatureFetcherBuilder, BATCH_DELAY_MS,
};

fn sig(n: u8) -> [u8; 64] {
    [n; 64]
}

fn text(n: u8) -> String {
    Signature::from(sig(n)).to_string()
}

const SEC: u128 = 1_000_000_000;

fn fetcher(max_count: Option<usize>, max_age: Option<u128>, batch: usize) -> SignatureFetcher {
    let mut b = SignatureFetcherBuilder::for_address([7u8; 32]).batch_size(batch);
    if let Some(m) = max_count {
        b = b.max_count(m);
    }
    if let Some(a) = max_age {
        b = b.max_age(a);
    }
    b.build()
}

#[test]
fn builder_defaults_ask_for_a_thousand() {
    let f = SignatureFetcherBuilder::for_address([1u8; 32]).build();
    let (run, first) = f.start(0);
    assert_eq!(run.max_count, Some(1000));
    assert_eq!(run.batch_size, 1000);
    assert!(run.max_age_nanos.is_none());
    match first {
        FetchAction::FetchBatch { address, wait_ms, limit, before } => {
            assert_eq!(address, [1u8; 32]);
            assert_eq!(wait_ms, 0);
            assert_eq!(limit, 1000);
            assert_eq!(before, None);
        }
        _ => panic!("a run starts with a page request"),
    }
}

#[test]
fn builder_settings_reach_the_run() {
    let f = SignatureFetcherBuilder::for_address([2u8; 32])
        .max_count(5)
        .max_age(60 * SEC)
        .batch_size(10)
        .build();
    let (run, _) = f.start(123);
    assert_eq!(run.max_count, Some(5));
    assert_eq!(run.max_age_nanos, Some(60 * SEC));
    assert_eq!(run.batch_size, 10);
    assert_eq!(run.now_nanos, 123);
}

#[test]
fn age_test_values() {
    let now = 1_000 * SEC;
    assert!(within_age(now, 1_000, 0));
    assert!(within_age(now, 940, 60 * SEC));
    assert!(!within_age(now, 939, 60 * SEC));
    // a block time after now counts as no age
    assert!(within_age(now, 2_000, 0));
}

#[test]
fn without_age_limit_pages_are_kept_whole() {
    let (mut run, _) = fetcher(None, None, 3).start(0);
    run.max_count = None;
    let a = run.on_batch(&vec![text(1), text(2), "bad".to_string(), text(3)]);
    match a {
        FetchAction::FetchBatch { wait_ms, before, limit, .. } => {
            assert_eq!(wait_ms, BATCH_DELAY_MS);
            assert_eq!(limit, 3);
            assert_eq!(before, Some(sig(3)));
        }
        _ => panic!("the next page is asked for"),
    }
    let b = run.on_batch(&vec![]);
    assert!(matches!(b, FetchAction::Finish));
    assert_eq!(run.signatures, vec![sig(1), sig(2), sig(3)]);
}

#[test]
fn max_count_truncates() {
    let (mut run, _) = fetcher(Some(2), None, 3).start(0);
    let a = run.on_batch(&vec![text(1), text(2), text(3)]);
    assert!(matches!(a, FetchAction::Finish));
    assert_eq!(run.signatures, vec![sig(1), sig(2)]);
}

fn probe_run(block_times: &[i64], now_secs: u128, max_age_secs: u64) -> (Vec<[u8; 64]>, usize) {
    let (mut run, _) = fetcher(None, Some(max_age_secs as u128 * SEC), 100).start(now_secs * SEC);
    run.max_count = None;
    let texts: Vec<String> = (0..block_times.len()).map(|i| text(i as u8 + 1)).collect();
    let mut action = run.on_batch(&texts);
    let mut probes = 0;
    loop {
        match action {
            FetchAction::ProbeTx(s) => {
                probes += 1;
                let i = (s[0] - 1) as usize;
                action = run.on_probe(ProbeOutcome::BlockTime(block_times[i]));
            }
            _ => break,
        }
    }
    (run.signatures.clone(), probes)
}

#[test]
fn age_search_keeps_recent_prefix() {
    // newest first: the first three are within a minute of now
    let times = [1000, 990, 950, 900, 800, 700, 600];
    let (kept, probes) = probe_run(&times, 1000, 60);
    assert_eq!(kept, vec![sig(1), sig(2), sig(3)]);
    assert!(probes <= 3);
}

#[test]
fn age_search_all_recent_keeps_page_and_goes_on() {
    let times = [1000, 999, 998];
    let (mut run, _) = fetcher(None, Some(60 * SEC), 3).start(1000 * SEC);
    run.max_count = None;
    let mut action = run.on_batch(&vec![text(1), text(2), text(3)]);
    while let FetchAction::ProbeTx(s) = action {
        action = run.on_probe(ProbeOutcome::BlockTime(times[(s[0] - 1) as usize]));
    }
    assert!(matches!(action, FetchAction::FetchBatch { .. }));
    assert_eq!(run.signatures, vec![sig(1), sig(2), sig(3)]);
}

#[test]
fn age_search_none_recent_finishes_empty() {
    let (kept, _) = probe_run(&[10, 9, 8, 7], 1000, 60);
    assert!(kept.is_empty());
}

#[test]
fn missing_transactions_count_as_recent() {
    let (mut run, _) = fetcher(None, Some(SEC), 3).start(1000 * SEC);
    let mut action = run.on_batch(&vec![text(1), text(2)]);
    while let FetchAction::ProbeTx(_) = action {
        action = run.on_probe(ProbeOutcome::Missing);
    }
    assert_eq!(run.signatures, vec![sig(1), sig(2)]);
    let (mut run2, _) = fetcher(None, Some(SEC), 3).start(1000 * SEC);
    let mut action2 = run2.on_batch(&vec![text(1)]);
    while let FetchAction::ProbeTx(_) = action2 {
        action2 = run2.on_probe(ProbeOutcome::NoBlockTime);
    }
    assert_eq!(run2.signatures, vec![sig(1)]);
}

#[test]
fn age_cut_keeps_the_count_limit() {
    // an age cut ends the run, and the count limit still holds
    let (mut run, _) = fetcher(Some(1), Some(60 * SEC), 3).start(1000 * SEC);
    let times = [1000, 999, 10];
    let mut action = run.on_batch(&vec![text(1), text(2), text(3)]);
    while let FetchAction::ProbeTx(s) = action {
        action = run.on_probe(ProbeOutcome::BlockTime(times[(s[0] - 1) as usize]));
    }
    assert!(matches!(action, FetchAction::Finish));
    assert_eq!(run.signatures, vec![sig(1)]);
}

#[test]
fn age_cut_under_the_count_limit_keeps_young_ones() {
    let (mut run, _) = fetcher(Some(5), Some(60 * SEC), 3).start(1000 * SEC);
    let times = [1000, 999, 10];
    let mut action = run.on_batch(&vec![text(1), text(2), text(3)]);
    while let FetchAction::ProbeTx(s) = action {
        action = run.on_probe(ProbeOutcome::BlockTime(times[(s[0] - 1) as usize]));
    }
    assert!(matches!(action, FetchAction::Finish));
    assert_eq!(run.signatures, vec![sig(1), sig(2)]);
}

fn run_pages(max_count: usize, pages: &[Vec<String>]) -> Vec<[u8; 64]> {
    let (mut run, _) = fetcher(Some(max_count), None, 2).start(0);
    for page in pages {
        if let FetchAction::Finish = run.on_batch(page) {
            break;
        }
    }
    run.signatures.clone()
}

#[test]
fn smaller_count_keeps_a_prefix() {
    let pages = vec![vec![text(1), text(2)], vec![text(3), text(4)], vec![]];
    let one = run_pages(1, &pages);
    let three = run_pages(3, &pages);
    let ten = run_pages(10, &pages);
    assert_eq!(one, vec![sig(1)]);
    assert_eq!(three, vec![sig(1), sig(2), sig(3)]);
    assert_eq!(ten, vec![sig(1), sig(2), sig(3), sig(4)]);
    assert_eq!(&three[..1], &one[..]);
    assert_eq!(&ten[..3], &three[..]);
}
