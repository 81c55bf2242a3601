use solana_signature::Signature;
use transaction_cache::pager::{AddressPager, PageAction, ERROR_DELAY_MS, PAGE_LIMIT};

fn sig(n: u8) -> [u8; 64] {
    [n; 64]
}

fn text(n: u8) -> String {
    Signature::from(sig(n)).to_string()
}

fn fetch_before(action: &PageAction) -> Option<Option<[u8; 64]>> {
    match action {
        PageAction::Fetch { before, limit, .. } => {
            assert_eq!(*limit, PAGE_LIMIT);
            Some(*before)
        }
        PageAction::Finish => None,
    }
}

#[test]
fn pager_collects_until_empty_page() {
    let (mut p, first) = AddressPager::start(None);
    assert_eq!(fetch_before(&first), Some(None));
    let a = p.on_page(&vec![text(1), text(2), text(3)]);
    assert_eq!(fetch_before(&a), Some(Some(sig(3))));
    let b = p.on_page(&vec![text(4)]);
    assert_eq!(fetch_before(&b), Some(Some(sig(4))));
    let c = p.on_page(&vec![]);
    assert!(matches!(c, PageAction::Finish));
    assert_eq!(p.signatures, vec![sig(1), sig(2), sig(3), sig(4)]);
}

#[test]
fn pager_cuts_at_max_count() {
    let (mut p, _) = AddressPager::start(Some(2));
    let a = p.on_page(&vec![text(1), text(2), text(3)]);
    assert!(matches!(a, PageAction::Finish));
    assert_eq!(p.signatures, vec![sig(1), sig(2)]);
    assert!(p.finished);
}

#[test]
fn pager_cut_across_pages() {
    let (mut p, _) = AddressPager::start(Some(3));
    p.on_page(&vec![text(1), text(2)]);
    let a = p.on_page(&vec![text(3), text(4)]);
    assert!(matches!(a, PageAction::Finish));
    assert_eq!(p.signatures, vec![sig(1), sig(2), sig(3)]);
}

#[test]
fn pager_skips_unparsable_texts() {
    let (mut p, _) = AddressPager::start(None);
    let a = p.on_page(&vec![text(1), "not base58 0OIl".to_string(), text(2), "xyz".to_string()]);
    assert_eq!(fetch_before(&a), Some(Some(sig(2))));
    assert_eq!(p.signatures, vec![sig(1), sig(2)]);
}

#[test]
fn pager_restarts_from_newest_when_nothing_parses() {
    let (mut p, _) = AddressPager::start(None);
    p.on_page(&vec![text(1)]);
    let a = p.on_page(&vec!["bad".to_string()]);
    assert_eq!(fetch_before(&a), Some(None));
    assert_eq!(p.signatures, vec![sig(1)]);
}

#[test]
fn pager_with_zero_limit_keeps_nothing() {
    let (mut p, _) = AddressPager::start(Some(0));
    let a = p.on_page(&vec![text(1)]);
    assert!(matches!(a, PageAction::Finish));
    assert!(p.signatures.is_empty());
}

#[test]
fn pager_retries_failed_request_after_two_seconds() {
    let (mut p, _) = AddressPager::start(None);
    p.on_page(&vec![text(9)]);
    match p.retry_after_error() {
        PageAction::Fetch { wait_ms, before, .. } => {
            assert_eq!(wait_ms, ERROR_DELAY_MS);
            assert_eq!(wait_ms, 2000);
            assert_eq!(before, Some(sig(9)));
        }
        PageAction::Finish => panic!("a failed request is retried"),
    }
}
