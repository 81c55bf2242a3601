//! The decisions of listing an address's transaction signatures page by page,
//! newest first: ask the RPC node for a page of up to a thousand signatures
//! before the oldest one seen so far, keep those that parse, stop at an empty
//! page or once `max_count` signatures are kept. The caller performs the
//! requests; this module decides what to keep and what to ask for next.
use vstd::prelude::*;

use crate::codec::{parse_signature, signature_from_base58};

verus! {

/// How many signatures one page asks for (the RPC node's own limit).
pub const PAGE_LIMIT: usize = 1000;

/// How long to wait between two pages.
pub const PAGE_DELAY_MS: u64 = 100;

/// How long to wait before asking again for a page whose request failed.
pub const ERROR_DELAY_MS: u64 = 2000;

/// The signatures that the texts of a page parse to, in order; texts that do
/// not parse are skipped.
pub open spec fn parse_all(texts: Seq<Seq<char>>) -> Seq<Seq<u8>>
    decreases texts.len(),
{
    if texts.len() == 0 {
        Seq::empty()
    } else {
        parse_all(texts.drop_last()) + match signature_from_base58(texts.last()) {
            Some(bytes) => seq![bytes],
            None => Seq::empty(),
        }
    }
}

/// The bytes of each signature.
pub open spec fn sig_views(sigs: Seq<[u8; 64]>) -> Seq<Seq<u8>> {
    sigs.map_values(|s: [u8; 64]| s@)
}

/// The text of each string.
pub open spec fn text_views(texts: Seq<String>) -> Seq<Seq<char>> {
    texts.map_values(|t: String| t@)
}

/// The limit as a number.
pub open spec fn limit_of(max_count: Option<usize>) -> Option<nat> {
    match max_count {
        Some(m) => Some(m as nat),
        None => None,
    }
}

/// What is kept after a page, and whether the listing is finished: an empty
/// page finishes it; otherwise the page's signatures are added, and reaching
/// the limit cuts the list there and finishes it.
pub open spec fn page_step(max: Option<nat>, kept: Seq<Seq<u8>>, page: Seq<Seq<char>>) -> (
    Seq<Seq<u8>>,
    bool,
) {
    if page.len() == 0 {
        (kept, true)
    } else {
        let all = kept + parse_all(page);
        match max {
            Some(m) => if all.len() >= m {
                (all.take(m as int), true)
            } else {
                (all, false)
            },
            None => (all, false),
        }
    }
}

/// What to do next.
pub enum PageAction {
    /// Wait `wait_ms` milliseconds, then ask for up to `limit` signatures
    /// older than `before` (the newest ones where it is `None`).
    Fetch { wait_ms: u64, limit: usize, before: Option<[u8; 64]> },
    /// The listing is finished.
    Finish,
}

/// The state of one listing.
pub struct AddressPager {
    pub max_count: Option<usize>,
    pub signatures: Vec<[u8; 64]>,
    pub before: Option<[u8; 64]>,
    pub finished: bool,
}

impl AddressPager {
    /// The states a listing can be in: it never holds more than its limit.
    pub open spec fn wf(&self) -> bool {
        self.max_count matches Some(m) ==> self.signatures.len() <= m
    }

    /// A new listing and its first request.
    pub fn start(max_count: Option<usize>) -> (started: (AddressPager, PageAction))
        ensures
            started.0.wf(),
            started.0.max_count == max_count,
            started.0.signatures@.len() == 0,
            !started.0.finished,
            started.1 == (PageAction::Fetch { wait_ms: 0, limit: PAGE_LIMIT, before: None }),
    {
        (
            AddressPager { max_count, signatures: Vec::new(), before: None, finished: false },
            PageAction::Fetch { wait_ms: 0, limit: PAGE_LIMIT, before: None },
        )
    }

    /// The request to repeat after a failed one.
    pub fn retry_after_error(&self) -> (action: PageAction)
        ensures
            action == (PageAction::Fetch { wait_ms: ERROR_DELAY_MS, limit: PAGE_LIMIT, before: self.before }),
    {
        PageAction::Fetch { wait_ms: ERROR_DELAY_MS, limit: PAGE_LIMIT, before: self.before }
    }

    /// Takes a page (the signature texts the node answered, newest first) and
    /// decides the next action. The next request asks for signatures before
    /// the last one of the page that parsed; where none parsed, it asks for
    /// the newest again.
    pub fn on_page(&mut self, texts: &Vec<String>) -> (action: PageAction)
        requires
            old(self).wf(),
            !old(self).finished,
        ensures
            final(self).wf(),
            final(self).max_count == old(self).max_count,
            (sig_views(final(self).signatures@), final(self).finished) == page_step(
                limit_of(old(self).max_count),
                sig_views(old(self).signatures@),
                text_views(texts@),
            ),
            final(self).finished ==> action == PageAction::Finish,
            !final(self).finished ==> action == (PageAction::Fetch {
                wait_ms: PAGE_DELAY_MS,
                limit: PAGE_LIMIT,
                before: final(self).before,
            }),
            !final(self).finished ==> match final(self).before {
                Some(b) => parse_all(text_views(texts@)).len() > 0 && b@ == parse_all(
                    text_views(texts@),
                ).last(),
                None => parse_all(text_views(texts@)).len() == 0,
            },
    {
        let ghost views = text_views(texts@);
        let ghost kept0 = sig_views(self.signatures@);
        if texts.len() == 0 {
            self.finished = true;
            return PageAction::Finish;
        }
        let mut oldest: Option<[u8; 64]> = None;
        let mut i: usize = 0;
        while i < texts.len()
            invariant
                0 <= i <= texts.len(),
                views == text_views(texts@),
                self.max_count == old(self).max_count,
                !self.finished,
                kept0 == sig_views(old(self).signatures@),
                sig_views(self.signatures@) == kept0 + parse_all(views.take(i as int)),
                self.max_count matches Some(m) ==> self.signatures.len() <= m,
                self.max_count matches Some(m) ==> (self.signatures.len() >= m ==> parse_all(
                    views.take(i as int),
                ).len() == 0),
                match oldest {
                    Some(b) => parse_all(views.take(i as int)).len() > 0 && b@ == parse_all(
                        views.take(i as int),
                    ).last(),
                    None => parse_all(views.take(i as int)).len() == 0,
                },
            decreases texts.len() - i,
        {
            proof {
                lemma_parse_all_push(views.take(i as int), views[i as int]);
                assert(views.take(i as int).push(views[i as int]) =~= views.take(i + 1));
                assert(texts@[i as int]@ == views[i as int]);
            }
            let parsed = parse_signature(texts[i].as_str());
            match parsed {
                Some(sig) => {
                    let ghost before_push = self.signatures@;
                    oldest = Some(sig);
                    self.signatures.push(sig);
                    proof {
                        assert(signature_from_base58(views[i as int]) == Some(sig@));
                        assert(parse_all(views.take(i + 1)) == parse_all(views.take(i as int)) + seq![sig@]);
                        assert(sig_views(self.signatures@) =~= sig_views(before_push).push(sig@));
                        assert(sig_views(self.signatures@) =~= kept0 + parse_all(views.take(i + 1)));
                    }
                    match self.max_count {
                        Some(max) => {
                            if self.signatures.len() >= max {
                                self.signatures.truncate(max);
                                self.finished = true;
                                proof {
                                    let whole = kept0 + parse_all(views);
                                    let part = kept0 + parse_all(views.take(i + 1));
                                    lemma_parse_all_append(views.take(i + 1), views.skip(i + 1));
                                    assert(views.take(i + 1) + views.skip(i + 1) =~= views);
                                    assert(whole =~= part + parse_all(views.skip(i + 1)));
                                    assert(sig_views(self.signatures@) =~= part.take(max as int));
                                    assert(whole.take(max as int) =~= part.take(max as int));
                                }
                                return PageAction::Finish;
                            }
                        },
                        None => {},
                    }
                },
                None => {
                    proof {
                        assert(parse_all(views.take(i + 1)) =~= parse_all(views.take(i as int)));
                    }
                },
            }
            i = i + 1;
        }
        proof {
            assert(views.take(texts.len() as int) =~= views);
        }
        match self.max_count {
            Some(max) => {
                if self.signatures.len() >= max {
                    self.finished = true;
                    proof {
                        assert(sig_views(self.signatures@).take(max as int) =~= sig_views(self.signatures@));
                    }
                    return PageAction::Finish;
                }
            },
            None => {},
        }
        self.before = oldest;
        PageAction::Fetch { wait_ms: PAGE_DELAY_MS, limit: PAGE_LIMIT, before: oldest }
    }
}

pub(crate) proof fn lemma_parse_all_push(texts: Seq<Seq<char>>, t: Seq<char>)
    ensures
        parse_all(texts.push(t)) == parse_all(texts) + match signature_from_base58(t) {
            Some(bytes) => seq![bytes],
            None => Seq::empty(),
        },
{
    assert(texts.push(t).drop_last() =~= texts);
}

proof fn lemma_parse_all_append(a: Seq<Seq<char>>, b: Seq<Seq<char>>)
    ensures
        parse_all(a + b) == parse_all(a) + parse_all(b),
    decreases b.len(),
{
    if b.len() == 0 {
        assert(a + b =~= a);
        assert(parse_all(a) + parse_all(b) =~= parse_all(a));
    } else {
        lemma_parse_all_append(a, b.drop_last());
        assert((a + b).drop_last() =~= a + b.drop_last());
        assert((a + b).last() == b.last());
        assert(parse_all(a + b) =~= parse_all(a) + parse_all(b));
    }
}

/// All the signatures of the pages in order, up to the first empty page.
pub open spec fn all_parsed(pages: Seq<Seq<Seq<char>>>) -> Seq<Seq<u8>>
    decreases pages.len(),
{
    if pages.len() == 0 || pages[0].len() == 0 {
        Seq::empty()
    } else {
        parse_all(pages[0]) + all_parsed(pages.drop_first())
    }
}

/// What a listing keeps, from `kept`, when the node answers `pages` in turn.
pub open spec fn run_pages(max: Option<nat>, kept: Seq<Seq<u8>>, pages: Seq<Seq<Seq<char>>>) -> Seq<
    Seq<u8>,
>
    decreases pages.len(),
{
    if pages.len() == 0 {
        kept
    } else {
        let (next, finished) = page_step(max, kept, pages[0]);
        if finished {
            next
        } else {
            run_pages(max, next, pages.drop_first())
        }
    }
}

/// The first `max` elements of `s` (all of them where there is no limit or
/// `s` is shorter).
pub open spec fn take_at_most(s: Seq<Seq<u8>>, max: Option<nat>) -> Seq<Seq<u8>> {
    match max {
        Some(m) => if s.len() <= m {
            s
        } else {
            s.take(m as int)
        },
        None => s,
    }
}

proof fn lemma_run_pages(max: Option<nat>, kept: Seq<Seq<u8>>, pages: Seq<Seq<Seq<char>>>)
    requires
        max matches Some(m) ==> kept.len() <= m,
    ensures
        run_pages(max, kept, pages) == take_at_most(kept + all_parsed(pages), max),
    decreases pages.len(),
{
    if pages.len() == 0 {
        assert(kept + all_parsed(pages) =~= kept);
    } else if pages[0].len() == 0 {
        assert(kept + all_parsed(pages) =~= kept);
    } else {
        let all = kept + parse_all(pages[0]);
        let rest = all_parsed(pages.drop_first());
        assert(kept + all_parsed(pages) =~= all + rest);
        let (next, finished) = page_step(max, kept, pages[0]);
        if finished {
            match max {
                Some(m) => {
                    assert((all + rest).take(m as int) =~= all.take(m as int));
                },
                None => {},
            }
        } else {
            lemma_run_pages(max, next, pages.drop_first());
        }
    }
}

/// A listing keeps exactly the first `max_count` signatures that parse, in
/// the order the node lists them, of the pages up to the first empty one (all
/// of them where there is no limit or fewer were listed).
pub proof fn law_listing_keeps_first_signatures(max_count: Option<usize>, pages: Seq<Seq<Seq<char>>>)
    ensures
        run_pages(limit_of(max_count), Seq::empty(), pages) == take_at_most(
            all_parsed(pages),
            limit_of(max_count),
        ),
{
    lemma_run_pages(limit_of(max_count), Seq::empty(), pages);
    assert(Seq::<Seq<u8>>::empty() + all_parsed(pages) =~= all_parsed(pages));
}

} // verus!
