//! The paginated collector: "fetch pages until done" with a truncation
//! guard against overshooting the target and a safety ceiling against an
//! upstream that never signals completion.
//!
//! The collector itself fetches nothing. A driver fetches a page at the
//! current offset, feeds it to [`PageCollector::absorb_page`], and stops as
//! soon as that returns true; the contracts pin down exactly which items
//! are kept and when collection stops.

use vstd::arithmetic::div_mod::lemma_div_by_multiple;
use vstd::arithmetic::div_mod::lemma_div_by_multiple_is_strongly_ordered;
use vstd::arithmetic::div_mod::lemma_div_is_ordered;
use vstd::prelude::*;

verus! {

/// The safety ceiling: no collection keeps more than this many pages'
/// worth of items, so no upstream can draw unbounded request floods.
pub const MAX_REPEATED_REQUESTS: usize = 200;

/// The page size of blended-search requests.
pub const MAX_SEARCH_COUNT: usize = 49;

/// The page size of feed-update requests.
pub const MAX_UPDATE_COUNT: usize = 100;

/// How many items of a fetched page are kept: all of them, or only enough
/// for the running total to reach the target.
pub open spec fn keep_count(target: Option<usize>, have: int, page_len: int) -> int {
    match target {
        Some(t) => if page_len <= t - have {
            page_len
        } else {
            t - have
        },
        None => page_len,
    }
}

/// Whether collection stops once `have` items are kept: at the natural end
/// (an empty page), at the target, or at the safety ceiling of
/// `MAX_REPEATED_REQUESTS` pages' worth of items.
pub open spec fn stop_after(
    page_size: int,
    target: Option<usize>,
    have: int,
    page_was_empty: bool,
) -> bool {
    ||| page_was_empty
    ||| (match target {
        Some(t) => have >= t,
        None => false,
    })
    ||| have / page_size >= MAX_REPEATED_REQUESTS as int
}

/// Page-request state for one paginated fetch: the fixed page size, the
/// optional target total, the offset of the next page to fetch, the
/// accumulated results, and whether collection has stopped. The state
/// lives only for the duration of one collection.
pub struct PageCollector<T> {
    pub page_size: usize,
    pub target: Option<usize>,
    pub offset: usize,
    pub items: Vec<T>,
    pub done: bool,
}

impl<T> PageCollector<T> {
    /// The collector invariant: a positive page size, and never more items
    /// than the target allows.
    pub open spec fn wf(&self) -> bool {
        &&& self.page_size >= 1
        &&& (self.target matches Some(t) ==> self.items@.len() <= t)
    }

    /// A fresh collection toward an optional target total.
    pub fn new(page_size: usize, target: Option<usize>) -> (c: PageCollector<T>)
        requires
            page_size >= 1,
        ensures
            c.wf(),
            c.page_size == page_size,
            c.target == target,
            c.offset == 0,
            c.items@ == Seq::<T>::empty(),
            !c.done,
    {
        let c = PageCollector { page_size, target, offset: 0, items: Vec::new(), done: false };
        proof {
            assert(c.items@ =~= Seq::<T>::empty());
        }
        c
    }

    /// Absorbs one fetched page and advances the offset by one page. An
    /// empty page ends collection with the results unchanged; otherwise
    /// the page's items are appended, truncated so the running total never
    /// exceeds the target, and collection ends exactly when the total
    /// reaches the target or the safety ceiling.
    pub fn absorb_page(&mut self, page: Vec<T>) -> (done: bool)
        requires
            old(self).wf(),
            !old(self).done,
            old(self).offset + old(self).page_size <= usize::MAX,
        ensures
            final(self).wf(),
            final(self).page_size == old(self).page_size,
            final(self).target == old(self).target,
            final(self).offset == old(self).offset + old(self).page_size,
            done == final(self).done,
            final(self).items@ == old(self).items@ + page@.take(
                keep_count(old(self).target, old(self).items@.len() as int, page@.len() as int),
            ),
            done == stop_after(
                old(self).page_size as int,
                old(self).target,
                final(self).items@.len() as int,
                page@.len() == 0,
            ),
    {
        self.offset = self.offset + self.page_size;
        if page.len() == 0 {
            self.done = true;
            proof {
                assert(page@.take(keep_count(self.target, self.items@.len() as int, 0)) =~= Seq::<
                    T,
                >::empty());
                assert(self.items@ + Seq::<T>::empty() =~= self.items@);
            }
            return true;
        }
        let keep: usize = match self.target {
            Some(t) => {
                let room = t - self.items.len();
                if page.len() <= room {
                    page.len()
                } else {
                    room
                }
            },
            None => page.len(),
        };
        let ghost kc = keep_count(self.target, self.items@.len() as int, page@.len() as int);
        proof {
            assert(keep as int == kc);
        }
        let mut page = page;
        let ghost page0 = page@;
        page.truncate(keep);
        proof {
            assert(page@ =~= page0.take(kc));
        }
        self.items.append(&mut page);
        let reached_target = match self.target {
            Some(t) => self.items.len() >= t,
            None => false,
        };
        let done = reached_target || self.items.len() / self.page_size >= MAX_REPEATED_REQUESTS;
        self.done = done;
        done
    }
}

/// The safety ceiling alone bounds collection: with no target and no empty
/// page, collection stops exactly when the kept items reach
/// `MAX_REPEATED_REQUESTS` pages' worth, and not before.
pub proof fn lemma_safety_ceiling(page_size: int, have: int)
    requires
        1 <= page_size,
        0 <= have,
    ensures
        have >= MAX_REPEATED_REQUESTS * page_size ==> stop_after(
            page_size,
            None::<usize>,
            have,
            false,
        ),
        have < MAX_REPEATED_REQUESTS * page_size ==> !stop_after(
            page_size,
            None::<usize>,
            have,
            false,
        ),
{
    lemma_div_by_multiple(MAX_REPEATED_REQUESTS as int, page_size);
    if have >= MAX_REPEATED_REQUESTS * page_size {
        lemma_div_is_ordered(MAX_REPEATED_REQUESTS * page_size, have, page_size);
    } else {
        lemma_div_by_multiple_is_strongly_ordered(
            have,
            MAX_REPEATED_REQUESTS * page_size,
            MAX_REPEATED_REQUESTS as int,
            page_size,
        );
    }
}

/// A fetch function that always returns a full page, with no target, stops
/// collection after exactly `MAX_REPEATED_REQUESTS` pages — `k` full pages
/// hold `k * page_size` items, and that count triggers the ceiling exactly
/// when `k` reaches the ceiling — so no further fetch is ever made.
pub proof fn lemma_full_pages_reach_ceiling(page_size: int, k: int)
    requires
        1 <= page_size,
        0 <= k,
    ensures
        stop_after(page_size, None::<usize>, k * page_size, false) <==> k
            >= MAX_REPEATED_REQUESTS,
{
    lemma_div_by_multiple(k, page_size);
}

/// The kept-item total of a no-target collection: each absorbed page is
/// kept whole, so the total is the sum of the page lengths.
pub open spec fn total_items(page_lens: Seq<int>) -> int
    decreases page_lens.len(),
{
    if page_lens.len() == 0 {
        0
    } else {
        total_items(page_lens.drop_last()) + page_lens.last()
    }
}

/// A fetch function that never returns a short page gives `k` pages a total
/// of exactly `k * page_size` items; with the ceiling lemmas this pins when
/// such a collection stops.
pub proof fn lemma_total_of_full_pages(page_size: int, page_lens: Seq<int>)
    requires
        forall|i: int| 0 <= i < page_lens.len() ==> page_lens[i] == page_size,
    ensures
        total_items(page_lens) == page_lens.len() * page_size,
    decreases page_lens.len(),
{
    if page_lens.len() > 0 {
        lemma_total_of_full_pages(page_size, page_lens.drop_last());
        assert(page_lens.len() * page_size == (page_lens.len() - 1) * page_size + page_size)
            by (nonlinear_arith);
    }
}

} // verus!

