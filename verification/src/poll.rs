//! The deduplicating poll loop.
//!
//! [`DedupLoop`] holds the set of entity identities already emitted and the
//! optional limit of unique entities.  The surrounding program drives it:
//! while [`DedupLoop::should_fetch`] says so, it fetches one page and hands
//! the decoded entities to [`DedupLoop::process_page`], which returns exactly
//! the entities to emit (first occurrence of each identity) and records every
//! identity of the page as seen.  The check runs before each fetch, so a
//! supplied limit of zero means no page is ever fetched.

use vstd::prelude::*;
use std::collections::HashSet;
use crate::model::{GameSearchResponse, GamesSearchResponse};

verus! {

broadcast use vstd::std_specs::hash::group_hash_axioms;

/// The set of numeric identities occurring in a page, in model terms.
pub open spec fn page_ids(page: Seq<GameSearchResponse>) -> Set<u64>
    decreases page.len(),
{
    if page.len() == 0 {
        Set::empty()
    } else {
        page_ids(page.skip(1)).insert(page[0].place_id)
    }
}

/// The entities a page causes to be emitted, given the identities already
/// seen before the page: the first occurrence of each identity not yet seen,
/// in page order.
pub open spec fn emitted_from(seen: Set<u64>, page: Seq<GameSearchResponse>) -> Seq<
    GameSearchResponse,
>
    decreases page.len(),
{
    if page.len() == 0 {
        Seq::empty()
    } else if seen.contains(page[0].place_id) {
        emitted_from(seen.insert(page[0].place_id), page.skip(1))
    } else {
        seq![page[0]] + emitted_from(seen.insert(page[0].place_id), page.skip(1))
    }
}

/// How often an entity with the given identity occurs in a sequence.
pub open spec fn count_with_id(s: Seq<GameSearchResponse>, id: u64) -> nat
    decreases s.len(),
{
    if s.len() == 0 {
        0
    } else {
        (if s[0].place_id == id {
            1nat
        } else {
            0nat
        }) + count_with_id(s.skip(1), id)
    }
}

/// The identities occurring anywhere in a sequence of pages.
pub open spec fn all_page_ids(pages: Seq<Seq<GameSearchResponse>>) -> Set<u64>
    decreases pages.len(),
{
    if pages.len() == 0 {
        Set::empty()
    } else {
        page_ids(pages[0]) + all_page_ids(pages.skip(1))
    }
}

/// The seen set after processing a sequence of pages in order, starting from
/// a given seen set.
pub open spec fn seen_after_pages(seen: Set<u64>, pages: Seq<Seq<GameSearchResponse>>) -> Set<u64>
    decreases pages.len(),
{
    if pages.len() == 0 {
        seen
    } else {
        seen_after_pages(seen + page_ids(pages[0]), pages.skip(1))
    }
}

/// The deduplicating poll loop's state: the identities already emitted and
/// the optional target count of unique entities.
pub struct DedupLoop {
    pub seen: HashSet<u64>,
    pub limit: Option<usize>,
}

impl DedupLoop {
    /// Whether another page should be fetched: always when no limit was
    /// supplied, else only while fewer unique entities than the limit have
    /// been seen.
    pub open spec fn spec_should_fetch(self) -> bool {
        match self.limit {
            Some(l) => self.seen@.len() < l,
            None => true,
        }
    }

    /// A fresh loop: nothing seen yet, with the given optional limit.
    pub fn new(limit: Option<usize>) -> (r: DedupLoop)
        ensures
            r.limit == limit,
            r.seen@ == Set::<u64>::empty(),
    {
        DedupLoop { seen: HashSet::new(), limit }
    }

    /// How many unique entity identities have been seen so far.
    pub fn seen_count(&self) -> (r: usize)
        ensures
            r == self.seen@.len(),
    {
        self.seen.len()
    }

    /// The termination check, run before each fetch.
    pub fn should_fetch(&self) -> (r: bool)
        ensures
            r == self.spec_should_fetch(),
    {
        match self.limit {
            Some(l) => self.seen.len() < l,
            None => true,
        }
    }

    /// Processes one fetched page: returns exactly the entities whose
    /// identity had not been seen before their position (these are to be
    /// emitted, in page order) and records every identity of the page.
    pub fn process_page(&mut self, page: &GamesSearchResponse) -> (emitted: Vec<GameSearchResponse>)
        ensures
            final(self).limit == old(self).limit,
            final(self).seen@ == old(self).seen@ + page_ids(page.games@),
            emitted@ == emitted_from(old(self).seen@, page.games@),
    {
        let ghost seen0 = self.seen@;
        let mut emitted: Vec<GameSearchResponse> = Vec::new();
        let n: usize = page.games.len();
        let mut i: usize = 0;
        proof {
            assert(page.games@.skip(0) =~= page.games@);
            assert(emitted@ + emitted_from(seen0, page.games@) =~= emitted_from(
                seen0,
                page.games@,
            ));
        }
        while i < n
            invariant
                n == page.games@.len(),
                i <= n,
                self.limit == old(self).limit,
                self.seen@ + page_ids(page.games@.skip(i as int)) == seen0 + page_ids(page.games@),
                emitted@ + emitted_from(self.seen@, page.games@.skip(i as int)) == emitted_from(
                    seen0,
                    page.games@,
                ),
            decreases n - i,
        {
            let ghost rest = page.games@.skip(i as int);
            let ghost seen_before = self.seen@;
            proof {
                assert(rest[0] == page.games@[i as int]);
                assert(rest.skip(1) =~= page.games@.skip(i as int + 1));
            }
            let game = &page.games[i];
            if !self.seen.contains(&game.place_id) {
                emitted.push(game.clone());
                proof {
                    assert(emitted@ + emitted_from(seen_before.insert(game.place_id), rest.skip(1))
                        =~= (emitted@.drop_last() + (seq![rest[0]] + emitted_from(
                        seen_before.insert(game.place_id),
                        rest.skip(1),
                    ))));
                }
            }
            self.seen.insert(game.place_id);
            proof {
                assert(self.seen@ + page_ids(rest.skip(1)) =~= seen_before + page_ids(rest));
            }
            i = i + 1;
        }
        proof {
            assert(page.games@.skip(n as int) =~= Seq::<GameSearchResponse>::empty());
            assert(self.seen@ + page_ids(page.games@.skip(n as int)) =~= self.seen@);
            assert(emitted@ + emitted_from(self.seen@, page.games@.skip(n as int)) =~= emitted@);
        }
        emitted
    }
}

/// The seen set after processing any sequence of pages is exactly the
/// starting seen set together with every identity occurring in those pages;
/// started empty, it is exactly the set of distinct identities seen so far.
pub proof fn lemma_seen_set_is_distinct_ids(seen: Set<u64>, pages: Seq<Seq<GameSearchResponse>>)
    ensures
        seen_after_pages(seen, pages) == seen + all_page_ids(pages),
    decreases pages.len(),
{
    if pages.len() == 0 {
        assert(seen + all_page_ids(pages) =~= seen);
    } else {
        lemma_seen_set_is_distinct_ids(seen + page_ids(pages[0]), pages.skip(1));
        assert((seen + page_ids(pages[0])) + all_page_ids(pages.skip(1)) =~= seen + all_page_ids(
            pages,
        ));
    }
}

/// The set of identities of a page is finite.
pub proof fn lemma_page_ids_finite(page: Seq<GameSearchResponse>)
    ensures
        page_ids(page).finite(),
    decreases page.len(),
{
    if page.len() > 0 {
        lemma_page_ids_finite(page.skip(1));
    }
}

/// Processing a page never shrinks the seen set: the old set is contained in
/// the new one, and its size is monotonically non-decreasing.
pub proof fn lemma_seen_monotone(seen: Set<u64>, page: Seq<GameSearchResponse>)
    requires
        seen.finite(),
    ensures
        seen.subset_of(seen + page_ids(page)),
        seen.len() <= (seen + page_ids(page)).len(),
{
    lemma_page_ids_finite(page);
    vstd::set_lib::lemma_len_subset(seen, seen + page_ids(page));
}

/// A page emits an entity with a given identity exactly once when that
/// identity occurs in the page and was not seen before it, and never
/// otherwise.
pub proof fn lemma_emitted_count(seen: Set<u64>, page: Seq<GameSearchResponse>, id: u64)
    ensures
        count_with_id(emitted_from(seen, page), id) == if !seen.contains(id) && page_ids(
            page,
        ).contains(id) {
            1nat
        } else {
            0nat
        },
    decreases page.len(),
{
    if page.len() == 0 {
        assert(!page_ids(page).contains(id));
    } else {
        let x = page[0].place_id;
        let rest = page.skip(1);
        lemma_emitted_count(seen.insert(x), rest, id);
        if !seen.contains(x) {
            let tail = emitted_from(seen.insert(x), rest);
            assert((seq![page[0]] + tail).skip(1) =~= tail);
            assert(count_with_id(seq![page[0]] + tail, id) == (if x == id {
                1nat
            } else {
                0nat
            }) + count_with_id(tail, id));
        }
    }
}

/// Idempotence of emission: when the same identity occurs in two successive
/// pages and was unseen before the first, exactly one entity with that
/// identity is emitted over the two pages (by the first page), and the
/// identity is recorded as seen afterwards.
pub proof fn lemma_emit_once_across_pages(
    seen: Set<u64>,
    p1: Seq<GameSearchResponse>,
    p2: Seq<GameSearchResponse>,
    id: u64,
)
    requires
        !seen.contains(id),
        page_ids(p1).contains(id),
        page_ids(p2).contains(id),
    ensures
        count_with_id(emitted_from(seen, p1), id) == 1,
        count_with_id(emitted_from(seen + page_ids(p1), p2), id) == 0,
        (seen + page_ids(p1)).contains(id),
{
    lemma_emitted_count(seen, p1, id);
    lemma_emitted_count(seen + page_ids(p1), p2, id);
}

} // verus!
