//! Pagination of the remote server listing.
//!
//! The transport itself (one request per page) is a collaborator; this
//! module decides when another page is wanted and folds each page's
//! outcome into the listing built so far: at most five pages, stop at a
//! missing next-page cursor, and on any failure abort pagination and
//! keep what was accumulated — never retry, never discard prior pages.

use vstd::prelude::*;
use crate::records::{
    eligible_of, eu_allowed, filter_eligible, items_view, lemma_eligible_of_eu, raws_view,
    RawRecord, ServerItem,
};

verus! {

/// Hard cap on pages fetched in one cycle, whatever the cursor says.
pub const MAX_PAGES: u32 = 5;

/// Every record of a listing carries an allow-listed country.
pub open spec fn listing_eligible(s: Seq<ServerItem>) -> bool {
    forall|i: int| 0 <= i < s.len() ==> eu_allowed(#[trigger] s[i]@.country)
}

/// What one page request came back with: a parsed page and whether the
/// source offered a next-page cursor, or any failure (transport,
/// non-success status, malformed payload — all alike).
pub enum PageOutcome {
    Page { records: Vec<RawRecord>, has_next: bool },
    Failed,
}

/// One fetch cycle in progress: the eligible records accumulated so
/// far, how many pages were taken, and whether pagination has halted.
pub struct FetchProgress {
    pub collected: Vec<ServerItem>,
    pub pages_fetched: u32,
    pub halted: bool,
}

impl FetchProgress {
    /// The listing invariant: only allow-listed records accumulate.
    pub open spec fn wf(self) -> bool {
        listing_eligible(self.collected@)
    }

    /// Another page is wanted while pagination has not halted and the
    /// page cap is not reached.
    pub open spec fn wants_page(self) -> bool {
        !self.halted && self.pages_fetched < MAX_PAGES
    }

    /// A fresh cycle: nothing collected, no pages taken.
    pub fn new() -> (r: FetchProgress)
        ensures
            r.collected@ == Seq::<ServerItem>::empty(),
            r.pages_fetched == 0,
            !r.halted,
            r.wf(),
            r.wants_page(),
    {
        FetchProgress { collected: Vec::new(), pages_fetched: 0, halted: false }
    }

    /// Whether the transport should be asked for another page.
    pub fn should_fetch(&self) -> (b: bool)
        ensures
            b == self.wants_page(),
    {
        !self.halted && self.pages_fetched < MAX_PAGES
    }

    /// Folds one page outcome into the cycle. A page appends its
    /// eligible records and pagination goes on only if the source
    /// offered a cursor; a failure halts pagination and keeps every
    /// record accumulated so far.
    pub fn apply_page(&mut self, outcome: PageOutcome)
        requires
            old(self).wants_page(),
            old(self).wf(),
        ensures
            final(self).wf(),
            final(self).pages_fetched == old(self).pages_fetched + 1,
            match outcome {
                PageOutcome::Page { records, has_next } => {
                    &&& items_view(final(self).collected@) == items_view(old(self).collected@)
                        + eligible_of(raws_view(records@))
                    &&& final(self).halted == !has_next
                },
                PageOutcome::Failed => {
                    &&& final(self).collected == old(self).collected
                    &&& final(self).halted
                },
            },
    {
        self.pages_fetched = self.pages_fetched + 1;
        match outcome {
            PageOutcome::Page { records, has_next } => {
                let mut adds = filter_eligible(&records);
                proof {
                    lemma_eligible_of_eu(raws_view(records@));
                }
                let ghost before = self.collected@;
                let ghost added = adds@;
                self.collected.append(&mut adds);
                proof {
                    assert(items_view(before + added) =~= items_view(before) + items_view(
                        added,
                    ));
                    assert(forall|i: int|
                        0 <= i < added.len() ==> #[trigger] added[i]@ == items_view(added)[i]);
                }
                self.halted = !has_next;
            },
            PageOutcome::Failed => {
                self.halted = true;
            },
        }
    }
}

} // verus!
