//! Descriptor selection and page-request construction.
//!
//! At startup the poller fetches the available ranking descriptors once,
//! selects the one named `"Sponsored"` (first exact match wins), and from it
//! builds the page request that every iteration of the poll loop reuses
//! unchanged: the cursor never advances and the row window is fixed.

use vstd::prelude::*;
use vstd::string::StringExecFns;
use crate::model::{GameSort, GameSortsResponse, PageContext, PollError};

verus! {

/// The fixed row offset every page request starts at.
pub const START_ROWS: usize = 0;

/// The fixed page size every page request asks for.
pub const MAX_ROWS: usize = 32;

/// The fixed sort position sent with every page request.
pub const SORT_POSITION: usize = 5;

/// The name of the one ranking descriptor the poller uses.
pub open spec fn spec_sponsored_name() -> Seq<char> {
    "Sponsored"@
}

/// Whether a descriptor is the sponsored ranking: its name equals the
/// sentinel exactly.
pub open spec fn is_sponsored(sort: GameSort) -> bool {
    sort.name@ == spec_sponsored_name()
}

/// Selects the sponsored ranking descriptor: the index of the first
/// descriptor whose name is exactly `"Sponsored"`, or `NotFound` when no
/// descriptor matches.
pub fn find_sponsored_sort(resp: &GameSortsResponse) -> (r: Result<usize, PollError>)
    ensures
        match r {
            Ok(i) => i < resp.sorts@.len() && is_sponsored(resp.sorts@[i as int]) && (forall|j: int|
                0 <= j < i ==> !is_sponsored(resp.sorts@[j])),
            Err(e) => e == PollError::NotFound && (forall|j: int|
                0 <= j < resp.sorts@.len() ==> !is_sponsored(resp.sorts@[j])),
        },
{
    let target: String = String::from_str("Sponsored");
    let n: usize = resp.sorts.len();
    let mut i: usize = 0;
    while i < n
        invariant
            n == resp.sorts@.len(),
            i <= n,
            target@ == spec_sponsored_name(),
            forall|j: int| 0 <= j < i ==> !is_sponsored(resp.sorts@[j]),
        decreases n - i,
    {
        if resp.sorts[i].name == target {
            return Ok(i);
        }
        i = i + 1;
    }
    Err(PollError::NotFound)
}

/// The region id every page fetch uses: the caller-supplied override when
/// present, else the given default (the selected descriptor's own region).
pub open spec fn spec_effective_region(region_override: Option<usize>, default_region: usize) -> usize {
    match region_override {
        Some(r) => r,
        None => default_region,
    }
}

/// Resolves the effective region id from an optional override and the
/// selected descriptor's default.
pub fn effective_region_id(region_override: Option<usize>, default_region: usize) -> (r: usize)
    ensures
        r == spec_effective_region(region_override, default_region),
{
    match region_override {
        Some(r) => r,
        None => default_region,
    }
}

/// Everything that parameterises one page fetch.  The poll loop builds this
/// once and reuses it verbatim on every iteration.
pub struct PageRequest {
    pub sort_token: String,
    pub page_id: String,
    pub region_id: usize,
    pub start_rows: usize,
    pub max_rows: usize,
    pub has_more_rows: bool,
    pub sort_position: usize,
}

/// Builds the page request for the selected descriptor: its token, the
/// startup page identifier unchanged, the effective region id, and the four
/// fixed parameters of the page endpoint.
pub fn page_request(sort: &GameSort, page: &PageContext, region_override: Option<usize>) -> (r:
    PageRequest)
    ensures
        r.sort_token@ == sort.token@,
        r.page_id@ == page.page_id@,
        r.region_id == spec_effective_region(region_override, sort.context_country_region_id),
        r.start_rows == START_ROWS,
        r.max_rows == MAX_ROWS,
        r.has_more_rows,
        r.sort_position == SORT_POSITION,
{
    PageRequest {
        sort_token: sort.token.clone(),
        page_id: page.page_id.clone(),
        region_id: effective_region_id(region_override, sort.context_country_region_id),
        start_rows: START_ROWS,
        max_rows: MAX_ROWS,
        has_more_rows: true,
        sort_position: SORT_POSITION,
    }
}

} // verus!
