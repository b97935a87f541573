//! Data model: ranking descriptors, page context, catalog entities and the
//! error taxonomy shared with the surrounding program.

use vstd::prelude::*;

verus! {

/// One available sort/ranking mode offered by the remote catalog.
///
/// `token` is an opaque request parameter, `context_country_region_id` is the
/// default region used when the caller supplies no override, and `name` is
/// the human-readable label used to select a descriptor by exact match.
pub struct GameSort {
    pub token: String,
    pub context_country_region_id: usize,
    pub name: String,
}

/// Cursor state for paginated retrieval.  In this design the same page
/// identifier is reused on every request; it is never advanced.
pub struct PageContext {
    pub page_id: String,
}

/// The decoded response of the descriptor-listing request: the available
/// ranking descriptors and the page context to use for page fetches.
pub struct GameSortsResponse {
    pub sorts: Vec<GameSort>,
    pub page_context: PageContext,
}

/// One catalog entity.  Identity is the numeric `place_id` alone; the name
/// is carried only for display.
pub struct GameSearchResponse {
    pub name: String,
    pub place_id: u64,
}

impl Clone for GameSearchResponse {
    fn clone(&self) -> (r: Self)
        ensures
            r == *self,
    {
        GameSearchResponse { name: self.name.clone(), place_id: self.place_id }
    }
}

/// The decoded response of one page fetch: the entities of that page, in the
/// order the service returned them.
pub struct GamesSearchResponse {
    pub games: Vec<GameSearchResponse>,
}

/// The error taxonomy.  Every variant is fatal for the whole run: the
/// program has no retry or degraded mode.
#[derive(Clone, Copy, Debug, PartialEq, Eq, Structural)]
pub enum PollError {
    /// The session credential is absent at startup.
    MissingCredential,
    /// A network or HTTP failure on any request.
    Transport,
    /// A response body does not match the expected schema.
    Decode,
    /// No ranking descriptor carries the required name.
    NotFound,
}

impl PollError {
    /// A diagnostic message for the variant, for the surrounding program to
    /// show before aborting.
    pub fn describe(&self) -> (r: &'static str)
        ensures
            r@ == match *self {
                PollError::MissingCredential => "missing session credential"@,
                PollError::Transport => "network request failed"@,
                PollError::Decode => "response did not match the expected schema"@,
                PollError::NotFound => "no ranking descriptor with the required name"@,
            },
    {
        match self {
            PollError::MissingCredential => "missing session credential",
            PollError::Transport => "network request failed",
            PollError::Decode => "response did not match the expected schema",
            PollError::NotFound => "no ranking descriptor with the required name",
        }
    }
}

} // verus!
