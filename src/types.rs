use vstd::prelude::*;

verus! {

/// Cover image addresses of a beatmapset.
pub struct Covers {
    pub cover: String,
    pub cover_2x: String,
    pub card: String,
    pub card_2x: String,
    pub list: String,
    pub list_2x: String,
    pub slimcover: String,
    pub slimcover_2x: String,
}

/// Nomination progress of a pending beatmapset.
#[derive(Clone, Copy, Debug, PartialEq, Eq, Structural)]
pub struct NominationsSummary {
    pub current: i64,
    pub required: i64,
}

/// Sort that upstream applied to a search.
pub struct Search {
    pub sort: String,
}

/// Structured position of a search page upstream.
#[derive(Clone, Copy, Debug, PartialEq, Eq, Structural)]
pub struct Cursor {
    pub last_update: i64,
    pub id: i64,
}

} // verus!
