//! Content-maturity ratings and the policy deciding which ratings are
//! eligible for download.

use vstd::prelude::*;

verus! {

/// Content-maturity category of a record, ordered `Safe < Questionable <
/// Explicit`.
#[derive(Debug, Clone, Eq, Hash, PartialEq, Structural)]
pub enum Rating {
    Safe,
    Questionable,
    Explicit,
}

/// Policy over ratings: a pure predicate saying which categories are
/// eligible.
#[derive(Debug, Clone, Eq, Hash, PartialEq, Structural)]
pub enum AllowedRating {
    Only(Rating),
    Above(Rating),
    Below(Rating),
    All,
}

/// Position of a rating in the order `Safe < Questionable < Explicit`.
pub open spec fn rating_order(r: Rating) -> int {
    match r {
        Rating::Safe => 0,
        Rating::Questionable => 1,
        Rating::Explicit => 2,
    }
}

/// What [`AllowedRating::allows`] returns: `Only(q)` admits exactly `q`,
/// `Above(q)` admits every rating up to and including `q`, `Below(q)` every
/// rating from `q` on, and `All` admits everything.
pub open spec fn spec_allows(policy: AllowedRating, rating: Rating) -> bool {
    match policy {
        AllowedRating::Only(q) => q == rating,
        AllowedRating::Above(q) => rating_order(rating) <= rating_order(q),
        AllowedRating::Below(q) => rating_order(q) <= rating_order(rating),
        AllowedRating::All => true,
    }
}

impl AllowedRating {
    /// Whether this policy admits `rating`.
    pub fn allows(&self, rating: &Rating) -> (r: bool)
        ensures
            r == spec_allows(*self, *rating),
    {
        match self {
            AllowedRating::Only(q) => *q == *rating,
            AllowedRating::Above(q) => match q {
                Rating::Safe => *rating == Rating::Safe,
                Rating::Questionable => {
                    *rating == Rating::Safe || *rating == Rating::Questionable
                },
                Rating::Explicit => true,
            },
            AllowedRating::Below(q) => match q {
                Rating::Safe => true,
                Rating::Questionable => {
                    *rating == Rating::Questionable || *rating == Rating::Explicit
                },
                Rating::Explicit => *rating == Rating::Explicit,
            },
            AllowedRating::All => true,
        }
    }
}

/// The `All` policy admits every rating.
pub proof fn lemma_all_allows(rating: Rating)
    ensures
        spec_allows(AllowedRating::All, rating),
{
}

} // verus!
