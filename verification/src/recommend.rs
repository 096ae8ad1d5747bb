//! Plain data types for recommendation requests and their seeds.

use vstd::prelude::*;

verus! {

/// An optional band of values: a lower bound, an upper bound and a target,
/// each independently present or absent.
#[derive(Clone, Copy, Debug, Default, PartialEq, Eq, Hash)]
pub struct Range<T> {
    pub min: Option<T>,
    pub max: Option<T>,
    pub target: Option<T>,
}

/// What a recommendation was seeded with.
#[derive(Clone, Copy, Debug, PartialEq, Eq)]
pub enum RecommendationsSeedType {
    Artist,
    Track,
    Genre,
}

/// One seed of a returned recommendation set, with the pool sizes the
/// service reports for it.
#[derive(Clone, Debug, PartialEq, Eq)]
pub struct RecommendationsSeed {
    pub after_filtering_size: usize,
    pub after_relinking_size: usize,
    pub href: Option<String>,
    pub id: String,
    pub initial_pool_size: usize,
    pub _type: RecommendationsSeedType,
}

} // verus!
