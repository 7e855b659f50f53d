//! A compact rarity record and its request shape.
//!
//! The notable-sightings pipeline itself works with the full observation
//! record; this smaller shape keeps only the fields a rarity alert needs.

use vstd::prelude::*;

verus! {

/// One notable sighting, reduced to the fields a rarity alert shows.
#[derive(Debug)]
pub struct RareBird {
    pub common_name: String,
    pub scientific_name: String,
    pub location: String,
    pub observation_date: String,
    pub count: Option<u32>,
}

/// Notable sightings of a region.
#[derive(Debug, Clone)]
pub struct FetchRareRequest {
    pub region_code: String,
}

} // verus!
