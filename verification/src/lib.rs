//! A calculator for the metal alloys of a crafting game.
//!
//! Given an alloy kind, a composition of base metals expressed in basis
//! points (one hundredth of a percent, so `9200` stands for 92%), and a
//! requested ingot count, the library validates the composition against the
//! recipe of the chosen alloy, reorders it to the recipe's canonical order,
//! and computes the integer number of nuggets of each base metal that must be
//! supplied, together with the largest ingot count that still fits in a
//! crucible at that composition.

use vstd::prelude::*;

mod alloy;
mod alloy_data;
mod alloy_types;
mod base_metal;
mod compute;
mod recipe;
pub mod unit_constants;
mod validate;

pub use alloy::Alloy;
pub use alloy_data::lemma_handle_canonicalization;
pub use alloy_data::lemma_ingot_bounds;
pub use alloy_data::lemma_nuggets_near_caps;
pub use alloy_data::lemma_nuggets_within_caps;
pub use alloy_data::lemma_sum_of_nuggets;
pub use alloy_data::nuggets_match;
pub use alloy_data::AlloyData;
pub use alloy_types::BismuthBronze;
pub use alloy_types::BlackBronze;
pub use alloy_types::Brass;
pub use alloy_types::Cupronickel;
pub use alloy_types::Electrum;
pub use alloy_types::LeadSolder;
pub use alloy_types::Molybdochalkos;
pub use alloy_types::SilverSolder;
pub use alloy_types::TinBronze;
pub use base_metal::with_tag;
pub use base_metal::BaseMetal;
pub use base_metal::MetalTag;
pub use compute::as_ints;
pub use compute::ceil_div;
pub use compute::correct_seq;
pub use compute::corrected;
pub use compute::fits;
pub use compute::lemma_corrected_in_range;
pub use compute::lemma_corrected_near_range;
pub use compute::lemma_corrected_sum;
pub use compute::lemma_default_max_ingots;
pub use compute::lemma_defaults_canonical;
pub use compute::nugget_cap;
pub use compute::raw_nuggets;
pub use compute::slots_needed;
pub use compute::spec_max_ingots;
pub use compute::spec_max_ingots_from;
pub use compute::sum_bp;
pub use compute::sum_int;
pub use compute::sum_nuggets;
pub use recipe::canonical_wf;
pub use recipe::lemma_recipe_wf;
pub use recipe::Alloys;
pub use validate::canon;
pub use validate::first_error_from;
pub use validate::first_with_tag;
pub use validate::item_error;
pub use validate::lemma_canon_props;
pub use validate::lemma_validate_idempotent;
pub use validate::lemma_validate_permutation;
pub use validate::payload_at;
pub use validate::spec_validate;
pub use validate::sum_within_tolerance;
pub use validate::tag_index;

verus! {

/// The ways a request can be rejected.
#[derive(Clone, Copy, PartialEq, Eq, Structural, Debug)]
pub enum AlloyError {
    /// The composition has the wrong length, does not sum to 100% within
    /// tolerance, or a percentage lies outside its recipe range.
    InvalidPercentages,
    /// A nugget vector shorter than the recipe's constituent count was
    /// handed to an alloy's fixed-shape constructor.
    InvalidConstituentAmounts,
    /// A supplied base metal does not belong to the alloy's recipe, or the
    /// same base metal was supplied twice.
    InvalidBaseMetals,
    /// An update was requested with neither new percentages nor a new ingot
    /// count.
    InvalidValues,
    /// The requested ingot count exceeds what the composition allows.
    TooManyIngots,
    /// The requested ingot count is zero or negative.
    TooFewIngots,
}

/// An inclusive interval of percentages, in basis points, that a constituent
/// of an alloy may occupy.
#[derive(Clone, Copy, PartialEq, Eq, Structural, Debug)]
pub struct ConstituentRange {
    pub min: u32,
    pub max: u32,
}

impl ConstituentRange {
    pub fn new(min: u32, max: u32) -> (r: Self)
        requires
            min <= max,
        ensures
            r.min == min,
            r.max == max,
    {
        Self { min, max }
    }

    /// Whether `item` lies inside the interval, both ends included.
    pub open spec fn spec_contains(self, item: u32) -> bool {
        self.min <= item <= self.max
    }

    pub fn contains(&self, item: u32) -> (r: bool)
        ensures
            r == self.spec_contains(item),
    {
        self.min <= item && item <= self.max
    }
}

} // verus!
