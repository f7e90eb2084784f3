//! The fixed conversion rates between nuggets, ingots, crucible slots and
//! stack sizes, and the scale in which percentages are carried.

use vstd::prelude::*;

verus! {

/// Units in one nugget.
pub const NUGGET_UNIT_AMOUNT: i32 = 5;

/// Units in one ingot.
pub const INGOT_UNIT_AMOUNT: i32 = 100;

/// Nuggets in one stack.
pub const MAX_STACK_SIZE: i32 = 128;

/// Stacks a crucible holds.
pub const CRUCIBLE_SLOTS: i32 = 4;

/// The largest ingot count a full crucible can yield: a stack of nuggets in
/// each of the four slots, counted in ingots.
pub const MAX_POSSIBLE_INGOTS: i32 = 25;

/// Units in one full crucible slot.
pub const MAX_UNITS_PER_SLOT: i32 = 640;

/// Nuggets in one ingot.
pub const NUM_NUGGETS_PER_INGOT: i32 = 20;

/// Percentages are carried in basis points: this many basis points make 100%.
pub const PERCENT_SCALE: u32 = 10000;

/// A composition is accepted when its sum differs from [`PERCENT_SCALE`] by
/// strictly less than this many basis points.
pub const PERCENT_TOLERANCE: u32 = 100;

} // verus!
