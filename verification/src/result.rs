//! The fixed-layout result record returned across the boundary, and the
//! adapter that flattens the engine's mode-shaped output into it.

use vstd::prelude::*;

verus! {

/// The engine's output, reduced to plain values but still carrying its
/// shape: the osu! calculation reports approach rate and overall difficulty,
/// every other mode's calculation does not.  The rating fields hold the
/// IEEE-754 bit patterns of the engine's 64-bit values.
#[derive(Clone, Copy, Debug, PartialEq, Eq, Structural)]
pub enum RawAttributes {
    OsuShape { pp_bits: u64, stars_bits: u64, ar_bits: u64, od_bits: u64, max_combo: u32 },
    OtherShape { pp_bits: u64, stars_bits: u64, max_combo: u32 },
}

/// The flat record returned by every calculation: performance points, star
/// rating, approach rate, overall difficulty (each as the IEEE-754 bit
/// pattern of the 64-bit value), and the chart's maximum achievable combo.
///
/// Fields that are meaningless for the active mode are zero, never omitted,
/// so the record has one layout for every mode.  The all-zero value stands
/// for an unset result.
#[derive(Clone, Copy, Debug, PartialEq, Eq, Structural)]
pub struct CalculatePerformanceResult {
    pub pp_bits: u64,
    pub stars_bits: u64,
    pub ar_bits: u64,
    pub od_bits: u64,
    pub max_combo: u32,
}

impl Default for CalculatePerformanceResult {
    /// The all-zero record standing for an unset result.
    fn default() -> (r: Self)
        ensures
            r.pp_bits == 0,
            r.stars_bits == 0,
            r.ar_bits == 0,
            r.od_bits == 0,
            r.max_combo == 0,
    {
        CalculatePerformanceResult { pp_bits: 0, stars_bits: 0, ar_bits: 0, od_bits: 0, max_combo: 0 }
    }
}

/// The flat record an engine output maps to: the osu! shape's fields are
/// copied in full; any other shape leaves approach rate and overall
/// difficulty at zero.
pub open spec fn spec_from_attributes(raw: RawAttributes) -> CalculatePerformanceResult {
    match raw {
        RawAttributes::OsuShape { pp_bits, stars_bits, ar_bits, od_bits, max_combo } => (
            CalculatePerformanceResult { pp_bits, stars_bits, ar_bits, od_bits, max_combo }
        ),
        RawAttributes::OtherShape { pp_bits, stars_bits, max_combo } => (
            CalculatePerformanceResult { pp_bits, stars_bits, ar_bits: 0, od_bits: 0, max_combo }
        ),
    }
}

impl CalculatePerformanceResult {
    /// Flatten the engine's mode-shaped output into the fixed record,
    /// exhaustively over both shapes.
    pub fn from_attributes(raw: RawAttributes) -> (r: Self)
        ensures
            r == spec_from_attributes(raw),
    {
        match raw {
            RawAttributes::OsuShape { pp_bits, stars_bits, ar_bits, od_bits, max_combo } => (
                CalculatePerformanceResult { pp_bits, stars_bits, ar_bits, od_bits, max_combo }
            ),
            RawAttributes::OtherShape { pp_bits, stars_bits, max_combo } => (
                CalculatePerformanceResult { pp_bits, stars_bits, ar_bits: 0, od_bits: 0, max_combo }
            ),
        }
    }
}

/// The performance-points bits of an engine output, whatever its shape.
pub open spec fn raw_pp_bits(raw: RawAttributes) -> u64 {
    match raw {
        RawAttributes::OsuShape { pp_bits, .. } => pp_bits,
        RawAttributes::OtherShape { pp_bits, .. } => pp_bits,
    }
}

/// The star-rating bits of an engine output, whatever its shape.
pub open spec fn raw_stars_bits(raw: RawAttributes) -> u64 {
    match raw {
        RawAttributes::OsuShape { stars_bits, .. } => stars_bits,
        RawAttributes::OtherShape { stars_bits, .. } => stars_bits,
    }
}

/// The approach-rate bits of an engine output: only the osu! shape reports
/// them; any other shape stands for zero.
pub open spec fn raw_ar_bits(raw: RawAttributes) -> u64 {
    match raw {
        RawAttributes::OsuShape { ar_bits, .. } => ar_bits,
        RawAttributes::OtherShape { .. } => 0,
    }
}

/// The overall-difficulty bits of an engine output: only the osu! shape
/// reports them; any other shape stands for zero.
pub open spec fn raw_od_bits(raw: RawAttributes) -> u64 {
    match raw {
        RawAttributes::OsuShape { od_bits, .. } => od_bits,
        RawAttributes::OtherShape { .. } => 0,
    }
}

/// The maximum achievable combo an engine output reports, whatever its shape.
pub open spec fn raw_max_combo(raw: RawAttributes) -> u32 {
    match raw {
        RawAttributes::OsuShape { max_combo, .. } => max_combo,
        RawAttributes::OtherShape { max_combo, .. } => max_combo,
    }
}

} // verus!
