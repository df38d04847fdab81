//! The boundary's guarantees, stated and proved once over the specification
//! functions that the executable functions' contracts are written against.

use vstd::prelude::*;
use crate::context::AccuracyInput;
use crate::context::Pathway;
use crate::context::counts_complete;
use crate::context::mode_of_code;
use crate::context::mode_valid;
use crate::context::spec_classify;
use crate::context::spec_normalize_accuracy;
use crate::performance_of;

verus! {

/// Determinism: the returned record is a function of the chart bytes and
/// the play statistics alone, so any two calls on identical inputs return
/// bit-identical records.
pub proof fn lemma_determinism(
    r1: Result<crate::result::CalculatePerformanceResult, crate::context::PerformanceError>,
    r2: Result<crate::result::CalculatePerformanceResult, crate::context::PerformanceError>,
    chart: Seq<u8>,
    mode: u32,
    mods: u32,
    max_combo: u32,
    accuracy: Option<u64>,
    count_300: Option<u32>,
    count_100: Option<u32>,
    count_50: Option<u32>,
    miss_count: u32,
    passed_objects: Option<u32>,
)
    ensures
        (r1 == performance_of(
            chart,
            mode,
            mods,
            max_combo,
            accuracy,
            count_300,
            count_100,
            count_50,
            miss_count,
            passed_objects,
        ) && r2 == performance_of(
            chart,
            mode,
            mods,
            max_combo,
            accuracy,
            count_300,
            count_100,
            count_50,
            miss_count,
            passed_objects,
        )) ==> r1 == r2,
{
}

/// Pathway selection: the relax pathway is chosen exactly for the osu! mode
/// with the relax bit set; for every other valid mode the modifier bitmask
/// has no effect on the chosen pathway.
pub proof fn lemma_pathway_selection(mode: u32, mods: u32, other_mods: u32)
    ensures
        mode_valid(mode) ==> ((spec_classify(mode, mods) == Pathway::Relax) <==> (mode == 0
            && mods & 128 != 0)),
        mode_valid(mode) && 1 <= mode ==> spec_classify(mode, mods) == Pathway::Standard(
            mode_of_code(mode),
        ),
        mode_valid(mode) && 1 <= mode ==> spec_classify(mode, mods) == spec_classify(
            mode,
            other_mods,
        ),
{
}

/// Accuracy exclusivity: a percentage alone succeeds, complete counts alone
/// succeed, neither fails, and when both are given the percentage wins and
/// the counts are ignored.
pub proof fn lemma_accuracy_exclusivity(
    accuracy: Option<u64>,
    n300: Option<u32>,
    n100: Option<u32>,
    n50: Option<u32>,
)
    ensures
        spec_normalize_accuracy(accuracy, n300, n100, n50) is Ok <==> (accuracy is Some
            || counts_complete(n300, n100, n50)),
        accuracy is Some ==> spec_normalize_accuracy(accuracy, n300, n100, n50) == Ok::<AccuracyInput, crate::context::PerformanceError>(
            AccuracyInput::Percentage(accuracy->0),
        ),
        accuracy is Some ==> spec_normalize_accuracy(accuracy, n300, n100, n50)
            == spec_normalize_accuracy(accuracy, None, None, None),
        accuracy is None && counts_complete(n300, n100, n50) ==> spec_normalize_accuracy(
            accuracy,
            n300,
            n100,
            n50,
        ) == Ok::<AccuracyInput, crate::context::PerformanceError>(AccuracyInput::Counts { n300: n300->0, n100: n100->0, n50: n50->0 }),
        accuracy is None && !counts_complete(n300, n100, n50) ==> spec_normalize_accuracy(
            accuracy,
            n300,
            n100,
            n50,
        ) == Err::<AccuracyInput, _>(crate::context::PerformanceError::MissingAccuracy),
{
}

/// Non-standard zeroing: for the taiko, catch and mania modes every
/// successful record has its approach-rate and overall-difficulty fields at
/// zero.
pub proof fn lemma_non_standard_zeroing(
    chart: Seq<u8>,
    mode: u32,
    mods: u32,
    max_combo: u32,
    accuracy: Option<u64>,
    count_300: Option<u32>,
    count_100: Option<u32>,
    count_50: Option<u32>,
    miss_count: u32,
    passed_objects: Option<u32>,
)
    ensures
        ({
            let r = performance_of(
                chart,
                mode,
                mods,
                max_combo,
                accuracy,
                count_300,
                count_100,
                count_50,
                miss_count,
                passed_objects,
            );
            (1 <= mode <= 3 && r is Ok) ==> (r->Ok_0.ar_bits == 0 && r->Ok_0.od_bits == 0)
        }),
{
}

/// Source equivalence: the record depends on the chart's content alone,
/// however that content was obtained, so two byte-for-byte equal sources
/// give identical records for identical play statistics.
pub proof fn lemma_source_equivalence(
    bytes_by_path: Seq<u8>,
    bytes_in_memory: Seq<u8>,
    mode: u32,
    mods: u32,
    max_combo: u32,
    accuracy: Option<u64>,
    count_300: Option<u32>,
    count_100: Option<u32>,
    count_50: Option<u32>,
    miss_count: u32,
    passed_objects: Option<u32>,
)
    ensures
        bytes_by_path == bytes_in_memory ==> performance_of(
            bytes_by_path,
            mode,
            mods,
            max_combo,
            accuracy,
            count_300,
            count_100,
            count_50,
            miss_count,
            passed_objects,
        ) == performance_of(
            bytes_in_memory,
            mode,
            mods,
            max_combo,
            accuracy,
            count_300,
            count_100,
            count_50,
            miss_count,
            passed_objects,
        ),
{
}

} // verus!
