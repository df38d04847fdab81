//! Classification of a score request: which calculation pathway applies,
//! and how the play's accuracy was described.

use vstd::prelude::*;

verus! {

/// The game mode a chart is played in, encoded 0 to 3 at the boundary.
#[derive(Clone, Copy, Debug, PartialEq, Eq, Structural)]
pub enum Mode {
    Osu,
    Taiko,
    Catch,
    Mania,
}

/// Which calculation pathway the engine is asked to run.
///
/// `Relax` is selected only for the osu! mode with the relax modifier bit set;
/// every other valid combination dispatches the general per-mode formula.
#[derive(Clone, Copy, Debug, PartialEq, Eq, Structural)]
pub enum Pathway {
    Relax,
    Standard(Mode),
}

/// Exactly one way of describing the play's accuracy: a percentage
/// (carried as the IEEE-754 bit pattern of the 64-bit value), or the
/// three discrete hit counts.
#[derive(Clone, Copy, Debug, PartialEq, Eq, Structural)]
pub enum AccuracyInput {
    Percentage(u64),
    Counts { n300: u32, n100: u32, n50: u32 },
}

/// Why a calculation request was rejected before or at the engine call.
#[derive(Clone, Copy, Debug, PartialEq, Eq, Structural)]
pub enum PerformanceError {
    /// The mode code was outside 0 to 3.
    InvalidMode,
    /// Neither an accuracy percentage nor all three hit counts were given.
    MissingAccuracy,
    /// The chart bytes could not be decoded into a beatmap.
    BeatmapDecode,
    /// The decoded chart cannot be played in the requested mode.
    IncompatibleMode,
}

/// One immutable, fully validated calculation request: the pathway, the
/// modifiers, the play statistics, and the normalized accuracy description.
#[derive(Clone, Copy, Debug)]
pub struct ScoreContext {
    pub pathway: Pathway,
    pub mods: u32,
    pub max_combo: u32,
    pub miss_count: u32,
    pub passed_objects: Option<u32>,
    pub accuracy: AccuracyInput,
}

/// The relax modifier bit of the 32-bit modifier bitmask.
pub const RELAX_BIT: u32 = 128;

/// A mode code is valid when it encodes one of the four modes.
pub open spec fn mode_valid(mode: u32) -> bool {
    mode <= 3
}

/// The mode encoded by a valid mode code.
pub open spec fn mode_of_code(mode: u32) -> Mode
    recommends
        mode_valid(mode),
{
    if mode == 0 {
        Mode::Osu
    } else if mode == 1 {
        Mode::Taiko
    } else if mode == 2 {
        Mode::Catch
    } else {
        Mode::Mania
    }
}

/// The relax pathway applies exactly when the mode is osu! and the relax
/// modifier bit is set.
pub open spec fn relax_selected(mode: u32, mods: u32) -> bool {
    mode == 0 && mods & RELAX_BIT != 0
}

/// The pathway chosen for a valid mode code and a modifier bitmask.
pub open spec fn spec_classify(mode: u32, mods: u32) -> Pathway
    recommends
        mode_valid(mode),
{
    if relax_selected(mode, mods) {
        Pathway::Relax
    } else {
        Pathway::Standard(mode_of_code(mode))
    }
}

/// Choose the calculation pathway from a mode code and a modifier bitmask.
/// A mode code outside 0 to 3 is rejected.
pub fn classify(mode: u32, mods: u32) -> (r: Result<Pathway, PerformanceError>)
    ensures
        mode_valid(mode) <==> r is Ok,
        r is Ok ==> r->Ok_0 == spec_classify(mode, mods),
        r is Err ==> r->Err_0 == PerformanceError::InvalidMode,
{
    if mode > 3 {
        return Err(PerformanceError::InvalidMode);
    }
    if mode == 0 && mods & RELAX_BIT != 0 {
        Ok(Pathway::Relax)
    } else if mode == 0 {
        Ok(Pathway::Standard(Mode::Osu))
    } else if mode == 1 {
        Ok(Pathway::Standard(Mode::Taiko))
    } else if mode == 2 {
        Ok(Pathway::Standard(Mode::Catch))
    } else {
        Ok(Pathway::Standard(Mode::Mania))
    }
}

/// All three discrete hit counts are present.
pub open spec fn counts_complete(n300: Option<u32>, n100: Option<u32>, n50: Option<u32>) -> bool {
    n300 is Some && n100 is Some && n50 is Some
}

/// The normalized accuracy description: a percentage takes precedence and
/// the counts are then ignored; without one, all three counts are required.
pub open spec fn spec_normalize_accuracy(
    accuracy: Option<u64>,
    n300: Option<u32>,
    n100: Option<u32>,
    n50: Option<u32>,
) -> Result<AccuracyInput, PerformanceError> {
    if accuracy is Some {
        Ok(AccuracyInput::Percentage(accuracy->0))
    } else if counts_complete(n300, n100, n50) {
        Ok(AccuracyInput::Counts { n300: n300->0, n100: n100->0, n50: n50->0 })
    } else {
        Err(PerformanceError::MissingAccuracy)
    }
}

/// Validate and reconcile the two ways of describing accuracy.
pub fn normalize_accuracy(
    accuracy: Option<u64>,
    n300: Option<u32>,
    n100: Option<u32>,
    n50: Option<u32>,
) -> (r: Result<AccuracyInput, PerformanceError>)
    ensures
        r == spec_normalize_accuracy(accuracy, n300, n100, n50),
        r is Ok <==> accuracy is Some || counts_complete(n300, n100, n50),
{
    match accuracy {
        Some(pct) => Ok(AccuracyInput::Percentage(pct)),
        None => match (n300, n100, n50) {
            (Some(a), Some(b), Some(c)) => Ok(AccuracyInput::Counts { n300: a, n100: b, n50: c }),
            _ => Err(PerformanceError::MissingAccuracy),
        },
    }
}

/// The validated request built from the raw boundary arguments, or the
/// reason it was rejected: an invalid mode first, then a missing accuracy.
pub open spec fn spec_build_context(
    mode: u32,
    mods: u32,
    max_combo: u32,
    accuracy: Option<u64>,
    n300: Option<u32>,
    n100: Option<u32>,
    n50: Option<u32>,
    miss_count: u32,
    passed_objects: Option<u32>,
) -> Result<ScoreContext, PerformanceError> {
    if !mode_valid(mode) {
        Err(PerformanceError::InvalidMode)
    } else {
        match spec_normalize_accuracy(accuracy, n300, n100, n50) {
            Err(e) => Err(e),
            Ok(acc) => Ok(
                ScoreContext {
                    pathway: spec_classify(mode, mods),
                    mods,
                    max_combo,
                    miss_count,
                    passed_objects,
                    accuracy: acc,
                },
            ),
        }
    }
}

/// Build one immutable calculation request from the raw boundary arguments.
pub fn build_context(
    mode: u32,
    mods: u32,
    max_combo: u32,
    accuracy: Option<u64>,
    n300: Option<u32>,
    n100: Option<u32>,
    n50: Option<u32>,
    miss_count: u32,
    passed_objects: Option<u32>,
) -> (r: Result<ScoreContext, PerformanceError>)
    ensures
        r == spec_build_context(
            mode,
            mods,
            max_combo,
            accuracy,
            n300,
            n100,
            n50,
            miss_count,
            passed_objects,
        ),
{
    let pathway = match classify(mode, mods) {
        Ok(p) => p,
        Err(e) => {
            return Err(e);
        },
    };
    let acc = match normalize_accuracy(accuracy, n300, n100, n50) {
        Ok(a) => a,
        Err(e) => {
            return Err(e);
        },
    };
    Ok(ScoreContext { pathway, mods, max_combo, miss_count, passed_objects, accuracy: acc })
}

/// The mode the engine is invoked in: the osu! mode for the relax pathway,
/// else the mode the pathway dispatches to.
pub open spec fn spec_engine_mode(pathway: Pathway) -> Mode {
    match pathway {
        Pathway::Relax => Mode::Osu,
        Pathway::Standard(m) => m,
    }
}

/// The mode the engine is invoked in for this request.
pub fn engine_mode(pathway: Pathway) -> (r: Mode)
    ensures
        r == spec_engine_mode(pathway),
{
    match pathway {
        Pathway::Relax => Mode::Osu,
        Pathway::Standard(m) => m,
    }
}

} // verus!
