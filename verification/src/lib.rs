//! A foreign-callable boundary that computes a rhythm-game score's
//! performance rating ("pp") and star difficulty for a beatmap and a set of
//! play statistics.  The crate selects the calculation pathway from the game
//! mode and the modifier bitmask, normalizes the two mutually exclusive ways
//! of describing accuracy, invokes the external difficulty engine, and
//! flattens the engine's mode-shaped output into one fixed-layout record.

use vstd::prelude::*;

pub mod context;
pub mod engine;
pub mod laws;
pub mod result;

use context::AccuracyInput;
use context::Mode;
use context::PerformanceError;
use context::ScoreContext;
use context::build_context;
use context::engine_mode;
use context::spec_build_context;
use context::spec_engine_mode;
use engine::BuilderState;
use engine::beatmap_chart;
use engine::begin_performance;
use engine::calculate;
use engine::chart_decodes;
use engine::decode_beatmap;
use engine::engine_result;
use engine::flatten_attributes;
use engine::mode_convertible;
use engine::with_accuracy_bits;
use engine::with_combo;
use engine::with_misses;
use engine::with_mods;
use engine::with_n100;
use engine::with_n300;
use engine::with_n50;
use engine::with_passed_objects;
use result::CalculatePerformanceResult;
use result::RawAttributes;
use result::raw_ar_bits;
use result::raw_max_combo;
use result::raw_od_bits;
use result::raw_pp_bits;
use result::raw_stars_bits;
use rosu_pp::model::beatmap::Beatmap;

verus! {

/// The full set of engine settings a validated request asks for: the chart,
/// the engine mode of its pathway, its modifiers, combo and miss count, the
/// optional cutoff, and exactly one accuracy description.
pub open spec fn request_state(chart: Seq<u8>, ctx: ScoreContext) -> BuilderState {
    BuilderState {
        chart,
        mode: spec_engine_mode(ctx.pathway),
        mods: ctx.mods,
        combo: Some(ctx.max_combo),
        misses: Some(ctx.miss_count),
        passed_objects: ctx.passed_objects,
        accuracy_bits: match ctx.accuracy {
            AccuracyInput::Percentage(bits) => Some(bits),
            AccuracyInput::Counts { .. } => None,
        },
        n300: match ctx.accuracy {
            AccuracyInput::Percentage(_) => None,
            AccuracyInput::Counts { n300, .. } => Some(n300),
        },
        n100: match ctx.accuracy {
            AccuracyInput::Percentage(_) => None,
            AccuracyInput::Counts { n100, .. } => Some(n100),
        },
        n50: match ctx.accuracy {
            AccuracyInput::Percentage(_) => None,
            AccuracyInput::Counts { n50, .. } => Some(n50),
        },
    }
}

/// The engine's answer for a validated request on a decoded chart: its
/// output on the request's settings, or a rejection when the chart cannot
/// be played in the requested mode.
pub open spec fn spec_invoke_engine(chart: Seq<u8>, ctx: ScoreContext) -> Result<
    RawAttributes,
    PerformanceError,
> {
    if mode_convertible(chart, spec_engine_mode(ctx.pathway)) {
        Ok(engine_result(request_state(chart, ctx)))
    } else {
        Err(PerformanceError::IncompatibleMode)
    }
}

/// Run the engine once for a validated request: create the builder in the
/// pathway's mode, record every setting of the request, and calculate.
pub fn invoke_engine(map: &Beatmap, ctx: &ScoreContext) -> (r: Result<
    RawAttributes,
    PerformanceError,
>)
    ensures
        r == spec_invoke_engine(beatmap_chart(*map), *ctx),
        r is Ok ==> ((r->Ok_0 is OsuShape) <==> spec_engine_mode(ctx.pathway) == Mode::Osu),
{
    let mode = engine_mode(ctx.pathway);
    let perf = match begin_performance(map, mode) {
        Some(p) => p,
        None => {
            return Err(PerformanceError::IncompatibleMode);
        },
    };
    let perf = with_mods(perf, ctx.mods);
    let perf = with_combo(perf, ctx.max_combo);
    let perf = with_misses(perf, ctx.miss_count);
    let perf = match ctx.passed_objects {
        Some(n) => with_passed_objects(perf, n),
        None => perf,
    };
    let perf = match ctx.accuracy {
        AccuracyInput::Percentage(bits) => with_accuracy_bits(perf, bits),
        AccuracyInput::Counts { n300, n100, n50 } => (
            with_n50(with_n100(with_n300(perf, n300), n100), n50)
        ),
    };
    let attrs = calculate(perf);
    let raw = flatten_attributes(attrs);
    Ok(raw)
}

/// The flat record for an engine output: approach rate and overall
/// difficulty are kept only when the osu! calculation ran; for every other
/// mode they are zero, never omitted.
pub open spec fn adapt_result(raw: RawAttributes, osu: bool) -> CalculatePerformanceResult {
    CalculatePerformanceResult {
        pp_bits: raw_pp_bits(raw),
        stars_bits: raw_stars_bits(raw),
        ar_bits: if osu {
            raw_ar_bits(raw)
        } else {
            0
        },
        od_bits: if osu {
            raw_od_bits(raw)
        } else {
            0
        },
        max_combo: raw_max_combo(raw),
    }
}

/// What a calculation on an already decoded chart returns: the errors of
/// validation in their order (invalid mode first, then missing accuracy,
/// then an incompatible mode), or the flat record of the engine's output.
pub open spec fn computed_result(
    chart: Seq<u8>,
    mode: u32,
    mods: u32,
    max_combo: u32,
    accuracy: Option<u64>,
    count_300: Option<u32>,
    count_100: Option<u32>,
    count_50: Option<u32>,
    miss_count: u32,
    passed_objects: Option<u32>,
) -> Result<CalculatePerformanceResult, PerformanceError> {
    match spec_build_context(
        mode,
        mods,
        max_combo,
        accuracy,
        count_300,
        count_100,
        count_50,
        miss_count,
        passed_objects,
    ) {
        Err(e) => Err(e),
        Ok(ctx) => match spec_invoke_engine(chart, ctx) {
            Err(e) => Err(e),
            Ok(raw) => Ok(adapt_result(raw, spec_engine_mode(ctx.pathway) == Mode::Osu)),
        },
    }
}

/// What a calculation on raw chart bytes returns: a decoding failure is
/// fatal; otherwise the chart's content alone decides, as `computed_result`
/// says.
pub open spec fn performance_of(
    chart: Seq<u8>,
    mode: u32,
    mods: u32,
    max_combo: u32,
    accuracy: Option<u64>,
    count_300: Option<u32>,
    count_100: Option<u32>,
    count_50: Option<u32>,
    miss_count: u32,
    passed_objects: Option<u32>,
) -> Result<CalculatePerformanceResult, PerformanceError> {
    if !chart_decodes(chart) {
        Err(PerformanceError::BeatmapDecode)
    } else {
        computed_result(
            chart,
            mode,
            mods,
            max_combo,
            accuracy,
            count_300,
            count_100,
            count_50,
            miss_count,
            passed_objects,
        )
    }
}

/// Compute the performance record for a decoded beatmap: classify the
/// pathway, normalize the accuracy description, run the engine once, and
/// flatten its output.
pub fn calculate_performance(
    map: &Beatmap,
    mode: u32,
    mods: u32,
    max_combo: u32,
    accuracy: Option<u64>,
    count_300: Option<u32>,
    count_100: Option<u32>,
    count_50: Option<u32>,
    miss_count: u32,
    passed_objects: Option<u32>,
) -> (r: Result<CalculatePerformanceResult, PerformanceError>)
    ensures
        r == computed_result(
            beatmap_chart(*map),
            mode,
            mods,
            max_combo,
            accuracy,
            count_300,
            count_100,
            count_50,
            miss_count,
            passed_objects,
        ),
{
    let ctx = match build_context(
        mode,
        mods,
        max_combo,
        accuracy,
        count_300,
        count_100,
        count_50,
        miss_count,
        passed_objects,
    ) {
        Ok(c) => c,
        Err(e) => {
            return Err(e);
        },
    };
    let raw = match invoke_engine(map, &ctx) {
        Ok(raw) => raw,
        Err(e) => {
            return Err(e);
        },
    };
    Ok(CalculatePerformanceResult::from_attributes(raw))
}

/// Compute the performance record for the content of a chart file held in
/// memory.  The record is a function of the bytes and the play statistics
/// alone.
pub fn calculate_performance_from_bytes(
    beatmap_bytes: &[u8],
    mode: u32,
    mods: u32,
    max_combo: u32,
    accuracy: Option<u64>,
    count_300: Option<u32>,
    count_100: Option<u32>,
    count_50: Option<u32>,
    miss_count: u32,
    passed_objects: Option<u32>,
) -> (r: Result<CalculatePerformanceResult, PerformanceError>)
    ensures
        r == performance_of(
            beatmap_bytes@,
            mode,
            mods,
            max_combo,
            accuracy,
            count_300,
            count_100,
            count_50,
            miss_count,
            passed_objects,
        ),
{
    let map = match decode_beatmap(beatmap_bytes) {
        Some(m) => m,
        None => {
            return Err(PerformanceError::BeatmapDecode);
        },
    };
    calculate_performance(
        &map,
        mode,
        mods,
        max_combo,
        accuracy,
        count_300,
        count_100,
        count_50,
        miss_count,
        passed_objects,
    )
}

} // verus!
