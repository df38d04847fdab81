//! The trusted seam to the external difficulty engine.
//!
//! The engine's builder value is opaque; a ghost model of the settings
//! recorded in it, `perf_state`, is kept in step by the contract of every
//! wrapper.  The engine's calculation is deterministic — a pure function of
//! the chart's content and the recorded settings — so its outcome is given
//! a name, `engine_result`, that the boundary's contracts are stated over.

use vstd::prelude::*;
use crate::context::Mode;
use crate::result::RawAttributes;
use rosu_pp::any::Performance;
use rosu_pp::any::PerformanceAttributes;
use rosu_pp::model::beatmap::Beatmap;
use rosu_pp::model::mode::GameMode;

verus! {

#[verifier::external_type_specification]
#[verifier::external_body]
pub struct ExBeatmap(Beatmap);

#[verifier::external_type_specification]
#[verifier::external_body]
pub struct ExPerformance<'map>(Performance<'map>);

#[verifier::external_type_specification]
#[verifier::external_body]
pub struct ExPerformanceAttributes(PerformanceAttributes);

/// The chart content a decoded beatmap stands for: the bytes it was
/// decoded from.
pub uninterp spec fn beatmap_chart(map: Beatmap) -> Seq<u8>;

/// Whether a byte sequence decodes into a beatmap.  Decoding is pure, so
/// this is a function of the bytes alone.
pub uninterp spec fn chart_decodes(chart: Seq<u8>) -> bool;

/// Whether a decoded chart can be played in (converted to) the given mode.
pub uninterp spec fn mode_convertible(chart: Seq<u8>, mode: Mode) -> bool;

/// Every setting the engine's builder holds, together with the chart it was
/// created for and the mode it was converted to.  A field is `None` while
/// the corresponding setting has not been given.
pub struct BuilderState {
    pub chart: Seq<u8>,
    pub mode: Mode,
    pub mods: u32,
    pub combo: Option<u32>,
    pub misses: Option<u32>,
    pub passed_objects: Option<u32>,
    pub accuracy_bits: Option<u64>,
    pub n300: Option<u32>,
    pub n100: Option<u32>,
    pub n50: Option<u32>,
}

/// The settings recorded in a performance builder so far.
pub uninterp spec fn perf_state(perf: Performance) -> BuilderState;

/// The engine's output for a chart and a full set of recorded settings.
/// The calculation is deterministic, so the outcome is a function of the
/// state alone; nothing more is assumed of its value.
pub uninterp spec fn engine_result(state: BuilderState) -> RawAttributes;

/// The flattened form of a mode-tagged attribute value: which shape it has
/// and the plain values its fields hold.
pub uninterp spec fn attrs_flat(attrs: PerformanceAttributes) -> RawAttributes;

/// The state of a freshly created builder: no modifiers, nothing recorded.
pub open spec fn init_state(chart: Seq<u8>, mode: Mode) -> BuilderState {
    BuilderState {
        chart,
        mode,
        mods: 0,
        combo: None,
        misses: None,
        passed_objects: None,
        accuracy_bits: None,
        n300: None,
        n100: None,
        n50: None,
    }
}

/// Relies on `rosu_pp::model::beatmap::Beatmap::from_bytes`: decoding the
/// content of a chart file is a pure function of the bytes.
#[verifier::external_body]
pub fn decode_beatmap(data: &[u8]) -> (r: Option<Beatmap>)
    ensures
        r is Some <==> chart_decodes(data@),
        r is Some ==> beatmap_chart(r->0) == data@,
{
    Beatmap::from_bytes(data).ok()
}

/// Relies on `rosu_pp::model::beatmap::Beatmap::performance` and
/// `rosu_pp::any::Performance::try_mode`: a builder for the chart is created
/// and converted to the requested mode; conversion succeeds exactly when the
/// chart's own mode allows it, and no setting is recorded yet.
#[verifier::external_body]
pub fn begin_performance<'map>(map: &'map Beatmap, mode: Mode) -> (r: Option<Performance<'map>>)
    ensures
        r is Some <==> mode_convertible(beatmap_chart(*map), mode),
        r is Some ==> perf_state(r->0) == init_state(beatmap_chart(*map), mode),
{
    let game_mode = match mode {
        Mode::Osu => GameMode::Osu,
        Mode::Taiko => GameMode::Taiko,
        Mode::Catch => GameMode::Catch,
        Mode::Mania => GameMode::Mania,
    };
    map.performance().try_mode(game_mode).ok()
}

/// Relies on `rosu_pp::any::Performance::mods`: records the modifier
/// bitmask and changes nothing else.
#[verifier::external_body]
pub fn with_mods<'map>(perf: Performance<'map>, mods: u32) -> (r: Performance<'map>)
    ensures
        perf_state(r) == (BuilderState { mods, ..perf_state(perf) }),
{
    perf.mods(mods)
}

/// Relies on `rosu_pp::any::Performance::combo`: records the play's highest
/// combo and changes nothing else.
#[verifier::external_body]
pub fn with_combo<'map>(perf: Performance<'map>, combo: u32) -> (r: Performance<'map>)
    ensures
        perf_state(r) == (BuilderState { combo: Some(combo), ..perf_state(perf) }),
{
    perf.combo(combo)
}

/// Relies on `rosu_pp::any::Performance::misses`: records the play's miss
/// count and changes nothing else.
#[verifier::external_body]
pub fn with_misses<'map>(perf: Performance<'map>, misses: u32) -> (r: Performance<'map>)
    ensures
        perf_state(r) == (BuilderState { misses: Some(misses), ..perf_state(perf) }),
{
    perf.misses(misses)
}

/// Relies on `rosu_pp::any::Performance::passed_objects`: records the
/// early-truncation cutoff and changes nothing else.
#[verifier::external_body]
pub fn with_passed_objects<'map>(perf: Performance<'map>, passed: u32) -> (r: Performance<'map>)
    ensures
        perf_state(r) == (BuilderState { passed_objects: Some(passed), ..perf_state(perf) }),
{
    perf.passed_objects(passed)
}

/// Relies on `rosu_pp::any::Performance::accuracy`: records the accuracy
/// percentage, handed over as the IEEE-754 bit pattern of the 64-bit value,
/// and changes nothing else.
#[verifier::external_body]
pub fn with_accuracy_bits<'map>(perf: Performance<'map>, bits: u64) -> (r: Performance<'map>)
    ensures
        perf_state(r) == (BuilderState { accuracy_bits: Some(bits), ..perf_state(perf) }),
{
    perf.accuracy(bytemuck::cast(bits))
}

/// Relies on `rosu_pp::any::Performance::n300`: records the count of best
/// hits and changes nothing else.
#[verifier::external_body]
pub fn with_n300<'map>(perf: Performance<'map>, n300: u32) -> (r: Performance<'map>)
    ensures
        perf_state(r) == (BuilderState { n300: Some(n300), ..perf_state(perf) }),
{
    perf.n300(n300)
}

/// Relies on `rosu_pp::any::Performance::n100`: records the count of good
/// hits and changes nothing else.
#[verifier::external_body]
pub fn with_n100<'map>(perf: Performance<'map>, n100: u32) -> (r: Performance<'map>)
    ensures
        perf_state(r) == (BuilderState { n100: Some(n100), ..perf_state(perf) }),
{
    perf.n100(n100)
}

/// Relies on `rosu_pp::any::Performance::n50`: records the count of meh
/// hits and changes nothing else.
#[verifier::external_body]
pub fn with_n50<'map>(perf: Performance<'map>, n50: u32) -> (r: Performance<'map>)
    ensures
        perf_state(r) == (BuilderState { n50: Some(n50), ..perf_state(perf) }),
{
    perf.n50(n50)
}

/// Relies on `rosu_pp::any::Performance::calculate`: the attributes are a
/// deterministic function of the chart and the recorded settings, and their
/// shape is the osu! one exactly when the builder was converted to the osu!
/// mode.
#[verifier::external_body]
pub fn calculate(perf: Performance<'_>) -> (r: PerformanceAttributes)
    ensures
        attrs_flat(r) == engine_result(perf_state(perf)),
        attrs_flat(r) is OsuShape <==> perf_state(perf).mode == Mode::Osu,
{
    perf.calculate()
}

/// Relies on the fields of `rosu_pp::osu::OsuPerformanceAttributes`,
/// `rosu_pp::taiko::TaikoPerformanceAttributes`,
/// `rosu_pp::catch::CatchPerformanceAttributes` and
/// `rosu_pp::mania::ManiaPerformanceAttributes`: each shape's performance
/// points, star rating and maximum combo — and, for the osu! shape alone,
/// approach rate and overall difficulty — are read out as plain values.
#[verifier::external_body]
pub fn flatten_attributes(attrs: PerformanceAttributes) -> (r: RawAttributes)
    ensures
        r == attrs_flat(attrs),
{
    match attrs {
        PerformanceAttributes::Osu(a) => RawAttributes::OsuShape { pp_bits: a.pp.to_bits(), stars_bits: a.difficulty.stars.to_bits(), ar_bits: a.difficulty.ar.to_bits(), od_bits: a.difficulty.od.to_bits(), max_combo: a.difficulty.max_combo },
        PerformanceAttributes::Taiko(a) => RawAttributes::OtherShape { pp_bits: a.pp.to_bits(), stars_bits: a.difficulty.stars.to_bits(), max_combo: a.difficulty.max_combo },
        PerformanceAttributes::Catch(a) => RawAttributes::OtherShape { pp_bits: a.pp.to_bits(), stars_bits: a.difficulty.stars.to_bits(), max_combo: a.difficulty.max_combo() },
        PerformanceAttributes::Mania(a) => RawAttributes::OtherShape { pp_bits: a.pp.to_bits(), stars_bits: a.difficulty.stars.to_bits(), max_combo: a.difficulty.max_combo },
    }
}

} // verus!
