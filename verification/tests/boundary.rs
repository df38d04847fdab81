use okayu_pp_ffi::calculate_performance_from_bytes;
use okayu_pp_ffi::context::classify;
use okayu_pp_ffi::context::normalize_accuracy;
use okayu_pp_ffi::context::AccuracyInput;
use okayu_pp_ffi::context::Mode;
use okayu_pp_ffi::context::Pathway;
use okayu_pp_ffi::context::PerformanceError;
use okayu_pp_ffi::result::CalculatePerformanceResult;
use okayu_pp_ffi::result::RawAttributes;

/// A small osu!standard chart with eight circles.
fn osu_chart() -> Vec<u8> {
    let text = "osu file format v14\n\
\n\
[General]\n\
Mode: 0\n\
\n\
[Difficulty]\n\
HPDrainRate:5\n\
CircleSize:4\n\
OverallDifficulty:8\n\
ApproachRate:9\n\
SliderMultiplier:1.4\n\
SliderTickRate:1\n\
\n\
[TimingPoints]\n\
0,300,4,2,0,100,1,0\n\
\n\
[HitObjects]\n\
100,100,0,1,0,0:0:0:0:\n\
200,100,300,1,0,0:0:0:0:\n\
300,100,600,1,0,0:0:0:0:\n\
100,200,900,1,0,0:0:0:0:\n\
200,200,1200,1,0,0:0:0:0:\n\
300,200,1500,1,0,0:0:0:0:\n\
100,300,1800,1,0,0:0:0:0:\n\
200,300,2100,1,0,0:0:0:0:\n";
    text.as_bytes().to_vec()
}

/// The same chart declared as a taiko map.
fn taiko_chart() -> Vec<u8> {
    let text = String::from_utf8(osu_chart()).unwrap();
    text.replace("Mode: 0", "Mode: 1").into_bytes()
}

fn pct(p: f64) -> Option<u64> {
    Some(p.to_bits())
}

#[test]
fn determinism_repeated_calls() {
    let chart = osu_chart();
    let r1 = calculate_performance_from_bytes(
        &chart, 0, 0, 500, pct(97.5), None, None, None, 2, None,
    );
    let r2 = calculate_performance_from_bytes(
        &chart, 0, 0, 500, pct(97.5), None, None, None, 2, None,
    );
    assert_eq!(r1, r2);
}

#[test]
fn pathway_relax_iff_osu_and_bit() {
    assert_eq!(classify(0, 128), Ok(Pathway::Relax));
    assert_eq!(classify(0, 128 | 8), Ok(Pathway::Relax));
    assert_eq!(classify(0, 0), Ok(Pathway::Standard(Mode::Osu)));
    assert_eq!(classify(0, 8), Ok(Pathway::Standard(Mode::Osu)));
    assert_eq!(classify(1, 128), Ok(Pathway::Standard(Mode::Taiko)));
    assert_eq!(classify(2, 128), Ok(Pathway::Standard(Mode::Catch)));
    assert_eq!(classify(3, 128), Ok(Pathway::Standard(Mode::Mania)));
    assert_eq!(classify(1, 0), classify(1, 128));
    assert_eq!(classify(4, 0), Err(PerformanceError::InvalidMode));
    assert_eq!(classify(u32::MAX, 128), Err(PerformanceError::InvalidMode));
}

#[test]
fn accuracy_percentage_only_succeeds() {
    let chart = osu_chart();
    let r = calculate_performance_from_bytes(
        &chart, 0, 0, 500, pct(97.5), None, None, None, 2, None,
    );
    assert!(r.is_ok());
}

#[test]
fn accuracy_counts_only_succeeds() {
    let chart = osu_chart();
    let r = calculate_performance_from_bytes(
        &chart, 0, 0, 500, None, Some(6), Some(1), Some(1), 0, None,
    );
    assert!(r.is_ok());
}

#[test]
fn accuracy_neither_fails() {
    let chart = osu_chart();
    let r = calculate_performance_from_bytes(&chart, 0, 0, 500, None, None, None, None, 2, None);
    assert_eq!(r, Err(PerformanceError::MissingAccuracy));
    let partial = calculate_performance_from_bytes(
        &chart, 0, 0, 500, None, Some(6), Some(1), None, 2, None,
    );
    assert_eq!(partial, Err(PerformanceError::MissingAccuracy));
}

#[test]
fn accuracy_both_uses_percentage() {
    let chart = osu_chart();
    let with_both = calculate_performance_from_bytes(
        &chart, 0, 0, 500, pct(97.5), Some(1), Some(2), Some(3), 2, None,
    );
    let pct_only = calculate_performance_from_bytes(
        &chart, 0, 0, 500, pct(97.5), None, None, None, 2, None,
    );
    assert_eq!(with_both, pct_only);
}

#[test]
fn normalize_accuracy_cases() {
    assert_eq!(
        normalize_accuracy(Some(42), Some(1), None, None),
        Ok(AccuracyInput::Percentage(42))
    );
    assert_eq!(
        normalize_accuracy(None, Some(1), Some(2), Some(3)),
        Ok(AccuracyInput::Counts { n300: 1, n100: 2, n50: 3 })
    );
    assert_eq!(
        normalize_accuracy(None, None, Some(2), Some(3)),
        Err(PerformanceError::MissingAccuracy)
    );
}

#[test]
fn non_standard_modes_zero_ar_od() {
    let chart = osu_chart();
    for mode in 1..=3u32 {
        let r = calculate_performance_from_bytes(
            &chart, mode, 0, 8, pct(99.0), None, None, None, 0, None,
        )
        .unwrap();
        assert_eq!(r.ar_bits, 0, "mode {mode}");
        assert_eq!(r.od_bits, 0, "mode {mode}");
        assert!(f64::from_bits(r.pp_bits) > 0.0, "mode {mode}");
    }
}

#[test]
fn standard_mode_reports_ar_od() {
    let chart = osu_chart();
    let r = calculate_performance_from_bytes(
        &chart, 0, 0, 8, pct(99.0), None, None, None, 0, None,
    )
    .unwrap();
    assert!(f64::from_bits(r.ar_bits) > 0.0);
    assert!(f64::from_bits(r.od_bits) > 0.0);
}

#[test]
fn partial_play_changes_result() {
    let chart = osu_chart();
    let full = calculate_performance_from_bytes(
        &chart, 0, 0, 8, pct(97.5), None, None, None, 0, None,
    )
    .unwrap();
    let partial = calculate_performance_from_bytes(
        &chart, 0, 0, 8, pct(97.5), None, None, None, 0, Some(3),
    )
    .unwrap();
    assert_ne!(full, partial);
    assert!(f64::from_bits(partial.pp_bits) < f64::from_bits(full.pp_bits));
    assert!(f64::from_bits(partial.stars_bits) < f64::from_bits(full.stars_bits));
}

#[test]
fn scenario_standard_full_play() {
    let chart = osu_chart();
    let r = calculate_performance_from_bytes(
        &chart, 0, 0, 500, pct(97.5), None, None, None, 2, None,
    )
    .unwrap();
    assert!(f64::from_bits(r.pp_bits) > 0.0);
    assert!(f64::from_bits(r.stars_bits) > 0.0);
    // The chart holds eight circles: the record reports the chart's own
    // maximum achievable combo, not the played combo handed in.
    assert_eq!(r.max_combo, 8);
}

#[test]
fn scenario_relax_differs_from_standard() {
    let chart = osu_chart();
    let standard = calculate_performance_from_bytes(
        &chart, 0, 0, 500, pct(97.5), None, None, None, 2, None,
    )
    .unwrap();
    let relax = calculate_performance_from_bytes(
        &chart, 0, 128, 500, pct(97.5), None, None, None, 2, None,
    )
    .unwrap();
    assert_eq!(classify(0, 128), Ok(Pathway::Relax));
    assert_ne!(f64::from_bits(relax.pp_bits), f64::from_bits(standard.pp_bits));
}

#[test]
fn invalid_mode_is_rejected() {
    let chart = osu_chart();
    let r = calculate_performance_from_bytes(
        &chart, 4, 0, 500, pct(97.5), None, None, None, 2, None,
    );
    assert_eq!(r, Err(PerformanceError::InvalidMode));
}

#[test]
fn decoder_is_lenient_with_arbitrary_bytes() {
    // The engine's decoder replaces what it cannot read instead of
    // failing, so arbitrary bytes decode to an empty chart.
    let garbage: Vec<u8> = vec![0xff, 0xfe, 0xfd, 0x00, 0xff];
    let r = calculate_performance_from_bytes(
        &garbage, 0, 0, 500, pct(97.5), None, None, None, 2, None,
    )
    .unwrap();
    assert_eq!(r.max_combo, 0);
    assert_eq!(f64::from_bits(r.pp_bits), 0.0);
}

#[test]
fn incompatible_mode_is_rejected() {
    let chart = taiko_chart();
    let r = calculate_performance_from_bytes(
        &chart, 2, 0, 500, pct(97.5), None, None, None, 2, None,
    );
    assert_eq!(r, Err(PerformanceError::IncompatibleMode));
}

#[test]
fn taiko_chart_played_as_taiko() {
    let chart = taiko_chart();
    let r = calculate_performance_from_bytes(
        &chart, 1, 0, 8, pct(97.5), None, None, None, 0, None,
    )
    .unwrap();
    assert_eq!(r.ar_bits, 0);
    assert_eq!(r.od_bits, 0);
}

#[test]
fn default_record_is_all_zero() {
    let r = CalculatePerformanceResult::default();
    assert_eq!(r.pp_bits, 0);
    assert_eq!(r.stars_bits, 0);
    assert_eq!(r.ar_bits, 0);
    assert_eq!(r.od_bits, 0);
    assert_eq!(r.max_combo, 0);
}

#[test]
fn from_attributes_copies_osu_shape() {
    let raw = RawAttributes::OsuShape {
        pp_bits: 1,
        stars_bits: 2,
        ar_bits: 3,
        od_bits: 4,
        max_combo: 5,
    };
    let r = CalculatePerformanceResult::from_attributes(raw);
    assert_eq!(r.pp_bits, 1);
    assert_eq!(r.stars_bits, 2);
    assert_eq!(r.ar_bits, 3);
    assert_eq!(r.od_bits, 4);
    assert_eq!(r.max_combo, 5);
}

#[test]
fn from_attributes_zeroes_other_shape() {
    let raw = RawAttributes::OtherShape { pp_bits: 1, stars_bits: 2, max_combo: 5 };
    let r = CalculatePerformanceResult::from_attributes(raw);
    assert_eq!(r.pp_bits, 1);
    assert_eq!(r.stars_bits, 2);
    assert_eq!(r.ar_bits, 0);
    assert_eq!(r.od_bits, 0);
    assert_eq!(r.max_combo, 5);
}

#[test]
fn engine_reads_the_accuracy_argument() {
    let chart = osu_chart();
    let high = calculate_performance_from_bytes(
        &chart, 0, 0, 8, pct(99.0), None, None, None, 0, None,
    )
    .unwrap();
    let low = calculate_performance_from_bytes(
        &chart, 0, 0, 8, pct(60.0), None, None, None, 0, None,
    )
    .unwrap();
    assert!(f64::from_bits(low.pp_bits) < f64::from_bits(high.pp_bits));
}

#[test]
fn engine_reads_the_miss_argument() {
    let chart = osu_chart();
    let clean = calculate_performance_from_bytes(
        &chart, 0, 0, 8, None, Some(8), Some(0), Some(0), 0, None,
    )
    .unwrap();
    let missy = calculate_performance_from_bytes(
        &chart, 0, 0, 8, None, Some(5), Some(0), Some(0), 3, None,
    )
    .unwrap();
    assert!(f64::from_bits(missy.pp_bits) < f64::from_bits(clean.pp_bits));
}

#[test]
fn engine_reads_the_combo_argument() {
    let chart = osu_chart();
    let low = calculate_performance_from_bytes(
        &chart, 0, 0, 2, pct(97.5), None, None, None, 0, None,
    )
    .unwrap();
    let high = calculate_performance_from_bytes(
        &chart, 0, 0, 8, pct(97.5), None, None, None, 0, None,
    )
    .unwrap();
    assert!(f64::from_bits(low.pp_bits) < f64::from_bits(high.pp_bits));
}

#[test]
fn engine_reads_the_hit_count_arguments() {
    let chart = osu_chart();
    let best = calculate_performance_from_bytes(
        &chart, 0, 0, 8, None, Some(8), Some(0), Some(0), 0, None,
    )
    .unwrap();
    let meh = calculate_performance_from_bytes(
        &chart, 0, 0, 8, None, Some(0), Some(0), Some(8), 0, None,
    )
    .unwrap();
    assert!(f64::from_bits(meh.pp_bits) < f64::from_bits(best.pp_bits));
}
