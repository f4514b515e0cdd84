use corpusflow::config::{EnvelopeAdaptationMode, GainAdaptationMode, MicroAdaptationConfig};
use corpusflow::micro_adaptation::{
    carrier_segment_starts, plan_carrier_envelope, plan_envelope_segments, shaping_would_reverse,
    EnvelopePlan,
    MicroAdaptationPlan, SegmentRange,
};

fn ranges(pairs: &[(usize, usize)]) -> Vec<SegmentRange> {
    pairs
        .iter()
        .map(|&(start, end)| SegmentRange { start, end })
        .collect()
}

#[test]
fn micro_adaptation_plan_reflects_config_modes() {
    let config = MicroAdaptationConfig {
        gain: GainAdaptationMode::MatchTargetRms,
        envelope: EnvelopeAdaptationMode::InheritCarrierRms,
    };

    let plan = MicroAdaptationPlan::from(&config);

    assert_eq!(plan.gain, GainAdaptationMode::MatchTargetRms);
    assert_eq!(plan.envelope, EnvelopeAdaptationMode::InheritCarrierRms);
}

#[test]
fn carrier_segments_follow_hop_size() {
    let plan = plan_carrier_envelope(EnvelopeAdaptationMode::InheritCarrierRms, 6, 3, 2);
    assert_eq!(
        plan,
        EnvelopePlan {
            segments: ranges(&[(0, 2), (2, 4), (4, 6)]),
            error: None,
        }
    );
}

#[test]
fn carrier_last_segment_extends_over_tail_samples() {
    let plan = plan_carrier_envelope(EnvelopeAdaptationMode::InheritCarrierRms, 7, 2, 2);
    assert_eq!(plan.segments, ranges(&[(0, 2), (2, 7)]));
    assert_eq!(plan.error, None);
}

#[test]
fn carrier_levels_past_the_signal_are_unused() {
    let plan = plan_carrier_envelope(EnvelopeAdaptationMode::InheritCarrierRms, 3, 5, 2);
    assert_eq!(plan.segments, ranges(&[(0, 2), (2, 3)]));
    assert_eq!(plan.error, None);
}

#[test]
fn carrier_plan_skips_and_refuses() {
    assert_eq!(
        plan_carrier_envelope(EnvelopeAdaptationMode::Off, 6, 3, 2),
        EnvelopePlan { segments: Vec::new(), error: None }
    );
    assert_eq!(
        plan_carrier_envelope(EnvelopeAdaptationMode::InheritCarrierRms, 0, 3, 2),
        EnvelopePlan { segments: Vec::new(), error: None }
    );
    assert_eq!(
        plan_carrier_envelope(EnvelopeAdaptationMode::InheritCarrierRms, 6, 0, 2),
        EnvelopePlan { segments: Vec::new(), error: None }
    );
    assert_eq!(
        plan_carrier_envelope(EnvelopeAdaptationMode::InheritCarrierRms, 6, 3, 0),
        EnvelopePlan {
            segments: Vec::new(),
            error: Some("carrier envelope hop_size_frames must be > 0".to_string()),
        }
    );
}

#[test]
fn carrier_starts_saturate() {
    assert_eq!(carrier_segment_starts(3, 4), vec![0, 4, 8]);
    assert_eq!(
        carrier_segment_starts(3, usize::MAX),
        vec![0, usize::MAX, usize::MAX]
    );
    let plan = plan_carrier_envelope(EnvelopeAdaptationMode::InheritCarrierRms, 10, 3, usize::MAX);
    assert_eq!(plan.segments, ranges(&[(0, 10)]));
    assert_eq!(plan.error, None);
}

#[test]
fn carrier_envelope_segments_follow_explicit_starts() {
    let plan = plan_envelope_segments(EnvelopeAdaptationMode::InheritCarrierRms, 12, &[0, 4, 8], 3);
    assert_eq!(plan.segments, ranges(&[(0, 4), (4, 8), (8, 12)]));
    assert_eq!(plan.error, None);
}

#[test]
fn explicit_segments_report_count_mismatch_and_order_errors() {
    let mismatch = plan_envelope_segments(EnvelopeAdaptationMode::InheritCarrierRms, 12, &[0, 4], 3);
    assert_eq!(
        mismatch,
        EnvelopePlan {
            segments: Vec::new(),
            error: Some("carrier envelope segment starts must match target rms count".to_string()),
        }
    );

    let repeated = plan_envelope_segments(EnvelopeAdaptationMode::InheritCarrierRms, 12, &[0, 4, 4], 3);
    assert_eq!(
        repeated,
        EnvelopePlan {
            segments: ranges(&[(0, 4), (4, 4)]),
            error: Some("carrier envelope segment starts must be strictly increasing".to_string()),
        }
    );

    let stopped_first = plan_envelope_segments(EnvelopeAdaptationMode::InheritCarrierRms, 6, &[0, 8, 9], 3);
    assert_eq!(stopped_first.segments, ranges(&[(0, 6)]));
    assert_eq!(stopped_first.error, None);
}

#[test]
fn explicit_segments_skip_when_off_or_empty() {
    let off = plan_envelope_segments(EnvelopeAdaptationMode::Off, 12, &[0, 4], 3);
    assert_eq!(off, EnvelopePlan { segments: Vec::new(), error: None });
    let no_starts = plan_envelope_segments(EnvelopeAdaptationMode::InheritCarrierRms, 12, &[], 3);
    assert_eq!(no_starts, EnvelopePlan { segments: Vec::new(), error: None });
    let no_levels = plan_envelope_segments(EnvelopeAdaptationMode::InheritCarrierRms, 12, &[0], 0);
    assert_eq!(no_levels, EnvelopePlan { segments: Vec::new(), error: None });
}

#[test]
fn reversed_starts_matter_only_when_shaping_happens() {
    let off = plan_envelope_segments(EnvelopeAdaptationMode::Off, 4, &[0, 2, 1], 3);
    assert_eq!(off, EnvelopePlan { segments: Vec::new(), error: None });
    assert!(!shaping_would_reverse(EnvelopeAdaptationMode::Off, 4, &[0, 2, 1], 3));
    assert!(!shaping_would_reverse(EnvelopeAdaptationMode::InheritCarrierRms, 4, &[0, 2, 1], 2));
    assert!(shaping_would_reverse(EnvelopeAdaptationMode::InheritCarrierRms, 4, &[0, 2, 1], 3));
    assert!(!shaping_would_reverse(EnvelopeAdaptationMode::InheritCarrierRms, 4, &[0, 2, 3], 3));
    let mismatch = plan_envelope_segments(EnvelopeAdaptationMode::InheritCarrierRms, 4, &[0, 2, 1], 2);
    assert_eq!(
        mismatch.error,
        Some("carrier envelope segment starts must match target rms count".to_string())
    );
}
