use corpusflow::config::{
    config_summary, AppConfig, F32Bits, MatchingConfig, OverlapSchedule, PostConvolutionSource, RenderMode,
};

fn bits(value: f32) -> F32Bits {
    F32Bits { bits: value.to_bits() }
}

#[test]
fn default_config_is_valid() {
    let config = AppConfig::default();
    assert_eq!(config.validate(), Ok(()));
}

#[test]
fn invalid_grain_size_is_rejected() {
    let mut config = AppConfig::default();
    config.corpus.grain_size_ms = 0;

    let error = config.validate().expect_err("config should be invalid");
    assert_eq!(error, "corpus grain_size_ms must be > 0");
}

#[test]
fn invalid_matching_weights_are_rejected() {
    let mut config = AppConfig::default();
    config.matching = MatchingConfig {
        alpha: bits(f32::NAN),
        beta: bits(0.25),
        ..config.matching
    };

    let error = config.validate().expect_err("config should be invalid");
    assert_eq!(error, "matching weights must be finite");
}

#[test]
fn default_config_matches_canonical_values() {
    let config = AppConfig::default();
    assert_eq!(config.corpus.root, "");
    assert_eq!(config.corpus.grain_size_ms, 100);
    assert_eq!(config.corpus.grain_hop_ms, 50);
    assert!(config.corpus.mono_only);
    assert_eq!(config.target.frame_size_ms, 100);
    assert_eq!(config.target.hop_size_ms, 50);
    assert_eq!(f32::from_bits(config.matching.alpha.bits), 1.0);
    assert_eq!(f32::from_bits(config.matching.beta.bits), 0.25);
    assert_eq!(f32::from_bits(config.matching.transition_descriptor_weight.bits), 1.0);
    assert_eq!(f32::from_bits(config.matching.transition_seek_weight.bits), 0.5);
    assert_eq!(f32::from_bits(config.matching.source_switch_penalty.bits), 0.25);
    assert_eq!(config.synthesis.output_hop_ms, 50);
    assert_eq!(config.rendering.output_sample_rate, 48_000);
    assert_eq!(config.rendering.mode, RenderMode::Mono);
    assert_eq!(f32::from_bits(config.rendering.post_convolution.dry_mix.bits), 1.0);
    assert_eq!(f32::from_bits(config.rendering.post_convolution.wet_mix.bits), 1.0);
}

#[test]
fn each_validation_rule_reports_its_own_error() {
    let mut config = AppConfig::default();
    config.corpus.grain_hop_ms = 0;
    assert_eq!(config.validate(), Err("corpus grain_hop_ms must be > 0".to_string()));

    let mut config = AppConfig::default();
    config.target.hop_size_ms = 0;
    assert_eq!(
        config.validate(),
        Err("target frame_size_ms and hop_size_ms must be > 0".to_string())
    );

    let mut config = AppConfig::default();
    config.matching.source_switch_penalty = bits(f32::INFINITY);
    assert_eq!(config.validate(), Err("matching weights must be finite".to_string()));

    let mut config = AppConfig::default();
    config.synthesis.output_hop_ms = 0;
    assert_eq!(config.validate(), Err("synthesis output_hop_ms must be > 0".to_string()));

    let mut config = AppConfig::default();
    config.rendering.output_sample_rate = 0;
    assert_eq!(config.validate(), Err("rendering output_sample_rate must be > 0".to_string()));

    let mut config = AppConfig::default();
    config.synthesis.irregularity_ms = 5;
    assert_eq!(
        config.validate(),
        Err("synthesis overlap_schedule fixed requires irregularity_ms = 0".to_string())
    );

    let mut config = AppConfig::default();
    config.synthesis.overlap_schedule = OverlapSchedule::Alternating;
    assert_eq!(
        config.validate(),
        Err("synthesis overlap_schedule alternating requires 0 < irregularity_ms < output_hop_ms"
            .to_string())
    );
    config.synthesis.irregularity_ms = 50;
    assert!(config.validate().is_err());
    config.synthesis.irregularity_ms = 49;
    assert_eq!(config.validate(), Ok(()));

    let mut config = AppConfig::default();
    config.rendering.post_convolution.wet_mix = bits(1.5);
    assert_eq!(
        config.validate(),
        Err("post_convolution dry_mix and wet_mix must be within 0.0..=1.0".to_string())
    );

    let mut config = AppConfig::default();
    config.rendering.post_convolution.enabled = true;
    config.rendering.post_convolution.source = PostConvolutionSource::AudioFile;
    config.rendering.post_convolution.audio_path = String::new();
    assert_eq!(
        config.validate(),
        Err("post_convolution source audio-file requires a non-empty audio_path".to_string())
    );
    config.rendering.post_convolution.audio_path = "   ".to_string();
    assert_eq!(config.validate(), Ok(()));
    config.rendering.post_convolution.audio_path = "ir.wav".to_string();
    assert_eq!(config.validate(), Ok(()));
}

#[test]
fn float_bit_predicates_follow_ieee_values() {
    for value in [0.0f32, -0.0, 1.0, 0.5, 1.0e-40, f32::MAX, -3.0] {
        assert!(bits(value).is_finite());
    }
    for value in [f32::NAN, f32::INFINITY, f32::NEG_INFINITY] {
        assert!(!bits(value).is_finite());
    }
    for value in [0.0f32, -0.0, 1.0, 0.5, 1.0e-40, 0.999_999] {
        assert!(bits(value).in_unit_interval(), "{value} should be in range");
    }
    for value in [1.000_001f32, -1.0e-40, -0.5, 2.0, f32::NAN, f32::INFINITY] {
        assert!(!bits(value).in_unit_interval(), "{value} should be out of range");
    }
}

#[test]
fn render_mode_names() {
    assert_eq!(RenderMode::Mono.as_str(), "mono");
    assert_eq!(RenderMode::Stereo.as_str(), "stereo");
    assert_eq!(RenderMode::AmbisonicsReserved.as_str(), "ambisonics-reserved");
}

#[test]
fn config_summary_lists_grids_weights_and_mode() {
    let mut config = AppConfig::default();
    config.corpus.grain_size_ms = 120;
    config.corpus.grain_hop_ms = 60;
    config.target.frame_size_ms = 120;
    config.target.hop_size_ms = 60;
    let alpha = format!("{}", 1.25f32);
    let beta = format!("{}", 0.5f32);
    assert_eq!(
        config_summary(&config, &alpha, &beta),
        "corpus(grain=120ms hop=60ms) target(frame=120ms hop=60ms) matching(alpha=1.25, beta=0.5) rendering(mono)"
    );
}

#[test]
fn float_bits_compare_as_f32_values() {
    let values = [0.0f32, -0.0, 1.0, -1.0, f32::NAN, f32::INFINITY, 0.25];
    for &a in &values {
        for &b in &values {
            assert_eq!(bits(a) == bits(b), a == b, "{a} == {b}");
        }
    }
    let mut config = AppConfig::default();
    let other = config.clone();
    config.matching.alpha = bits(-0.0);
    let mut zeroed = other.clone();
    zeroed.matching.alpha = bits(0.0);
    assert_eq!(config.matching, zeroed.matching);
}
