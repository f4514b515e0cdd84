use corpusflow::descriptor::{
    baseline_descriptor_spec, check_frame_len, check_normalization_input, count_sign_changes,
    plan_extractor,
    ExtractorShape, BASELINE_DESCRIPTOR_DIMENSIONS,
};

#[test]
fn baseline_descriptor_spec_matches_feature_count() {
    let spec = baseline_descriptor_spec();

    assert_eq!(spec.dimensions, BASELINE_DESCRIPTOR_DIMENSIONS);
    assert_eq!(spec.feature_names[0], "log_rms");
    assert_eq!(spec.feature_names[4], "spectral_rolloff_85");
}

#[test]
fn descriptor_extractor_rejects_frame_size_mismatch() {
    let shape = plan_extractor(48_000, 8).expect("extractor");
    let error = check_frame_len(shape.frame_size, 4).expect_err("mismatched frame should fail");

    assert_eq!(error, "descriptor extractor expected 8 samples, found 4");
}

#[test]
fn extractor_parameters_are_checked() {
    assert_eq!(
        plan_extractor(0, 8),
        Err("descriptor extractor sample_rate must be > 0".to_string())
    );
    assert_eq!(
        plan_extractor(48_000, 0),
        Err("descriptor extractor frame_size must be > 0".to_string())
    );
    assert_eq!(
        plan_extractor(48_000, 256),
        Ok(ExtractorShape {
            sample_rate: 48_000,
            frame_size: 256,
            positive_bin_count: 129,
        })
    );
    assert_eq!(check_frame_len(16, 16), Ok(()));
}

#[test]
fn sign_changes_count_adjacent_bucket_flips() {
    assert_eq!(count_sign_changes(&[]), 0);
    assert_eq!(count_sign_changes(&[true]), 0);
    assert_eq!(count_sign_changes(&[true, true, true]), 0);
    assert_eq!(count_sign_changes(&[true, false, true, false]), 3);
    assert_eq!(count_sign_changes(&[true, true, false, false, true]), 2);
}

#[test]
fn descriptor_normalization_requires_non_empty_input() {
    let error = check_normalization_input(0).expect_err("empty normalization input must fail");

    assert_eq!(
        error,
        "descriptor normalization requires at least one vector"
    );
    assert_eq!(check_normalization_input(2), Ok(()));
}
