use corpusflow::audio::{
    check_float_sample_bits, check_mono_channels, check_wav_writer_layout, downmix_kind,
    frame_count, int_sample_scale, resample_plan, validate_layout, DownmixKind, ResampleTap,
};

#[test]
fn rejects_multichannel_downmix_beyond_stereo() {
    assert_eq!(validate_layout(48_000, 3, 3), Ok(()));
    let error = downmix_kind(3).expect_err("3-channel corpus audio must fail");

    assert_eq!(
        error,
        "corpus mono downmix supports only mono or stereo WAV input, found 3 channels"
    );
}

#[test]
fn downmix_keeps_mono_and_averages_stereo() {
    assert_eq!(downmix_kind(1), Ok(DownmixKind::Keep));
    assert_eq!(downmix_kind(2), Ok(DownmixKind::StereoMean));
}

#[test]
fn layout_errors_come_in_order() {
    assert_eq!(validate_layout(0, 0, 3), Err("audio sample_rate must be > 0".to_string()));
    assert_eq!(validate_layout(1, 0, 3), Err("audio channels must be > 0".to_string()));
    assert_eq!(
        validate_layout(1, 2, 3),
        Err("audio samples must align with channel count".to_string())
    );
    assert_eq!(frame_count(8, 2), 4);
}

#[test]
fn mono_and_writer_channel_checks() {
    assert_eq!(check_mono_channels(1), Ok(()));
    assert_eq!(
        check_mono_channels(2),
        Err("expected mono WAV input, found 2 channels".to_string())
    );
    assert_eq!(check_wav_writer_layout(48_000, 2, 4), Ok(()));
    assert_eq!(
        check_wav_writer_layout(48_000, 3, 3),
        Err("WAV writer supports only mono or stereo output, found 3 channels".to_string())
    );
    assert_eq!(
        check_wav_writer_layout(48_000, 2, 3),
        Err("audio samples must align with channel count".to_string())
    );
}

#[test]
fn integer_sample_widths() {
    assert_eq!(int_sample_scale("a.wav", 16), Ok(32_767));
    assert_eq!(int_sample_scale("a.wav", 24), Ok(8_388_607));
    assert_eq!(int_sample_scale("a.wav", 32), Ok(2_147_483_647));
    assert_eq!(
        int_sample_scale("a.wav", 8),
        Err("unsupported integer WAV `a.wav`: 8-bit PCM is not enabled in phase 01".to_string())
    );
    assert_eq!(
        int_sample_scale("a.wav", 40),
        Err("unsupported integer WAV `a.wav`: found 40-bit PCM".to_string())
    );
    assert_eq!(
        int_sample_scale("a.wav", 0),
        Err("unsupported integer WAV `a.wav`: found 0-bit PCM".to_string())
    );
    assert_eq!(check_float_sample_bits("f.wav", 32), Ok(()));
    assert_eq!(
        check_float_sample_bits("f.wav", 64),
        Err("unsupported float WAV `f.wav`: expected 32-bit float, found 64-bit".to_string())
    );
}

fn apply(plan: &[ResampleTap], input: &[f32], channels: usize, output_rate: u32) -> Vec<f32> {
    let mut out = Vec::new();
    for tap in plan {
        for channel in 0..channels {
            match *tap {
                ResampleTap::Copy { frame } => out.push(input[frame * channels + channel]),
                ResampleTap::Blend { frame, fraction_numerator } => {
                    let current = input[frame * channels + channel];
                    let next = input[(frame + 1) * channels + channel];
                    let fraction = fraction_numerator as f32 / output_rate as f32;
                    out.push(current + (next - current) * fraction);
                }
            }
        }
    }
    out
}

#[test]
fn upsampling_plan_interpolates_linearly() {
    let plan = resample_plan(2, 2, 4);
    assert_eq!(
        plan,
        vec![
            ResampleTap::Blend { frame: 0, fraction_numerator: 0 },
            ResampleTap::Blend { frame: 0, fraction_numerator: 2 },
            ResampleTap::Copy { frame: 1 },
            ResampleTap::Copy { frame: 1 },
        ]
    );
    let mono = apply(&plan, &[0.0, 1.0], 1, 4);
    assert_eq!(mono, vec![0.0, 0.5, 1.0, 1.0]);
    let stereo = apply(&plan, &[0.0, 10.0, 1.0, 20.0], 2, 4);
    assert_eq!(stereo, vec![0.0, 10.0, 0.5, 15.0, 1.0, 20.0, 1.0, 20.0]);
}

#[test]
fn output_length_rounds_half_up_and_keeps_one_frame() {
    assert_eq!(resample_plan(0, 48_000, 44_100).len(), 0);
    assert_eq!(resample_plan(8, 1_000, 4_000).len(), 32);
    assert_eq!(resample_plan(16, 2_000, 4_000).len(), 32);
    assert_eq!(resample_plan(3, 2, 1).len(), 2);
    assert_eq!(resample_plan(1, 48_000, 1).len(), 1);
}

#[test]
fn same_rate_plan_reads_each_frame_once() {
    let plan = resample_plan(4, 1_000, 1_000);
    assert_eq!(
        plan,
        vec![
            ResampleTap::Blend { frame: 0, fraction_numerator: 0 },
            ResampleTap::Blend { frame: 1, fraction_numerator: 0 },
            ResampleTap::Blend { frame: 2, fraction_numerator: 0 },
            ResampleTap::Copy { frame: 3 },
        ]
    );
}

#[test]
fn downsampling_plan_skips_frames() {
    let plan = resample_plan(6, 3, 2);
    assert_eq!(
        plan,
        vec![
            ResampleTap::Blend { frame: 0, fraction_numerator: 0 },
            ResampleTap::Blend { frame: 1, fraction_numerator: 1 },
            ResampleTap::Blend { frame: 3, fraction_numerator: 0 },
            ResampleTap::Blend { frame: 4, fraction_numerator: 1 },
        ]
    );
}
