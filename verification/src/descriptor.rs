//! The descriptor baseline: its feature list, the checks of the extractor's
//! parameters and frames, and the sign-change count of the zero-crossing
//! rate. The spectral features are floating point and computed by the
//! application with an FFT.

use vstd::prelude::*;
use crate::text::{push_decimal, push_text, spec_decimal};

verus! {

/// The number of baseline descriptor features.
pub const BASELINE_DESCRIPTOR_DIMENSIONS: usize = 5;

/// The dimensions and feature names of a descriptor vector.
#[derive(Debug, Clone, PartialEq, Eq)]
pub struct DescriptorSpec {
    pub dimensions: usize,
    pub feature_names: &'static [&'static str],
}

/// The baseline features, in vector order.
pub open spec fn baseline_feature_names() -> Seq<Seq<char>> {
    seq![
        "log_rms"@,
        "zero_crossing_rate"@,
        "spectral_centroid"@,
        "spectral_flatness"@,
        "spectral_rolloff_85"@,
    ]
}

/// The baseline descriptor: log RMS, zero-crossing rate, spectral centroid,
/// spectral flatness and 85% spectral rolloff.
pub fn baseline_descriptor_spec() -> (r: DescriptorSpec)
    ensures
        r.dimensions == BASELINE_DESCRIPTOR_DIMENSIONS,
        r.feature_names@.len() == BASELINE_DESCRIPTOR_DIMENSIONS,
        forall|i: int|
            0 <= i < BASELINE_DESCRIPTOR_DIMENSIONS ==> #[trigger] r.feature_names@[i]@
                == baseline_feature_names()[i],
{
    let names: &'static [&'static str] = &[
        "log_rms",
        "zero_crossing_rate",
        "spectral_centroid",
        "spectral_flatness",
        "spectral_rolloff_85",
    ];
    DescriptorSpec { dimensions: names.len(), feature_names: names }
}

/// The frame layout of a descriptor extractor.
#[derive(Debug, Clone, Copy, PartialEq, Eq, Structural)]
pub struct ExtractorShape {
    pub sample_rate: u32,
    pub frame_size: usize,
    /// The FFT bins from zero up to the Nyquist bin: `frame_size / 2 + 1`.
    pub positive_bin_count: usize,
}

/// Checks the parameters of an extractor and gives its frame layout.
pub fn plan_extractor(sample_rate: u32, frame_size: usize) -> (r: Result<ExtractorShape, String>)
    ensures
        sample_rate == 0 ==> r is Err && r->Err_0@ == "descriptor extractor sample_rate must be > 0"@,
        sample_rate != 0 && frame_size == 0 ==> r is Err && r->Err_0@
            == "descriptor extractor frame_size must be > 0"@,
        sample_rate != 0 && frame_size != 0 ==> r == Ok::<ExtractorShape, String>(
            ExtractorShape { sample_rate, frame_size, positive_bin_count: (frame_size / 2 + 1) as usize },
        ),
{
    if sample_rate == 0 {
        return Err(String::from_str("descriptor extractor sample_rate must be > 0"));
    }
    if frame_size == 0 {
        return Err(String::from_str("descriptor extractor frame_size must be > 0"));
    }
    Ok(ExtractorShape { sample_rate, frame_size, positive_bin_count: frame_size / 2 + 1 })
}

/// Refuses a frame whose length is not the extractor's frame size.
pub fn check_frame_len(expected: usize, found: usize) -> (r: Result<(), String>)
    ensures
        expected == found ==> r is Ok,
        expected != found ==> r is Err && r->Err_0@ == "descriptor extractor expected "@
            + spec_decimal(expected as nat) + " samples, found "@ + spec_decimal(found as nat),
{
    if expected != found {
        let mut m = String::from_str("descriptor extractor expected ");
        push_decimal(&mut m, expected as u128);
        push_text(&mut m, " samples, found ");
        push_decimal(&mut m, found as u128);
        return Err(m);
    }
    Ok(())
}

/// The number of adjacent pairs whose signs differ among the first `n` signs.
pub open spec fn spec_sign_changes(signs: Seq<bool>, n: nat) -> nat
    decreases n,
{
    if n < 2 {
        0
    } else {
        spec_sign_changes(signs, (n - 1) as nat) + if signs[n - 2] != signs[n - 1] {
            1nat
        } else {
            0nat
        }
    }
}

/// Counts the adjacent pairs of samples whose sign buckets (`x >= 0`) differ.
pub fn count_sign_changes(signs: &[bool]) -> (r: usize)
    ensures
        r == spec_sign_changes(signs@, signs@.len()),
{
    let n = signs.len();
    if n < 2 {
        return 0;
    }
    let mut count: usize = 0;
    let mut i: usize = 1;
    while i < n
        invariant
            n == signs@.len(),
            1 <= i <= n,
            count == spec_sign_changes(signs@, i as nat),
            count < i,
        decreases n - i,
    {
        if signs[i - 1] != signs[i] {
            count = count + 1;
        }
        i = i + 1;
    }
    count
}

/// Refuses to fit a normalization to no descriptor at all.
pub fn check_normalization_input(descriptor_count: usize) -> (r: Result<(), String>)
    ensures
        descriptor_count == 0 ==> r is Err && r->Err_0@
            == "descriptor normalization requires at least one vector"@,
        descriptor_count != 0 ==> r is Ok,
{
    if descriptor_count == 0 {
        return Err(String::from_str("descriptor normalization requires at least one vector"));
    }
    Ok(())
}

} // verus!
