//! Integer layout of audio buffers: validation of interleaved sample layouts,
//! the choice of mono downmix, the sample-format checks of WAV input, and the
//! linear-interpolation plan of the resampler. The samples themselves are
//! floating point and are handled by the application around the library.

use vstd::prelude::*;
use crate::text::{push_decimal, push_text, spec_decimal as dec};

verus! {

/// The result of checking an interleaved buffer's layout.
pub open spec fn spec_validate_layout(sample_rate: u32, channels: u16, sample_count: usize) -> Result<(), Seq<char>> {
    if sample_rate == 0 {
        Err("audio sample_rate must be > 0"@)
    } else if channels == 0 {
        Err("audio channels must be > 0"@)
    } else if sample_count % (channels as usize) != 0 {
        Err("audio samples must align with channel count"@)
    } else {
        Ok(())
    }
}

/// Checks the layout of an interleaved buffer: a positive sample rate, at
/// least one channel, and a sample count that is a whole number of frames.
pub fn validate_layout(sample_rate: u32, channels: u16, sample_count: usize) -> (r: Result<(), String>)
    ensures
        match spec_validate_layout(sample_rate, channels, sample_count) {
            Ok(()) => r is Ok,
            Err(e) => r is Err && r->Err_0@ == e,
        },
{
    if sample_rate == 0 {
        return Err(String::from_str("audio sample_rate must be > 0"));
    }
    if channels == 0 {
        return Err(String::from_str("audio channels must be > 0"));
    }
    if sample_count % (channels as usize) != 0 {
        return Err(String::from_str("audio samples must align with channel count"));
    }
    Ok(())
}

/// The number of frames of an interleaved buffer.
pub fn frame_count(sample_count: usize, channels: u16) -> (r: usize)
    requires
        channels > 0,
    ensures
        r == sample_count / (channels as usize),
{
    sample_count / (channels as usize)
}

/// How a buffer becomes mono.
#[derive(Debug, Clone, Copy, PartialEq, Eq, Structural)]
pub enum DownmixKind {
    /// The buffer is mono already and is kept as it is.
    Keep,
    /// Each stereo frame becomes the mean of its two samples.
    StereoMean,
}

/// The downmix that a channel count calls for.
pub open spec fn spec_downmix_kind(channels: u16) -> Result<DownmixKind, Seq<char>> {
    if channels == 1 {
        Ok(DownmixKind::Keep)
    } else if channels == 2 {
        Ok(DownmixKind::StereoMean)
    } else {
        Err("corpus mono downmix supports only mono or stereo WAV input, found "@ + dec(
            channels as nat,
        ) + " channels"@)
    }
}

/// Chooses the mono downmix of corpus audio: mono is kept, stereo is averaged
/// frame by frame, and wider layouts are refused.
pub fn downmix_kind(channels: u16) -> (r: Result<DownmixKind, String>)
    ensures
        match spec_downmix_kind(channels) {
            Ok(k) => r == Ok::<DownmixKind, String>(k),
            Err(e) => r is Err && r->Err_0@ == e,
        },
{
    if channels == 1 {
        Ok(DownmixKind::Keep)
    } else if channels == 2 {
        Ok(DownmixKind::StereoMean)
    } else {
        let mut m = String::from_str(
            "corpus mono downmix supports only mono or stereo WAV input, found ",
        );
        push_decimal(&mut m, channels as u128);
        push_text(&mut m, " channels");
        Err(m)
    }
}

/// Refuses a buffer that is not mono.
pub fn check_mono_channels(channels: u16) -> (r: Result<(), String>)
    ensures
        channels == 1 ==> r is Ok,
        channels != 1 ==> r is Err && r->Err_0@ == "expected mono WAV input, found "@ + dec(
            channels as nat,
        ) + " channels"@,
{
    if channels == 1 {
        Ok(())
    } else {
        let mut m = String::from_str("expected mono WAV input, found ");
        push_decimal(&mut m, channels as u128);
        push_text(&mut m, " channels");
        Err(m)
    }
}

/// The result of checking a buffer before it is written as WAV.
pub open spec fn spec_check_wav_writer_layout(sample_rate: u32, channels: u16, sample_count: usize) -> Result<(), Seq<char>> {
    match spec_validate_layout(sample_rate, channels, sample_count) {
        Err(e) => Err(e),
        Ok(()) => if channels != 1 && channels != 2 {
            Err("WAV writer supports only mono or stereo output, found "@ + dec(channels as nat)
                + " channels"@)
        } else {
            Ok(())
        },
    }
}

/// Checks a buffer before it is written as WAV: a valid layout of one or two channels.
pub fn check_wav_writer_layout(sample_rate: u32, channels: u16, sample_count: usize) -> (r: Result<(), String>)
    ensures
        match spec_check_wav_writer_layout(sample_rate, channels, sample_count) {
            Ok(()) => r is Ok,
            Err(e) => r is Err && r->Err_0@ == e,
        },
{
    validate_layout(sample_rate, channels, sample_count)?;
    if channels != 1 && channels != 2 {
        let mut m = String::from_str("WAV writer supports only mono or stereo output, found ");
        push_decimal(&mut m, channels as u128);
        push_text(&mut m, " channels");
        return Err(m);
    }
    Ok(())
}

/// The writer accepts a buffer exactly when its sample rate is positive, it
/// has one or two channels, and its samples make whole frames: every valid
/// mono or stereo buffer is written, and no wider layout is.
pub proof fn lemma_writer_accepts_exactly_mono_and_stereo(
    sample_rate: u32,
    channels: u16,
    sample_count: usize,
)
    ensures
        spec_check_wav_writer_layout(sample_rate, channels, sample_count) is Ok <==> {
            &&& sample_rate > 0
            &&& (channels == 1 || channels == 2)
            &&& sample_count % (channels as usize) == 0
        },
{
}

/// Two to the power `n`.
pub open spec fn spec_pow2(n: nat) -> nat
    decreases n,
{
    if n == 0 {
        1
    } else {
        2 * spec_pow2((n - 1) as nat)
    }
}

/// The result of checking an integer PCM sample width; on success the
/// full-scale value by which samples are divided, `2^(bits-1) - 1`.
pub open spec fn spec_int_sample_scale(path: Seq<char>, bits: u16) -> Result<nat, Seq<char>> {
    if bits == 0 || bits > 32 {
        Err("unsupported integer WAV `"@ + path + "`: found "@ + dec(bits as nat) + "-bit PCM"@)
    } else if bits == 8 {
        Err("unsupported integer WAV `"@ + path + "`: 8-bit PCM is not enabled in phase 01"@)
    } else {
        Ok((spec_pow2((bits - 1) as nat) - 1) as nat)
    }
}

/// Checks the sample width of integer PCM input and gives its full-scale value.
pub fn int_sample_scale(path: &str, bits: u16) -> (r: Result<u64, String>)
    ensures
        match spec_int_sample_scale(path@, bits) {
            Ok(v) => r is Ok && r->Ok_0 == v,
            Err(e) => r is Err && r->Err_0@ == e,
        },
{
    if bits == 0 || bits > 32 {
        let mut m = String::from_str("unsupported integer WAV `");
        push_text(&mut m, path);
        push_text(&mut m, "`: found ");
        push_decimal(&mut m, bits as u128);
        push_text(&mut m, "-bit PCM");
        return Err(m);
    }
    if bits == 8 {
        let mut m = String::from_str("unsupported integer WAV `");
        push_text(&mut m, path);
        push_text(&mut m, "`: 8-bit PCM is not enabled in phase 01");
        return Err(m);
    }
    let mut p: u64 = 1;
    let mut k: u16 = 0;
    proof {
        lemma_pow2_bound(0);
    }
    while k < bits - 1
        invariant
            1 <= bits <= 32,
            k <= bits - 1,
            p == spec_pow2(k as nat),
            1 <= p <= 0x8000_0000,
        decreases bits - 1 - k,
    {
        assert(spec_pow2((k + 1) as nat) == 2 * spec_pow2(k as nat));
        proof {
            lemma_pow2_bound((k + 1) as nat);
        }
        p = p * 2;
        k = k + 1;
    }
    Ok(p - 1)
}

proof fn lemma_pow2_monotone(a: nat, b: nat)
    requires
        a <= b,
    ensures
        1 <= spec_pow2(a) <= spec_pow2(b),
    decreases b,
{
    if b > a {
        lemma_pow2_monotone(a, (b - 1) as nat);
    } else if a > 0 {
        lemma_pow2_monotone(0, (a - 1) as nat);
    }
}

proof fn lemma_pow2_bound(n: nat)
    requires
        n <= 31,
    ensures
        1 <= spec_pow2(n) <= 0x8000_0000,
{
    reveal_with_fuel(spec_pow2, 33);
    assert(spec_pow2(31) == 0x8000_0000);
    lemma_pow2_monotone(n, 31);
}

/// Checks the sample width of floating-point input, which must be 32 bits.
pub fn check_float_sample_bits(path: &str, bits: u16) -> (r: Result<(), String>)
    ensures
        bits == 32 ==> r is Ok,
        bits != 32 ==> r is Err && r->Err_0@ == "unsupported float WAV `"@ + path@
            + "`: expected 32-bit float, found "@ + dec(bits as nat) + "-bit"@,
{
    if bits == 32 {
        Ok(())
    } else {
        let mut m = String::from_str("unsupported float WAV `");
        push_text(&mut m, path);
        push_text(&mut m, "`: expected 32-bit float, found ");
        push_decimal(&mut m, bits as u128);
        push_text(&mut m, "-bit");
        Err(m)
    }
}

/// Checks the sample rate of a mono buffer.
pub fn check_mono_sample_rate(sample_rate: u32) -> (r: Result<(), String>)
    ensures
        sample_rate == 0 ==> r is Err && r->Err_0@ == "mono sample_rate must be > 0"@,
        sample_rate != 0 ==> r is Ok,
{
    if sample_rate == 0 {
        return Err(String::from_str("mono sample_rate must be > 0"));
    }
    Ok(())
}

/// What resampling to a rate has to do.
#[derive(Debug, Clone, Copy, PartialEq, Eq, Structural)]
pub enum ResampleRequest {
    /// The buffer already has the rate and is returned as it is.
    Unchanged,
    /// The buffer is interpolated to the new rate.
    Interpolate,
}

/// Decides a resampling: nothing to do at the buffer's own rate, and a zero
/// target rate is refused (with the message of a mono or of an interleaved
/// buffer).
pub fn resample_request(input_rate: u32, output_rate: u32, mono: bool) -> (r: Result<ResampleRequest, String>)
    ensures
        output_rate == input_rate ==> r == Ok::<ResampleRequest, String>(ResampleRequest::Unchanged),
        output_rate != input_rate && output_rate == 0 && mono ==> r is Err && r->Err_0@
            == "mono resample output_sample_rate must be > 0"@,
        output_rate != input_rate && output_rate == 0 && !mono ==> r is Err && r->Err_0@
            == "audio resample output_sample_rate must be > 0"@,
        output_rate != input_rate && output_rate != 0 ==> r == Ok::<ResampleRequest, String>(
            ResampleRequest::Interpolate,
        ),
{
    if output_rate == input_rate {
        return Ok(ResampleRequest::Unchanged);
    }
    if output_rate == 0 {
        if mono {
            return Err(String::from_str("mono resample output_sample_rate must be > 0"));
        }
        return Err(String::from_str("audio resample output_sample_rate must be > 0"));
    }
    Ok(ResampleRequest::Interpolate)
}

/// How one output frame of the resampler is made from the input frames.
#[derive(Debug, Clone, Copy, PartialEq, Eq, Structural)]
pub enum ResampleTap {
    /// The output frame is a copy of input frame `frame`.
    Copy { frame: usize },
    /// The output frame is `x[frame] + (x[frame + 1] - x[frame]) * fraction_numerator / output_rate`.
    Blend { frame: usize, fraction_numerator: u64 },
}

/// The number of output frames: the input length scaled by the rate ratio and
/// rounded half up, at least one for a non-empty input.
pub open spec fn spec_output_frames(input_frames: nat, input_rate: nat, output_rate: nat) -> nat {
    if input_frames == 0 {
        0
    } else {
        let n = (input_frames * output_rate + input_rate / 2) / input_rate;
        if n == 0 {
            1
        } else {
            n
        }
    }
}

/// The tap of output frame `o`: its position `o * input_rate / output_rate` on
/// the input timeline, copied from the last frame when it lies at or past it.
pub open spec fn spec_tap(o: nat, input_frames: nat, input_rate: nat, output_rate: nat) -> ResampleTap {
    let position = o * input_rate;
    let index = position / output_rate;
    if index >= input_frames - 1 {
        ResampleTap::Copy { frame: (input_frames - 1) as usize }
    } else {
        ResampleTap::Blend { frame: index as usize, fraction_numerator: (position % output_rate) as u64 }
    }
}

/// The linear-interpolation plan that turns `input_frames` frames at
/// `input_rate` into frames at `output_rate`, one tap per output frame.
pub fn resample_plan(input_frames: usize, input_rate: u32, output_rate: u32) -> (r: Vec<ResampleTap>)
    requires
        input_rate > 0,
        output_rate > 0,
        input_frames * output_rate + input_rate / 2 <= u64::MAX,
    ensures
        r@.len() == spec_output_frames(input_frames as nat, input_rate as nat, output_rate as nat),
        forall|o: int|
            0 <= o < r@.len() ==> #[trigger] r@[o] == spec_tap(
                o as nat,
                input_frames as nat,
                input_rate as nat,
                output_rate as nat,
            ),
{
    let mut taps: Vec<ResampleTap> = Vec::new();
    if input_frames == 0 {
        return taps;
    }
    let total: u64 = input_frames as u64 * output_rate as u64 + (input_rate as u64) / 2;
    let rounded: u64 = total / (input_rate as u64);
    let output_frames: u64 = if rounded == 0 {
        1
    } else {
        rounded
    };
    proof {
        lemma_positions_fit(input_frames as nat, input_rate as nat, output_rate as nat);
    }
    let mut o: u64 = 0;
    while o < output_frames
        invariant
            input_frames > 0,
            input_rate > 0,
            output_rate > 0,
            output_frames == spec_output_frames(input_frames as nat, input_rate as nat, output_rate as nat),
            (output_frames - 1) * input_rate <= u64::MAX,
            o <= output_frames,
            taps@.len() == o,
            forall|k: int|
                0 <= k < o ==> #[trigger] taps@[k] == spec_tap(
                    k as nat,
                    input_frames as nat,
                    input_rate as nat,
                    output_rate as nat,
                ),
        decreases output_frames - o,
    {
        proof {
            lemma_mul_le(o as nat, (output_frames - 1) as nat, input_rate as nat);
        }
        let position: u64 = o * (input_rate as u64);
        let index: u64 = position / (output_rate as u64);
        let last: u64 = (input_frames - 1) as u64;
        if index >= last {
            taps.push(ResampleTap::Copy { frame: input_frames - 1 });
        } else {
            taps.push(
                ResampleTap::Blend {
                    frame: index as usize,
                    fraction_numerator: position % (output_rate as u64),
                },
            );
        }
        o = o + 1;
    }
    taps
}

proof fn lemma_mul_le(a: nat, b: nat, c: nat)
    requires
        a <= b,
    ensures
        a * c <= b * c,
{
    assert(a * c <= b * c) by (nonlinear_arith)
        requires
            a <= b,
    ;
}

proof fn lemma_positions_fit(f: nat, ir: nat, outr: nat)
    requires
        f > 0,
        ir > 0,
        f * outr + ir / 2 <= u64::MAX,
    ensures
        (spec_output_frames(f, ir, outr) - 1) * ir <= u64::MAX,
{
    let t = f * outr + ir / 2;
    let n = t / ir;
    assert(n * ir <= t) by (nonlinear_arith)
        requires
            n == t / ir,
            ir > 0,
            t >= 0,
    ;
    if n == 0 {
        assert((spec_output_frames(f, ir, outr) - 1) * ir == 0);
    } else {
        lemma_mul_le((n - 1) as nat, n, ir);
    }
}

/// Every tap reads inside the input: the copied or blended frame exists, the
/// frame after a blended one exists, and a blend's fraction is below one.
pub proof fn lemma_taps_read_inside_input(o: nat, input_frames: nat, input_rate: nat, output_rate: nat)
    requires
        0 < input_frames <= usize::MAX,
        0 < output_rate <= u32::MAX,
    ensures
        match spec_tap(o, input_frames, input_rate, output_rate) {
            ResampleTap::Copy { frame } => frame as nat == input_frames - 1,
            ResampleTap::Blend { frame, fraction_numerator } => frame + 1 < input_frames
                && fraction_numerator < output_rate,
        },
{
}

/// Resampling at the rate that the input already has keeps every frame: the
/// output has as many frames as the input, and output frame `o` is input
/// frame `o` (a blend with fraction zero, or a copy of the last frame).
pub proof fn lemma_same_rate_keeps_frames(o: nat, input_frames: nat, rate: nat)
    requires
        rate > 0,
        o < input_frames,
    ensures
        spec_output_frames(input_frames, rate, rate) == input_frames,
        spec_tap(o, input_frames, rate, rate) == (if o + 1 == input_frames {
            ResampleTap::Copy { frame: o as usize }
        } else {
            ResampleTap::Blend { frame: o as usize, fraction_numerator: 0 }
        }),
{
    let t = input_frames * rate + rate / 2;
    assert(t / rate == input_frames) by (nonlinear_arith)
        requires
            t == input_frames * rate + rate / 2,
            rate > 0,
    ;
    assert((o * rate) / rate == o && (o * rate) % rate == 0) by (nonlinear_arith)
        requires
            rate > 0,
    ;
}

} // verus!
