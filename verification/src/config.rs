//! The configuration of the tool, its canonical defaults and its validation.
//!
//! Real-valued settings are held as the bit patterns of IEEE-754 single
//! precision numbers (`F32Bits`), which is exactly what the validation reads
//! of them: whether they are finite, and whether they lie in `0.0..=1.0`.

use vstd::prelude::*;
use crate::text::{push_decimal, push_text, spec_decimal as dec};

verus! {

/// An IEEE-754 single-precision number, held as its bit pattern
/// (`f32::to_bits`): sign bit 31, exponent bits 23 to 30, fraction bits 0 to 22.
#[derive(Debug, Clone, Copy)]
pub struct F32Bits {
    pub bits: u32,
}

impl F32Bits {
    /// The exponent field.
    pub open spec fn exponent(self) -> nat {
        ((self.bits as nat) / 0x80_0000) % 0x100
    }

    /// Finite numbers are those whose exponent field is not all ones
    /// (all ones encodes the infinities and NaN).
    pub open spec fn spec_is_finite(self) -> bool {
        self.exponent() != 0xff
    }

    /// Whether the number is finite (`f32::is_finite`).
    pub fn is_finite(&self) -> (r: bool)
        ensures
            r == self.spec_is_finite(),
    {
        (self.bits / 0x80_0000) % 0x100 != 0xff
    }

    /// The numbers `x` with `0.0 <= x <= 1.0`: the non-negative patterns up to
    /// that of `1.0` (`0x3F80_0000`), which order as their values do, and
    /// negative zero (`0x8000_0000`). NaN and every other negative pattern are out.
    pub open spec fn spec_in_unit_interval(self) -> bool {
        self.bits <= 0x3F80_0000 || self.bits == 0x8000_0000
    }

    /// The fraction field.
    pub open spec fn fraction(self) -> nat {
        (self.bits as nat) % 0x80_0000
    }

    /// NaN: exponent all ones and a non-zero fraction.
    pub open spec fn spec_is_nan(self) -> bool {
        self.exponent() == 0xff && self.fraction() != 0
    }

    /// The pattern without its sign bit.
    pub open spec fn magnitude(self) -> nat {
        (self.bits as nat) % 0x8000_0000
    }

    /// A key that orders the non-NaN numbers as their values: the magnitude,
    /// negated when the sign bit is set (so both zeros have key zero).
    pub open spec fn order_key(self) -> int {
        if self.bits >= 0x8000_0000 {
            -(self.magnitude() as int)
        } else {
            self.magnitude() as int
        }
    }

    /// IEEE-754 `<`: false whenever either side is NaN, else the order of values.
    pub open spec fn spec_lt(self, other: F32Bits) -> bool {
        !self.spec_is_nan() && !other.spec_is_nan() && self.order_key() < other.order_key()
    }

    /// Whether the number is NaN (`f32::is_nan`).
    pub fn is_nan(&self) -> (r: bool)
        ensures
            r == self.spec_is_nan(),
    {
        (self.bits / 0x80_0000) % 0x100 == 0xff && self.bits % 0x80_0000 != 0
    }

    /// `self < other` as `f32` compares them.
    pub fn lt(&self, other: &F32Bits) -> (r: bool)
        ensures
            r == self.spec_lt(*other),
    {
        if self.is_nan() || other.is_nan() {
            return false;
        }
        let a = self.bits % 0x8000_0000;
        let b = other.bits % 0x8000_0000;
        let a_negative = self.bits >= 0x8000_0000;
        let b_negative = other.bits >= 0x8000_0000;
        if a_negative {
            if b_negative {
                b < a
            } else {
                a != 0 || b != 0
            }
        } else {
            if b_negative {
                false
            } else {
                a < b
            }
        }
    }

    /// Whether `0.0 <= x && x <= 1.0`.
    pub fn in_unit_interval(&self) -> (r: bool)
        ensures
            r == self.spec_in_unit_interval(),
    {
        self.bits <= 0x3F80_0000 || self.bits == 0x8000_0000
    }
}

/// IEEE-754 equality: false whenever either side is NaN, and true for
/// `0.0` against `-0.0`, which is what `==` on `f32` computes.
pub open spec fn spec_f32_eq(a: F32Bits, b: F32Bits) -> bool {
    !a.spec_is_nan() && !b.spec_is_nan() && a.order_key() == b.order_key()
}

impl PartialEq for F32Bits {
    fn eq(&self, other: &Self) -> (r: bool) {
        if self.is_nan() || other.is_nan() {
            return false;
        }
        self.bits == other.bits || (self.bits % 0x8000_0000 == 0 && other.bits % 0x8000_0000 == 0)
    }
}

impl vstd::std_specs::cmp::PartialEqSpecImpl for F32Bits {
    open spec fn obeys_eq_spec() -> bool {
        true
    }

    open spec fn eq_spec(&self, other: &F32Bits) -> bool {
        spec_f32_eq(*self, *other)
    }
}

/// The bit pattern of `1.0`.
pub const ONE_BITS: u32 = 0x3F80_0000;

/// The bit pattern of `0.5`.
pub const HALF_BITS: u32 = 0x3F00_0000;

/// The bit pattern of `0.25`.
pub const QUARTER_BITS: u32 = 0x3E80_0000;

/// Per-grain gain adaptation after selection.
#[derive(Debug, Clone, Copy, PartialEq, Eq, Structural)]
pub enum GainAdaptationMode {
    Off,
    MatchTargetRms,
}

/// Carrier-envelope shaping of the reconstruction.
#[derive(Debug, Clone, Copy, PartialEq, Eq, Structural)]
pub enum EnvelopeAdaptationMode {
    Off,
    InheritCarrierRms,
}

/// Synthesis window.
#[derive(Debug, Clone, Copy, PartialEq, Eq, Structural)]
pub enum WindowKind {
    Hann,
}

/// Output rendering mode.
#[derive(Debug, Clone, Copy, PartialEq, Eq, Structural)]
pub enum RenderMode {
    Mono,
    Stereo,
    AmbisonicsReserved,
}

/// Overlap-add scheduling of synthesis.
#[derive(Debug, Clone, Copy, PartialEq, Eq, Structural)]
pub enum OverlapSchedule {
    Fixed,
    Alternating,
}

/// How a mono reconstruction is routed to stereo.
#[derive(Debug, Clone, Copy, PartialEq, Eq, Structural)]
pub enum StereoRouting {
    DuplicateMono,
}

/// Where post-convolution audio comes from.
#[derive(Debug, Clone, Copy, PartialEq, Eq, Structural)]
pub enum PostConvolutionSource {
    Target,
    AudioFile,
}

/// The name of a render mode.
pub open spec fn spec_render_mode_name(mode: RenderMode) -> Seq<char> {
    match mode {
        RenderMode::Mono => "mono"@,
        RenderMode::Stereo => "stereo"@,
        RenderMode::AmbisonicsReserved => "ambisonics-reserved"@,
    }
}

impl RenderMode {
    /// The name of the mode as configuration files write it.
    pub fn as_str(self) -> (r: &'static str)
        ensures
            r@ == spec_render_mode_name(self),
    {
        match self {
            RenderMode::Mono => "mono",
            RenderMode::Stereo => "stereo",
            RenderMode::AmbisonicsReserved => "ambisonics-reserved",
        }
    }
}

/// Corpus input and fixed-grid grain planning.
#[derive(Debug, Clone, PartialEq, Eq)]
pub struct CorpusConfig {
    pub root: String,
    pub grain_size_ms: u32,
    pub grain_hop_ms: u32,
    pub mono_only: bool,
}

/// Target input and analysis grid.
#[derive(Debug, Clone, PartialEq, Eq)]
pub struct TargetConfig {
    pub path: String,
    pub frame_size_ms: u32,
    pub hop_size_ms: u32,
}

/// Weights of the target and transition costs.
#[derive(Debug, Clone, Copy, PartialEq)]
pub struct MatchingConfig {
    pub alpha: F32Bits,
    pub beta: F32Bits,
    pub transition_descriptor_weight: F32Bits,
    pub transition_seek_weight: F32Bits,
    pub source_switch_penalty: F32Bits,
}

/// The micro-adaptation section of the configuration.
#[derive(Debug, Clone, Copy, PartialEq, Eq, Structural)]
pub struct MicroAdaptationConfig {
    pub gain: GainAdaptationMode,
    pub envelope: EnvelopeAdaptationMode,
}

/// Overlap-add windowing and scheduling.
#[derive(Debug, Clone, Copy, PartialEq, Eq, Structural)]
pub struct SynthesisConfig {
    pub window: WindowKind,
    pub output_hop_ms: u32,
    pub overlap_schedule: OverlapSchedule,
    pub irregularity_ms: u32,
}

/// Optional convolution after reconstruction.
#[derive(Debug, Clone, PartialEq)]
pub struct PostConvolutionConfig {
    pub enabled: bool,
    pub source: PostConvolutionSource,
    pub audio_path: String,
    pub dry_mix: F32Bits,
    pub wet_mix: F32Bits,
    pub normalize_output: bool,
}

/// Input of the reserved ambisonics mode.
#[derive(Debug, Clone, PartialEq, Eq)]
pub struct AmbisonicsConfig {
    pub positioning_json_path: String,
}

/// Output sample rate, routing and post-processing.
#[derive(Debug, Clone, PartialEq)]
pub struct RenderingConfig {
    pub output_sample_rate: u32,
    pub mode: RenderMode,
    pub stereo_routing: StereoRouting,
    pub post_convolution: PostConvolutionConfig,
    pub ambisonics: AmbisonicsConfig,
}

/// The whole configuration.
#[derive(Debug, Clone, PartialEq)]
pub struct AppConfig {
    pub corpus: CorpusConfig,
    pub target: TargetConfig,
    pub matching: MatchingConfig,
    pub micro_adaptation: MicroAdaptationConfig,
    pub synthesis: SynthesisConfig,
    pub rendering: RenderingConfig,
}

impl Default for CorpusConfig {
    fn default() -> (r: Self)
        ensures
            r.root@ == Seq::<char>::empty(),
            r.grain_size_ms == 100,
            r.grain_hop_ms == 50,
            r.mono_only,
    {
        CorpusConfig { root: String::new(), grain_size_ms: 100, grain_hop_ms: 50, mono_only: true }
    }
}

impl Default for TargetConfig {
    fn default() -> (r: Self)
        ensures
            r.path@ == Seq::<char>::empty(),
            r.frame_size_ms == 100,
            r.hop_size_ms == 50,
    {
        TargetConfig { path: String::new(), frame_size_ms: 100, hop_size_ms: 50 }
    }
}

impl Default for MatchingConfig {
    fn default() -> (r: Self)
        ensures
            r.alpha.bits == ONE_BITS,
            r.beta.bits == QUARTER_BITS,
            r.transition_descriptor_weight.bits == ONE_BITS,
            r.transition_seek_weight.bits == HALF_BITS,
            r.source_switch_penalty.bits == QUARTER_BITS,
    {
        MatchingConfig {
            alpha: F32Bits { bits: ONE_BITS },
            beta: F32Bits { bits: QUARTER_BITS },
            transition_descriptor_weight: F32Bits { bits: ONE_BITS },
            transition_seek_weight: F32Bits { bits: HALF_BITS },
            source_switch_penalty: F32Bits { bits: QUARTER_BITS },
        }
    }
}

impl Default for MicroAdaptationConfig {
    fn default() -> (r: Self)
        ensures
            r.gain == GainAdaptationMode::Off,
            r.envelope == EnvelopeAdaptationMode::Off,
    {
        MicroAdaptationConfig { gain: GainAdaptationMode::Off, envelope: EnvelopeAdaptationMode::Off }
    }
}

impl Default for SynthesisConfig {
    fn default() -> (r: Self)
        ensures
            r.window == WindowKind::Hann,
            r.output_hop_ms == 50,
            r.overlap_schedule == OverlapSchedule::Fixed,
            r.irregularity_ms == 0,
    {
        SynthesisConfig {
            window: WindowKind::Hann,
            output_hop_ms: 50,
            overlap_schedule: OverlapSchedule::Fixed,
            irregularity_ms: 0,
        }
    }
}

impl Default for PostConvolutionConfig {
    fn default() -> (r: Self)
        ensures
            !r.enabled,
            r.source == PostConvolutionSource::Target,
            r.audio_path@ == Seq::<char>::empty(),
            r.dry_mix.bits == ONE_BITS,
            r.wet_mix.bits == ONE_BITS,
            r.normalize_output,
    {
        PostConvolutionConfig {
            enabled: false,
            source: PostConvolutionSource::Target,
            audio_path: String::new(),
            dry_mix: F32Bits { bits: ONE_BITS },
            wet_mix: F32Bits { bits: ONE_BITS },
            normalize_output: true,
        }
    }
}

impl Default for AmbisonicsConfig {
    fn default() -> (r: Self)
        ensures
            r.positioning_json_path@ == Seq::<char>::empty(),
    {
        AmbisonicsConfig { positioning_json_path: String::new() }
    }
}

impl Default for RenderingConfig {
    fn default() -> (r: Self)
        ensures
            r.output_sample_rate == 48000,
            r.mode == RenderMode::Mono,
            r.stereo_routing == StereoRouting::DuplicateMono,
            !r.post_convolution.enabled,
            r.post_convolution.source == PostConvolutionSource::Target,
            r.post_convolution.audio_path@ == Seq::<char>::empty(),
            r.post_convolution.dry_mix.bits == ONE_BITS,
            r.post_convolution.wet_mix.bits == ONE_BITS,
            r.post_convolution.normalize_output,
            r.ambisonics.positioning_json_path@ == Seq::<char>::empty(),
    {
        RenderingConfig {
            output_sample_rate: 48000,
            mode: RenderMode::Mono,
            stereo_routing: StereoRouting::DuplicateMono,
            post_convolution: PostConvolutionConfig::default(),
            ambisonics: AmbisonicsConfig::default(),
        }
    }
}

/// The canonical default configuration, as `show-config` prints it.
pub open spec fn is_default_config(c: AppConfig) -> bool {
    &&& c.corpus.root@ == Seq::<char>::empty()
    &&& c.corpus.grain_size_ms == 100
    &&& c.corpus.grain_hop_ms == 50
    &&& c.corpus.mono_only
    &&& c.target.path@ == Seq::<char>::empty()
    &&& c.target.frame_size_ms == 100
    &&& c.target.hop_size_ms == 50
    &&& c.matching.alpha.bits == ONE_BITS
    &&& c.matching.beta.bits == QUARTER_BITS
    &&& c.matching.transition_descriptor_weight.bits == ONE_BITS
    &&& c.matching.transition_seek_weight.bits == HALF_BITS
    &&& c.matching.source_switch_penalty.bits == QUARTER_BITS
    &&& c.micro_adaptation.gain == GainAdaptationMode::Off
    &&& c.micro_adaptation.envelope == EnvelopeAdaptationMode::Off
    &&& c.synthesis.window == WindowKind::Hann
    &&& c.synthesis.output_hop_ms == 50
    &&& c.synthesis.overlap_schedule == OverlapSchedule::Fixed
    &&& c.synthesis.irregularity_ms == 0
    &&& c.rendering.output_sample_rate == 48000
    &&& c.rendering.mode == RenderMode::Mono
    &&& c.rendering.stereo_routing == StereoRouting::DuplicateMono
    &&& !c.rendering.post_convolution.enabled
    &&& c.rendering.post_convolution.source == PostConvolutionSource::Target
    &&& c.rendering.post_convolution.audio_path@ == Seq::<char>::empty()
    &&& c.rendering.post_convolution.dry_mix.bits == ONE_BITS
    &&& c.rendering.post_convolution.wet_mix.bits == ONE_BITS
    &&& c.rendering.post_convolution.normalize_output
    &&& c.rendering.ambisonics.positioning_json_path@ == Seq::<char>::empty()
}

impl Default for AppConfig {
    fn default() -> (r: Self)
        ensures
            is_default_config(r),
    {
        AppConfig {
            corpus: CorpusConfig::default(),
            target: TargetConfig::default(),
            matching: MatchingConfig::default(),
            micro_adaptation: MicroAdaptationConfig::default(),
            synthesis: SynthesisConfig::default(),
            rendering: RenderingConfig::default(),
        }
    }
}

/// Whether every matching weight is finite.
pub open spec fn weights_finite(m: MatchingConfig) -> bool {
    &&& m.alpha.spec_is_finite()
    &&& m.beta.spec_is_finite()
    &&& m.transition_descriptor_weight.spec_is_finite()
    &&& m.transition_seek_weight.spec_is_finite()
    &&& m.source_switch_penalty.spec_is_finite()
}

/// What validation reports: the first rule, in this order, that the
/// configuration breaks.
pub open spec fn spec_validate(c: AppConfig) -> Result<(), Seq<char>> {
    if c.corpus.grain_size_ms == 0 {
        Err("corpus grain_size_ms must be > 0"@)
    } else if c.corpus.grain_hop_ms == 0 {
        Err("corpus grain_hop_ms must be > 0"@)
    } else if c.target.frame_size_ms == 0 || c.target.hop_size_ms == 0 {
        Err("target frame_size_ms and hop_size_ms must be > 0"@)
    } else if !weights_finite(c.matching) {
        Err("matching weights must be finite"@)
    } else if c.synthesis.output_hop_ms == 0 {
        Err("synthesis output_hop_ms must be > 0"@)
    } else if c.rendering.output_sample_rate == 0 {
        Err("rendering output_sample_rate must be > 0"@)
    } else if c.synthesis.overlap_schedule == OverlapSchedule::Fixed && c.synthesis.irregularity_ms
        != 0 {
        Err("synthesis overlap_schedule fixed requires irregularity_ms = 0"@)
    } else if c.synthesis.overlap_schedule == OverlapSchedule::Alternating && !(0
        < c.synthesis.irregularity_ms < c.synthesis.output_hop_ms) {
        Err("synthesis overlap_schedule alternating requires 0 < irregularity_ms < output_hop_ms"@)
    } else if !c.rendering.post_convolution.dry_mix.spec_in_unit_interval()
        || !c.rendering.post_convolution.wet_mix.spec_in_unit_interval() {
        Err("post_convolution dry_mix and wet_mix must be within 0.0..=1.0"@)
    } else if c.rendering.post_convolution.enabled && c.rendering.post_convolution.source
        == PostConvolutionSource::AudioFile && c.rendering.post_convolution.audio_path@.len() == 0 {
        Err("post_convolution source audio-file requires a non-empty audio_path"@)
    } else {
        Ok(())
    }
}

fn error_text(s: &str) -> (r: Result<(), String>)
    ensures
        r is Err && r->Err_0@ == s@,
{
    Err(String::from_str(s))
}

impl AppConfig {
    /// Checks the structural and numeric rules of the configuration and
    /// reports the first one broken.
    pub fn validate(&self) -> (r: Result<(), String>)
        ensures
            match spec_validate(*self) {
                Ok(()) => r is Ok,
                Err(e) => r is Err && r->Err_0@ == e,
            },
    {
        if self.corpus.grain_size_ms == 0 {
            return error_text("corpus grain_size_ms must be > 0");
        }
        if self.corpus.grain_hop_ms == 0 {
            return error_text("corpus grain_hop_ms must be > 0");
        }
        if self.target.frame_size_ms == 0 || self.target.hop_size_ms == 0 {
            return error_text("target frame_size_ms and hop_size_ms must be > 0");
        }
        let m = &self.matching;
        if !m.alpha.is_finite() || !m.beta.is_finite() || !m.transition_descriptor_weight.is_finite()
            || !m.transition_seek_weight.is_finite() || !m.source_switch_penalty.is_finite() {
            return error_text("matching weights must be finite");
        }
        let s = &self.synthesis;
        if s.output_hop_ms == 0 {
            return error_text("synthesis output_hop_ms must be > 0");
        }
        if self.rendering.output_sample_rate == 0 {
            return error_text("rendering output_sample_rate must be > 0");
        }
        if s.overlap_schedule == OverlapSchedule::Fixed && s.irregularity_ms != 0 {
            return error_text("synthesis overlap_schedule fixed requires irregularity_ms = 0");
        }
        if s.overlap_schedule == OverlapSchedule::Alternating && !(0 < s.irregularity_ms
            && s.irregularity_ms < s.output_hop_ms) {
            return error_text(
                "synthesis overlap_schedule alternating requires 0 < irregularity_ms < output_hop_ms",
            );
        }
        let p = &self.rendering.post_convolution;
        if !p.dry_mix.in_unit_interval() || !p.wet_mix.in_unit_interval() {
            return error_text("post_convolution dry_mix and wet_mix must be within 0.0..=1.0");
        }
        if p.enabled && p.source == PostConvolutionSource::AudioFile && p.audio_path.as_str().unicode_len()
            == 0 {
            return error_text("post_convolution source audio-file requires a non-empty audio_path");
        }
        Ok(())
    }
}

/// A configuration passes validation exactly when every documented rule
/// holds: positive grain size and hop, positive target frame size and hop,
/// finite matching weights, a positive output hop and output sample rate, an
/// overlap schedule consistent with its irregularity, dry and wet mixes
/// within `0.0..=1.0`, and an audio path for enabled audio-file convolution.
pub proof fn lemma_valid_exactly_when_every_rule_holds(c: AppConfig)
    ensures
        spec_validate(c) is Ok <==> {
            &&& c.corpus.grain_size_ms > 0
            &&& c.corpus.grain_hop_ms > 0
            &&& c.target.frame_size_ms > 0
            &&& c.target.hop_size_ms > 0
            &&& c.matching.alpha.spec_is_finite()
            &&& c.matching.beta.spec_is_finite()
            &&& c.matching.transition_descriptor_weight.spec_is_finite()
            &&& c.matching.transition_seek_weight.spec_is_finite()
            &&& c.matching.source_switch_penalty.spec_is_finite()
            &&& c.synthesis.output_hop_ms > 0
            &&& c.rendering.output_sample_rate > 0
            &&& (c.synthesis.overlap_schedule == OverlapSchedule::Fixed
                ==> c.synthesis.irregularity_ms == 0)
            &&& (c.synthesis.overlap_schedule == OverlapSchedule::Alternating
                ==> 0 < c.synthesis.irregularity_ms && c.synthesis.irregularity_ms
                < c.synthesis.output_hop_ms)
            &&& c.rendering.post_convolution.dry_mix.spec_in_unit_interval()
            &&& c.rendering.post_convolution.wet_mix.spec_in_unit_interval()
            &&& (c.rendering.post_convolution.enabled && c.rendering.post_convolution.source
                == PostConvolutionSource::AudioFile
                ==> c.rendering.post_convolution.audio_path@.len() > 0)
        },
{
}

/// A zero target frame size or hop is refused with the target rule's message
/// once the corpus rules hold, whatever the rest of the configuration.
pub proof fn lemma_zero_target_frame_is_refused(c: AppConfig)
    requires
        c.corpus.grain_size_ms > 0,
        c.corpus.grain_hop_ms > 0,
        c.target.frame_size_ms == 0 || c.target.hop_size_ms == 0,
    ensures
        spec_validate(c) == Err::<(), Seq<char>>("target frame_size_ms and hop_size_ms must be > 0"@),
{
}

/// The canonical default configuration passes validation.
pub proof fn lemma_default_config_is_valid(c: AppConfig)
    requires
        is_default_config(c),
    ensures
        spec_validate(c) is Ok,
{
    assert(c.rendering.post_convolution.dry_mix.spec_in_unit_interval());
    let one = F32Bits { bits: ONE_BITS };
    assert(one.exponent() == 0x7f);
    let half = F32Bits { bits: HALF_BITS };
    assert(half.exponent() == 0x7e);
    let quarter = F32Bits { bits: QUARTER_BITS };
    assert(quarter.exponent() == 0x7d);
}

/// The one-line summary of a configuration that `validate-config` prints,
/// given the text of the two main matching weights (which the caller renders
/// as `f32` does).
pub fn config_summary(config: &AppConfig, alpha_text: &str, beta_text: &str) -> (r: String)
    ensures
        r@ == "corpus(grain="@ + dec(config.corpus.grain_size_ms as nat) + "ms hop="@ + dec(
            config.corpus.grain_hop_ms as nat,
        ) + "ms) target(frame="@ + dec(config.target.frame_size_ms as nat) + "ms hop="@ + dec(
            config.target.hop_size_ms as nat,
        ) + "ms) matching(alpha="@ + alpha_text@ + ", beta="@ + beta_text@ + ") rendering("@
            + spec_render_mode_name(config.rendering.mode) + ")"@,
{
    let mut m = String::from_str("corpus(grain=");
    push_decimal(&mut m, config.corpus.grain_size_ms as u128);
    push_text(&mut m, "ms hop=");
    push_decimal(&mut m, config.corpus.grain_hop_ms as u128);
    push_text(&mut m, "ms) target(frame=");
    push_decimal(&mut m, config.target.frame_size_ms as u128);
    push_text(&mut m, "ms hop=");
    push_decimal(&mut m, config.target.hop_size_ms as u128);
    push_text(&mut m, "ms) matching(alpha=");
    push_text(&mut m, alpha_text);
    push_text(&mut m, ", beta=");
    push_text(&mut m, beta_text);
    push_text(&mut m, ") rendering(");
    push_text(&mut m, config.rendering.mode.as_str());
    push_text(&mut m, ")");
    m
}

} // verus!
