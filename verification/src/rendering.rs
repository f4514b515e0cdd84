//! Output rendering decisions: the plan taken from the configuration and the
//! channel layout that each rendering mode writes.

use vstd::prelude::*;
use crate::config::{PostConvolutionConfig, PostConvolutionSource, RenderMode, RenderingConfig};
use crate::text::{push_decimal, spec_decimal, spec_trim, trim};

verus! {

/// The rendering mode in effect.
#[derive(Debug, Clone, Copy, PartialEq, Eq, Structural)]
pub struct RenderPlan {
    pub mode: RenderMode,
}

impl<'a> From<&'a RenderingConfig> for RenderPlan {
    fn from(config: &'a RenderingConfig) -> (r: Self) {
        RenderPlan { mode: config.mode }
    }
}

impl<'a> vstd::std_specs::convert::FromSpecImpl<&'a RenderingConfig> for RenderPlan {
    open spec fn obeys_from_spec() -> bool {
        true
    }

    open spec fn from_spec(config: &'a RenderingConfig) -> Self {
        RenderPlan { mode: config.mode }
    }
}

/// What writing a buffer of `channels` channels in `mode` yields: mono needs
/// one channel, stereo two, and the ambisonics mode does not render yet.
pub open spec fn spec_check_output_mode(mode: RenderMode, channels: u16) -> Result<(), Seq<char>> {
    match mode {
        RenderMode::Mono => if channels != 1 {
            Err("mono rendering requires 1 channel, found "@ + spec_decimal(channels as nat))
        } else {
            Ok(())
        },
        RenderMode::Stereo => if channels != 2 {
            Err("stereo rendering requires 2 channels, found "@ + spec_decimal(channels as nat))
        } else {
            Ok(())
        },
        RenderMode::AmbisonicsReserved => Err("ambisonics rendering is reserved for a later phase"@),
    }
}

/// Checks that a buffer fits the rendering mode before it is written.
pub fn check_output_mode(mode: RenderMode, channels: u16) -> (r: Result<(), String>)
    ensures
        match spec_check_output_mode(mode, channels) {
            Ok(()) => r is Ok,
            Err(e) => r is Err && r->Err_0@ == e,
        },
{
    match mode {
        RenderMode::Mono => {
            if channels != 1 {
                let mut m = String::from_str("mono rendering requires 1 channel, found ");
                push_decimal(&mut m, channels as u128);
                return Err(m);
            }
            Ok(())
        },
        RenderMode::Stereo => {
            if channels != 2 {
                let mut m = String::from_str("stereo rendering requires 2 channels, found ");
                push_decimal(&mut m, channels as u128);
                return Err(m);
            }
            Ok(())
        },
        RenderMode::AmbisonicsReserved => Err(
            String::from_str("ambisonics rendering is reserved for a later phase"),
        ),
    }
}

/// Where the audio of an enabled post-convolution is read from.
#[derive(Debug, Clone, PartialEq, Eq)]
pub enum ConvolutionInput {
    /// The original target file, as it was loaded.
    Target,
    /// A separate WAV file at this path.
    AudioFile(String),
}

/// The audio that post-convolution needs: none when it is disabled, the
/// original target, or the configured file with surrounding white space removed.
pub fn resolve_post_convolution_input(config: &PostConvolutionConfig) -> (r: Option<ConvolutionInput>)
    ensures
        !config.enabled ==> r is None,
        config.enabled && config.source == PostConvolutionSource::Target ==> r == Some(
            ConvolutionInput::Target,
        ),
        config.enabled && config.source == PostConvolutionSource::AudioFile ==> r is Some && r->Some_0
            is AudioFile && r->Some_0->AudioFile_0@ == spec_trim(config.audio_path@),
{
    if !config.enabled {
        return None;
    }
    match config.source {
        PostConvolutionSource::Target => Some(ConvolutionInput::Target),
        PostConvolutionSource::AudioFile => {
            let path = trim(config.audio_path.as_str());
            Some(ConvolutionInput::AudioFile(path.to_owned()))
        },
    }
}

} // verus!
