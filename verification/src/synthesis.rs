//! The synthesis plan taken from the configuration.

use vstd::prelude::*;
use crate::config::{SynthesisConfig, WindowKind};

verus! {

/// The window and output hop of overlap-add synthesis.
#[derive(Debug, Clone, Copy, PartialEq, Eq, Structural)]
pub struct SynthesisPlan {
    pub window: WindowKind,
    pub output_hop_ms: u32,
}

impl<'a> From<&'a SynthesisConfig> for SynthesisPlan {
    fn from(config: &'a SynthesisConfig) -> (r: Self) {
        SynthesisPlan { window: config.window, output_hop_ms: config.output_hop_ms }
    }
}

impl<'a> vstd::std_specs::convert::FromSpecImpl<&'a SynthesisConfig> for SynthesisPlan {
    open spec fn obeys_from_spec() -> bool {
        true
    }

    open spec fn from_spec(config: &'a SynthesisConfig) -> Self {
        SynthesisPlan { window: config.window, output_hop_ms: config.output_hop_ms }
    }
}

} // verus!
