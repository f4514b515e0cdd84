//! The target plan taken from the configuration and the check on the target
//! path before it is read.

use vstd::prelude::*;
use crate::config::TargetConfig;

verus! {

/// The analysis grid of the target.
#[derive(Debug, Clone, Copy, PartialEq, Eq, Structural)]
pub struct TargetPlan {
    pub frame_size_ms: u32,
    pub hop_size_ms: u32,
}

impl<'a> From<&'a TargetConfig> for TargetPlan {
    fn from(config: &'a TargetConfig) -> (r: Self) {
        TargetPlan { frame_size_ms: config.frame_size_ms, hop_size_ms: config.hop_size_ms }
    }
}

impl<'a> vstd::std_specs::convert::FromSpecImpl<&'a TargetConfig> for TargetPlan {
    open spec fn obeys_from_spec() -> bool {
        true
    }

    open spec fn from_spec(config: &'a TargetConfig) -> Self {
        TargetPlan { frame_size_ms: config.frame_size_ms, hop_size_ms: config.hop_size_ms }
    }
}

/// Refuses an empty target path before the target is read.
pub fn check_target_path(path: &str) -> (r: Result<(), String>)
    ensures
        path@.len() == 0 ==> r is Err && r->Err_0@ == "target path must not be empty"@,
        path@.len() != 0 ==> r is Ok,
{
    if path.unicode_len() == 0 {
        return Err(String::from_str("target path must not be empty"));
    }
    Ok(())
}

} // verus!
