//! Why no complete prediction source could be selected for a loaded target.

use vstd::prelude::*;

verus! {

/// Bounded source-selection reason, safe for status and attribution.
#[derive(Clone, Copy, Debug, PartialEq, Eq, Structural)]
pub enum Qwen3_5MtpSourceUnavailableReason {
    ConfiguredDrafterNotDiscovered,
    StandaloneArtifactInvalid,
    PairingIncompatible,
}

} // verus!
