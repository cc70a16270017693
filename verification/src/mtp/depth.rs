use vstd::prelude::*;

verus! {

/// Number of tokens one MTP proposal chain drafts before target verification.
///
/// A draft depth is never zero: a window always proposes at least one draft.
#[derive(Clone, Copy, Debug, PartialEq, Eq, Structural, PartialOrd, Ord, Hash)]
pub struct MtpDraftDepth {
    depth: u8,
}

/// Rejected draft-depth construction.
#[derive(Clone, Copy, Debug, PartialEq, Eq, Structural)]
pub enum MtpDraftDepthError {
    /// A zero-token window drafts nothing.
    Zero,
}

/// First user-visible window that limited a requested depth.
#[derive(Clone, Copy, Debug, PartialEq, Eq, Structural)]
pub enum MtpDepthDowngradeReason {
    OutputWindow,
    ContextWindow,
    ThinkingWindow,
}

impl View for MtpDraftDepth {
    type V = u8;

    closed spec fn view(&self) -> u8 {
        self.depth
    }
}

impl MtpDraftDepth {
    #[verifier::type_invariant]
    spec fn depth_is_positive(self) -> bool {
        self.depth >= 1
    }

    /// The automatic production baseline: one draft per window.
    pub fn depth_one() -> (depth: Self)
        ensures
            depth@ == 1,
    {
        MtpDraftDepth { depth: 1 }
    }

    /// Validates a draft depth.
    pub fn new(depth: u8) -> (result: Result<Self, MtpDraftDepthError>)
        ensures
            depth == 0 ==> result == Err::<Self, MtpDraftDepthError>(MtpDraftDepthError::Zero),
            depth != 0 ==> (result matches Ok(d) && d@ == depth),
    {
        if depth == 0 {
            Err(MtpDraftDepthError::Zero)
        } else {
            Ok(MtpDraftDepth { depth })
        }
    }

    /// Returns the number of drafts.
    pub fn get(&self) -> (depth: u8)
        ensures
            depth == self@,
            depth >= 1,
    {
        proof {
            use_type_invariant(self);
        }
        self.depth
    }
}

} // verus!
