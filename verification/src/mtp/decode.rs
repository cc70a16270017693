use vstd::prelude::*;

use crate::mtp::depth::{MtpDepthDowngradeReason, MtpDraftDepth};
use crate::mtp::verification_decision::{
    downgrade_reason, feasible_draft_count, qwen3_5_mtp_effective_depth_and_reason_for_windows,
    qwen3_5_mtp_effective_depth_for_windows,
};

verus! {

/// The decode-window facts of one active request that bound an MTP attempt.
#[derive(Clone, Copy, Debug, PartialEq, Eq, Structural)]
pub struct MtpDecodeWindow {
    pub generated_token_count: u16,
    pub maximum_output_tokens: u16,
    pub next_position_tokens: u32,
    pub is_inside_thinking: bool,
    pub thinking_token_count: u16,
    pub thinking_budget: Option<u16>,
}

/// Returns whether a prediction window could cross the forced thinking boundary.
pub fn qwen3_5_mtp_verification_may_cross_thinking_budget(
    is_inside_thinking: bool,
    thinking_token_count: u16,
    thinking_budget: Option<u16>,
    possible_emitted_token_count: u16,
) -> (may_cross: bool)
    ensures
        may_cross == (is_inside_thinking && thinking_budget is Some && (if thinking_token_count
            + possible_emitted_token_count > u16::MAX {
            u16::MAX as int
        } else {
            thinking_token_count + possible_emitted_token_count
        }) >= thinking_budget->0),
{
    if !is_inside_thinking {
        return false;
    }
    match thinking_budget {
        Some(budget) => thinking_token_count.saturating_add(possible_emitted_token_count) >= budget,
        None => false,
    }
}

/// Preserves the depth-one contract for direct runtime callers: one draft plus the
/// target's correction must fit both the output and the context window.
pub fn qwen3_5_depth_one_mtp_window_fits(
    generated_token_count: u16,
    maximum_output_tokens: u16,
    next_position_tokens: u32,
    maximum_position_count: usize,
) -> (fits: bool)
    ensures
        fits == (generated_token_count + 2 <= maximum_output_tokens && next_position_tokens + 2
            <= maximum_position_count),
{
    let depth = qwen3_5_mtp_effective_depth_for_windows(
        MtpDraftDepth::depth_one(),
        generated_token_count,
        maximum_output_tokens,
        next_position_tokens,
        maximum_position_count,
        false,
        0,
        None,
    );
    depth.is_some()
}

/// Effective depth for the next attempt of a request: nothing without an open
/// prediction session (`requested_depth`) or without a target hidden seed.
pub fn effective_prediction_depth(
    requested_depth: Option<MtpDraftDepth>,
    has_target_hidden_states: bool,
    window: MtpDecodeWindow,
    maximum_position_count: usize,
) -> (result: (Option<MtpDraftDepth>, Option<MtpDepthDowngradeReason>))
    ensures
        (requested_depth is None || !has_target_hidden_states) ==> result == (
        None::<MtpDraftDepth>,
        None::<MtpDepthDowngradeReason>,
        ),
        (requested_depth is Some && has_target_hidden_states) ==> ({
            let feasible = feasible_draft_count(
                requested_depth->0@,
                window.generated_token_count,
                window.maximum_output_tokens,
                window.next_position_tokens,
                maximum_position_count,
                window.is_inside_thinking,
                window.thinking_token_count,
                window.thinking_budget,
            );
            &&& feasible >= 1 ==> (result.0 matches Some(depth) && depth@ == feasible)
            &&& feasible < 1 ==> result.0 is None
            &&& result.1 == downgrade_reason(
                requested_depth->0@,
                window.generated_token_count,
                window.maximum_output_tokens,
                window.next_position_tokens,
                maximum_position_count,
                window.is_inside_thinking,
                window.thinking_token_count,
                window.thinking_budget,
            )
        }),
{
    let requested_depth = match requested_depth {
        Some(depth) => depth,
        None => {
            return (None, None);
        },
    };
    if !has_target_hidden_states {
        return (None, None);
    }
    qwen3_5_mtp_effective_depth_and_reason_for_windows(
        requested_depth,
        window.generated_token_count,
        window.maximum_output_tokens,
        window.next_position_tokens,
        maximum_position_count,
        window.is_inside_thinking,
        window.thinking_token_count,
        window.thinking_budget,
    )
}

} // verus!
