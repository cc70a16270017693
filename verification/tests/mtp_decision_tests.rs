use model_serving::mtp::decode::{
    effective_prediction_depth, qwen3_5_depth_one_mtp_window_fits,
    qwen3_5_mtp_verification_may_cross_thinking_budget, MtpDecodeWindow,
};
use model_serving::mtp::depth::{MtpDepthDowngradeReason, MtpDraftDepth, MtpDraftDepthError};
use model_serving::mtp::verification_decision::{
    qwen3_5_mtp_effective_depth_and_reason_for_windows, qwen3_5_mtp_effective_depth_for_windows,
    qwen3_5_mtp_sampled_verification_decision, qwen3_5_mtp_verification_decision,
    MtpVerificationDecision, MtpVerificationDecisionError,
};

fn depth(value: u8) -> MtpDraftDepth {
    MtpDraftDepth::new(value).expect("positive depth")
}

fn summary(decision: &MtpVerificationDecision) -> (u8, u8, u8, Option<u32>, bool, bool) {
    (
        decision.effective_depth().get(),
        decision.proposed_count(),
        decision.accepted_count(),
        decision.pending_target_token_id(),
        decision.was_eos_truncated(),
        decision.is_operational_fallback(),
    )
}

#[test]
fn draft_depth_is_never_zero() {
    assert_eq!(MtpDraftDepth::new(0), Err(MtpDraftDepthError::Zero));
    assert_eq!(MtpDraftDepth::new(3).map(|d| d.get()), Ok(3));
    assert_eq!(MtpDraftDepth::depth_one().get(), 1);
    assert_eq!(MtpDraftDepth::new(255).map(|d| d.get()), Ok(255));
}

#[test]
fn greedy_verification_accepts_the_matching_prefix_and_queues_the_correction() {
    let decision = qwen3_5_mtp_verification_decision(depth(3), &[10, 11, 12], &[10, 11, 99, 7], &[])
        .expect("matching lengths");
    assert_eq!(summary(&decision), (3, 3, 2, Some(99), false, false));
}

#[test]
fn greedy_verification_with_every_draft_accepted_yields_a_bonus_token() {
    let decision = qwen3_5_mtp_verification_decision(depth(2), &[10, 11], &[10, 11, 42], &[2])
        .expect("matching lengths");
    assert_eq!(summary(&decision), (2, 2, 2, Some(42), false, false));
}

#[test]
fn greedy_verification_rejecting_the_first_draft_keeps_the_target_token() {
    let decision = qwen3_5_mtp_verification_decision(depth(2), &[10, 11], &[5, 11, 42], &[])
        .expect("matching lengths");
    assert_eq!(summary(&decision), (2, 2, 0, Some(5), false, false));
}

#[test]
fn greedy_verification_truncates_at_the_first_accepted_end_of_sequence() {
    let decision = qwen3_5_mtp_verification_decision(depth(3), &[10, 2, 12], &[10, 2, 12, 7], &[2, 3])
        .expect("matching lengths");
    assert_eq!(summary(&decision), (3, 3, 2, None, true, false));
}

#[test]
fn end_of_sequence_after_the_accepted_prefix_does_not_truncate() {
    let decision = qwen3_5_mtp_verification_decision(depth(2), &[10, 2], &[10, 5, 7], &[2])
        .expect("matching lengths");
    assert_eq!(summary(&decision), (2, 2, 1, Some(5), false, false));
}

#[test]
fn greedy_verification_rejects_mismatched_vectors() {
    assert_eq!(
        qwen3_5_mtp_verification_decision(depth(2), &[10], &[10, 11, 12], &[]),
        Err(MtpVerificationDecisionError::VectorLengthMismatch)
    );
    assert_eq!(
        qwen3_5_mtp_verification_decision(depth(2), &[10, 11], &[10, 11], &[]),
        Err(MtpVerificationDecisionError::VectorLengthMismatch)
    );
}

#[test]
fn sampled_verification_accepts_the_leading_true_coins() {
    let decision = qwen3_5_mtp_sampled_verification_decision(
        depth(3),
        &[10, 11, 12],
        &[true, false, true],
        Some(77),
        &[],
    )
    .expect("matching lengths");
    assert_eq!(summary(&decision), (3, 3, 1, Some(77), false, false));
}

#[test]
fn sampled_verification_truncates_at_an_accepted_end_of_sequence() {
    let decision = qwen3_5_mtp_sampled_verification_decision(
        depth(3),
        &[2, 11, 12],
        &[true, true, true],
        Some(77),
        &[2],
    )
    .expect("matching lengths");
    assert_eq!(summary(&decision), (3, 3, 1, None, true, false));
}

#[test]
fn sampled_verification_rejects_each_problem() {
    assert_eq!(
        qwen3_5_mtp_sampled_verification_decision(depth(2), &[10, 11], &[true], Some(1), &[]),
        Err(MtpVerificationDecisionError::VectorLengthMismatch)
    );
    assert_eq!(
        qwen3_5_mtp_sampled_verification_decision(depth(2), &[10, 11], &[true, true], None, &[]),
        Err(MtpVerificationDecisionError::MissingPostPrefixToken)
    );
}

#[test]
fn sampled_verification_mirrors_greedy_when_coins_match_tokens() {
    let draft = [10, 11, 12];
    let target = [10, 11, 50, 60];
    let coins: Vec<bool> = draft.iter().zip(target.iter()).map(|(d, t)| d == t).collect();
    let greedy = qwen3_5_mtp_verification_decision(depth(3), &draft, &target, &[]).expect("greedy");
    let sampled =
        qwen3_5_mtp_sampled_verification_decision(depth(3), &draft, &coins, Some(50), &[]).expect("sampled");
    assert_eq!(greedy, sampled);
}

#[test]
fn operational_fallback_records_nothing_proposed() {
    let decision = MtpVerificationDecision::operational_fallback(depth(2));
    assert_eq!(summary(&decision), (2, 0, 0, None, false, true));
}

#[test]
fn effective_depth_keeps_the_request_when_every_window_fits() {
    assert_eq!(
        qwen3_5_mtp_effective_depth_and_reason_for_windows(depth(3), 0, 100, 0, 1000, false, 0, None),
        (Some(depth(3)), None)
    );
}

#[test]
fn effective_depth_is_limited_by_the_output_window_first() {
    assert_eq!(
        qwen3_5_mtp_effective_depth_and_reason_for_windows(depth(3), 97, 100, 0, 1000, false, 0, None),
        (Some(depth(2)), Some(MtpDepthDowngradeReason::OutputWindow))
    );
}

#[test]
fn effective_depth_is_limited_by_the_context_window() {
    assert_eq!(
        qwen3_5_mtp_effective_depth_and_reason_for_windows(depth(3), 0, 100, 998, 1000, false, 0, None),
        (Some(depth(1)), Some(MtpDepthDowngradeReason::ContextWindow))
    );
}

#[test]
fn effective_depth_is_limited_by_the_thinking_budget() {
    assert_eq!(
        qwen3_5_mtp_effective_depth_and_reason_for_windows(depth(3), 0, 100, 0, 1000, true, 8, Some(10)),
        (Some(depth(1)), Some(MtpDepthDowngradeReason::ThinkingWindow))
    );
}

#[test]
fn effective_depth_without_room_is_none() {
    assert_eq!(
        qwen3_5_mtp_effective_depth_and_reason_for_windows(depth(1), 99, 100, 0, 1000, false, 0, None),
        (None, Some(MtpDepthDowngradeReason::OutputWindow))
    );
    assert_eq!(qwen3_5_mtp_effective_depth_for_windows(depth(1), 0, 100, 999, 1000, false, 0, None), None);
}

#[test]
fn effective_depth_fits_every_window_on_concrete_values() {
    for generated in [0u16, 50, 97, 98, 99] {
        for next_position in [0u32, 990, 997, 998] {
            for thinking in [None, Some(3u16), Some(20)] {
                let result = qwen3_5_mtp_effective_depth_for_windows(
                    depth(4),
                    generated,
                    100,
                    next_position,
                    1000,
                    true,
                    1,
                    thinking,
                );
                if let Some(d) = result {
                    let d = d.get() as u64;
                    assert!(1 <= d && d <= 4);
                    assert!(generated as u64 + d + 1 <= 100);
                    assert!(next_position as u64 + d + 1 <= 1000);
                    if let Some(budget) = thinking {
                        assert!(1 + d + 1 <= budget as u64);
                    }
                }
            }
        }
    }
}

#[test]
fn thinking_budget_crossing() {
    assert!(qwen3_5_mtp_verification_may_cross_thinking_budget(true, 8, Some(10), 2));
    assert!(!qwen3_5_mtp_verification_may_cross_thinking_budget(true, 7, Some(10), 2));
    assert!(!qwen3_5_mtp_verification_may_cross_thinking_budget(false, 8, Some(10), 2));
    assert!(!qwen3_5_mtp_verification_may_cross_thinking_budget(true, 8, None, 2));
    assert!(qwen3_5_mtp_verification_may_cross_thinking_budget(true, u16::MAX, Some(u16::MAX), 1));
}

#[test]
fn depth_one_window_needs_two_free_tokens_in_both_windows() {
    assert!(qwen3_5_depth_one_mtp_window_fits(98, 100, 998, 1000));
    assert!(!qwen3_5_depth_one_mtp_window_fits(99, 100, 0, 1000));
    assert!(!qwen3_5_depth_one_mtp_window_fits(0, 100, 999, 1000));
}

#[test]
fn prediction_depth_needs_a_session_and_a_hidden_seed() {
    let window = MtpDecodeWindow {
        generated_token_count: 0,
        maximum_output_tokens: 100,
        next_position_tokens: 0,
        is_inside_thinking: false,
        thinking_token_count: 0,
        thinking_budget: None,
    };
    assert_eq!(effective_prediction_depth(None, true, window, 1000), (None, None));
    assert_eq!(effective_prediction_depth(Some(depth(2)), false, window, 1000), (None, None));
    assert_eq!(effective_prediction_depth(Some(depth(2)), true, window, 1000), (Some(depth(2)), None));
    let near_end = MtpDecodeWindow { generated_token_count: 98, ..window };
    assert_eq!(
        effective_prediction_depth(Some(depth(2)), true, near_end, 1000),
        (Some(depth(1)), Some(MtpDepthDowngradeReason::OutputWindow))
    );
}

#[test]
fn sampled_verification_of_a_truncated_window_needs_no_post_prefix_token() {
    let decision = qwen3_5_mtp_sampled_verification_decision(
        depth(3),
        &[10, 2, 12],
        &[true, true, false],
        None,
        &[2],
    )
    .expect("an end-of-sequence window needs no residual token");
    assert_eq!(summary(&decision), (3, 3, 2, None, true, false));
    let with_token =
        qwen3_5_mtp_sampled_verification_decision(depth(3), &[10, 2, 12], &[true, true, false], Some(77), &[2])
            .expect("matching lengths");
    assert_eq!(decision, with_token);
    assert_eq!(
        qwen3_5_mtp_sampled_verification_decision(depth(3), &[10, 2, 12], &[true, false, true], None, &[2]),
        Err(MtpVerificationDecisionError::MissingPostPrefixToken)
    );
}
