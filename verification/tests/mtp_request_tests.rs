use model_serving::mtp::attempt::{
    disable_prediction_after_memory_admission_failure,
    disable_prediction_after_optional_injection_failure, finish_complete_attempt_rollback,
    record_mtp_outcome, record_prompt_history_initialization_fallback,
    record_terminal_history_token_count, take_queued_prediction_token,
    verify_window_with_optional_forced_rejection, MtpPerformanceCounters, MtpRequestState,
    Qwen3_5MultiTokenPredictionRequest,
};
use model_serving::mtp::commit_plan::{
    plan_accepted_mtp_prefix_commit, MtpCommitPlanError, PlannedFrontier, PredictorReplayPlan,
};
use model_serving::mtp::depth::MtpDraftDepth;
use model_serving::mtp::eligibility::{
    qwen3_5_mtp_request_is_eligible, qwen3_5_mtp_session_is_eligible,
};
use model_serving::mtp::emission_queue::{VerifiedEmissionQueue, VerifiedTargetFrontier};
use model_serving::mtp::moe_tensor_spec::{qwen3_5_moe_mtp_affine_module_specs, MtpAffineModuleSpec};
use model_serving::mtp::verification_decision::{
    qwen3_5_mtp_verification_decision, MtpVerificationDecision,
};

fn depth(value: u8) -> MtpDraftDepth {
    MtpDraftDepth::new(value).expect("positive depth")
}

fn frontier(position_tokens: u32, bytes: &[usize]) -> VerifiedTargetFrontier<&'static str> {
    VerifiedTargetFrontier {
        position_tokens,
        boundary: "checkpoint",
        recurrent_snapshot_byte_counts: bytes.to_vec(),
    }
}

fn request(session: Option<Qwen3_5MultiTokenPredictionRequest>) -> MtpRequestState {
    MtpRequestState {
        optional_prediction_session: session,
        next_position_tokens: 40,
        has_pending_generated_token: true,
        counters: MtpPerformanceCounters::new(),
    }
}

#[test]
fn request_eligibility_needs_every_condition() {
    assert!(qwen3_5_mtp_request_is_eligible(true, true, true, false, false, 0, 8, false));
    assert!(!qwen3_5_mtp_request_is_eligible(false, true, true, false, false, 0, 8, false));
    assert!(!qwen3_5_mtp_request_is_eligible(true, true, true, true, false, 0, 8, false));
    assert!(!qwen3_5_mtp_request_is_eligible(true, true, true, false, false, 0, 8, true));
    assert!(!qwen3_5_mtp_request_is_eligible(true, true, true, false, false, 7, 8, false));
    assert!(qwen3_5_mtp_request_is_eligible(true, true, true, false, false, 6, 8, false));
    assert!(!qwen3_5_mtp_request_is_eligible(true, true, true, false, false, 0, 1, false));
}

#[test]
fn session_eligibility_needs_greedy_sampling_and_no_persistent_cache() {
    assert!(qwen3_5_mtp_session_is_eligible(true, true, true, true, false, false, false, 8, 0));
    assert!(!qwen3_5_mtp_session_is_eligible(true, true, true, false, false, false, false, 8, 0));
    assert!(!qwen3_5_mtp_session_is_eligible(true, true, true, true, false, false, true, 8, 0));
    assert!(!qwen3_5_mtp_session_is_eligible(true, true, true, true, false, true, false, 8, 0));
    assert!(Qwen3_5MultiTokenPredictionRequest::new_if_eligible(
        true, true, true, true, false, false, false, 8, 0
    )
    .is_some());
    assert!(Qwen3_5MultiTokenPredictionRequest::new_if_eligible(
        true, true, false, true, false, false, false, 8, 0
    )
    .is_none());
}

#[test]
fn session_queue_emits_tokens_first_in_first_out() {
    let mut session = Qwen3_5MultiTokenPredictionRequest::new();
    assert!(!session.has_verified_generated_token_ids());
    session.queue_verified_generated_token_id(5);
    session.queue_verified_generated_token_id(6);
    assert!(session.has_verified_generated_token_ids());
    assert_eq!(session.take_verified_generated_token_id(), Some(5));
    assert_eq!(session.take_verified_generated_token_id(), Some(6));
    assert_eq!(session.take_verified_generated_token_id(), None);
    session.queue_verified_generated_token_id(7);
    session.clear_verified_generated_token_ids();
    assert!(!session.has_verified_generated_token_ids());
}

#[test]
fn forced_rejection_is_one_shot() {
    let mut session = Qwen3_5MultiTokenPredictionRequest::new();
    assert!(!session.take_forced_draft_rejection_for_tests());
    session.force_next_draft_rejection_for_tests();
    assert!(session.take_forced_draft_rejection_for_tests());
    assert!(!session.take_forced_draft_rejection_for_tests());
}

#[test]
fn queued_prediction_tokens_come_from_the_session() {
    let mut session = Qwen3_5MultiTokenPredictionRequest::new();
    session.queue_verified_generated_token_id(9);
    let mut active = request(Some(session));
    assert_eq!(take_queued_prediction_token(&mut active), Some(9));
    assert_eq!(take_queued_prediction_token(&mut active), None);
    assert_eq!(active.next_position_tokens, 40);
    let mut without_session = request(None);
    assert_eq!(take_queued_prediction_token(&mut without_session), None);
}

#[test]
fn fallbacks_quarantine_prediction_and_count() {
    let mut active = request(Some(Qwen3_5MultiTokenPredictionRequest::new()));
    disable_prediction_after_memory_admission_failure(&mut active);
    assert!(active.optional_prediction_session.is_none());
    assert_eq!(active.counters.memory_admission_fallback_count, 1);
    assert!(active.has_pending_generated_token);

    let mut active = request(Some(Qwen3_5MultiTokenPredictionRequest::new()));
    disable_prediction_after_optional_injection_failure(&mut active);
    assert!(active.optional_prediction_session.is_none());
    assert_eq!(active.counters, MtpPerformanceCounters::new());

    let mut active = request(Some(Qwen3_5MultiTokenPredictionRequest::new()));
    finish_complete_attempt_rollback(&mut active, 33);
    assert!(active.optional_prediction_session.is_none());
    assert_eq!(active.next_position_tokens, 33);
    assert!(!active.has_pending_generated_token);
    assert_eq!(active.counters.operational_fallback_count, 1);
}

#[test]
fn counters_saturate() {
    let mut counters = MtpPerformanceCounters::new();
    record_prompt_history_initialization_fallback(&mut counters);
    assert_eq!(counters.prompt_history_initialization_fallback_count, 1);
    record_terminal_history_token_count(&mut counters, 30);
    record_terminal_history_token_count(&mut counters, 12);
    assert_eq!(counters.terminal_history_token_count, 42);
    counters.terminal_history_token_count = u64::MAX - 1;
    record_terminal_history_token_count(&mut counters, 5);
    assert_eq!(counters.terminal_history_token_count, u64::MAX);
}

#[test]
fn outcomes_count_each_proposed_position_as_accepted_or_rejected() {
    let mut counters = MtpPerformanceCounters::new();
    let decision = qwen3_5_mtp_verification_decision(depth(3), &[1, 2, 3], &[1, 9, 3, 4], &[])
        .expect("matching lengths");
    record_mtp_outcome(&mut counters, &decision);
    assert_eq!(counters.accepted_draft_count, 1);
    assert_eq!(counters.rejected_draft_count, 2);
    assert_eq!(counters.proposed_draft_position_counts, [1, 1, 1]);
    assert_eq!(counters.accepted_draft_position_counts, [1, 0, 0]);
    assert_eq!(counters.rejected_draft_position_counts, [0, 1, 1]);
    for position in 0..3 {
        assert_eq!(
            counters.accepted_draft_position_counts[position]
                + counters.rejected_draft_position_counts[position],
            counters.proposed_draft_position_counts[position]
        );
    }
    record_mtp_outcome(&mut counters, &MtpVerificationDecision::operational_fallback(depth(2)));
    assert_eq!(counters.proposed_draft_position_counts, [1, 1, 1]);
    assert_eq!(counters.operational_fallback_count, 0);
}

#[test]
fn outcomes_beyond_three_positions_count_only_totals() {
    let mut counters = MtpPerformanceCounters::new();
    let decision = qwen3_5_mtp_verification_decision(depth(4), &[1, 2, 3, 4], &[1, 2, 3, 4, 5], &[])
        .expect("matching lengths");
    record_mtp_outcome(&mut counters, &decision);
    assert_eq!(counters.accepted_draft_count, 4);
    assert_eq!(counters.rejected_draft_count, 0);
    assert_eq!(counters.accepted_draft_position_counts, [1, 1, 1]);
}

#[test]
fn forced_rejection_replaces_the_first_target_token() {
    let forced = verify_window_with_optional_forced_rejection(true, depth(2), &[10, 11], vec![10, 11, 12], &[])
        .expect("matching lengths");
    assert_eq!(forced.accepted_count(), 0);
    assert_eq!(forced.pending_target_token_id(), Some(11));
    let wrapped = verify_window_with_optional_forced_rejection(true, depth(1), &[u32::MAX], vec![u32::MAX, 3], &[])
        .expect("matching lengths");
    assert_eq!(wrapped.pending_target_token_id(), Some(0));
    let unforced = verify_window_with_optional_forced_rejection(false, depth(2), &[10, 11], vec![10, 11, 12], &[])
        .expect("matching lengths");
    assert_eq!(unforced.accepted_count(), 2);
    assert_eq!(unforced.pending_target_token_id(), Some(12));
}

#[test]
fn commit_plan_for_a_partially_accepted_window() {
    let decision = qwen3_5_mtp_verification_decision(depth(3), &[21, 22, 23], &[21, 22, 90, 91], &[])
        .expect("matching lengths");
    let plan = plan_accepted_mtp_prefix_commit(100, &[21, 22, 23], &decision).expect("representable");
    assert_eq!(plan.retained_target_position_tokens, 103);
    assert_eq!(plan.target_repair_boundary, Some(2));
    assert_eq!(plan.public_frontier, Some(PlannedFrontier { boundary_index: 0, position_tokens: 101 }));
    assert_eq!(
        plan.queued_emissions,
        vec![(21, Some(PlannedFrontier { boundary_index: 1, position_tokens: 102 })), (22, None)]
    );
    assert_eq!(plan.pending_target_token_id, Some(90));
    assert_eq!(
        plan.predictor_replay,
        PredictorReplayPlan { restore_checkpoint_and_replay_current_token: false, first_replayed_accepted_draft: 2 }
    );
    assert_eq!(plan.retained_hidden_row_index, 2);
}

#[test]
fn commit_plan_for_a_rejected_window_restores_the_predictor() {
    let decision = qwen3_5_mtp_verification_decision(depth(3), &[21, 22, 23], &[5, 22, 23, 24], &[])
        .expect("matching lengths");
    let plan = plan_accepted_mtp_prefix_commit(100, &[21, 22, 23], &decision).expect("representable");
    assert_eq!(plan.retained_target_position_tokens, 101);
    assert_eq!(plan.target_repair_boundary, Some(0));
    assert_eq!(plan.public_frontier, None);
    assert!(plan.queued_emissions.is_empty());
    assert_eq!(plan.pending_target_token_id, Some(5));
    assert_eq!(
        plan.predictor_replay,
        PredictorReplayPlan { restore_checkpoint_and_replay_current_token: true, first_replayed_accepted_draft: 0 }
    );
}

#[test]
fn commit_plan_for_a_fully_accepted_window_needs_no_repair() {
    let decision = qwen3_5_mtp_verification_decision(depth(1), &[21], &[21, 30], &[]).expect("matching lengths");
    let plan = plan_accepted_mtp_prefix_commit(7, &[21], &decision).expect("representable");
    assert_eq!(plan.retained_target_position_tokens, 9);
    assert_eq!(plan.target_repair_boundary, None);
    assert_eq!(plan.queued_emissions, vec![(21, None)]);
    assert_eq!(plan.pending_target_token_id, Some(30));
}

#[test]
fn commit_plan_errors() {
    let decision = qwen3_5_mtp_verification_decision(depth(1), &[21], &[21, 30], &[]).expect("matching lengths");
    assert_eq!(
        plan_accepted_mtp_prefix_commit(u32::MAX - 1, &[21], &decision),
        Err(MtpCommitPlanError::RetainedPositionOverflow)
    );
    let fallback = MtpVerificationDecision::operational_fallback(depth(1));
    assert_eq!(plan_accepted_mtp_prefix_commit(7, &[], &fallback), Err(MtpCommitPlanError::EmptyProposal));
}

#[test]
fn emission_queue_is_first_in_first_out_and_publishes_frontiers() {
    let mut queue = VerifiedEmissionQueue::new(frontier(10, &[4, 6]));
    assert!(queue.is_empty());
    queue.push(1, Some(frontier(11, &[8])));
    queue.push(2, None);
    assert!(!queue.is_empty());
    assert_eq!(queue.payload_byte_count(), 18);
    assert_eq!(queue.pop_front(), Some(1));
    assert_eq!(queue.payload_byte_count(), 8);
    let public = queue.take_public_frontier().expect("frontier of the first token");
    assert_eq!(public.position_tokens, 11);
    assert!(queue.take_public_frontier().is_none());
    assert_eq!(queue.pop_front(), Some(2));
    assert!(queue.take_public_frontier().is_none());
    assert_eq!(queue.pop_front(), None);
}

#[test]
fn frontier_payload_saturates() {
    assert_eq!(frontier(0, &[]).payload_byte_count(), 0);
    assert_eq!(frontier(0, &[usize::MAX, usize::MAX, 5]).payload_byte_count(), u64::MAX);
}

#[test]
fn mixture_of_experts_prediction_layer_lists_its_affine_modules() {
    let specs = qwen3_5_moe_mtp_affine_module_specs("language_model.mtp.layers.0", 2048, 64, 512, 1024);
    let expected = vec![
        ("language_model.mtp.layers.0.mlp.gate", vec![64], 2048),
        ("language_model.mtp.layers.0.mlp.switch_mlp.gate_proj", vec![64, 512], 2048),
        ("language_model.mtp.layers.0.mlp.switch_mlp.up_proj", vec![64, 512], 2048),
        ("language_model.mtp.layers.0.mlp.switch_mlp.down_proj", vec![64, 2048], 512),
        ("language_model.mtp.layers.0.mlp.shared_expert.gate_proj", vec![1024], 2048),
        ("language_model.mtp.layers.0.mlp.shared_expert.up_proj", vec![1024], 2048),
        ("language_model.mtp.layers.0.mlp.shared_expert.down_proj", vec![2048], 1024),
        ("language_model.mtp.layers.0.mlp.shared_expert_gate", vec![1], 2048),
    ]
    .into_iter()
    .map(|(name, leading_dimensions, input_dimension)| MtpAffineModuleSpec {
        module_name: name.to_string(),
        leading_dimensions,
        input_dimension,
    })
    .collect::<Vec<_>>();
    assert_eq!(specs, expected);
}
