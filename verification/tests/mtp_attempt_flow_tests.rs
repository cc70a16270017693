use model_serving::mtp::attempt::{MtpPerformanceCounters, MtpRequestState, Qwen3_5MultiTokenPredictionRequest};
use model_serving::mtp::attempt_flow::{
    begin_mtp_attempt, mtp_attempt_step, MtpAttemptAction, MtpAttemptEvent, MtpAttemptFailure,
    MtpAttemptMode, MtpAttemptPhase,
};
use model_serving::mtp::commit_plan::PlannedFrontier;
use model_serving::mtp::depth::MtpDraftDepth;

fn depth(value: u8) -> MtpDraftDepth {
    MtpDraftDepth::new(value).expect("positive depth")
}

fn request() -> MtpRequestState {
    MtpRequestState {
        optional_prediction_session: Some(Qwen3_5MultiTokenPredictionRequest::new()),
        next_position_tokens: 50,
        has_pending_generated_token: true,
        counters: MtpPerformanceCounters::new(),
    }
}

fn proposed(
    request: &mut MtpRequestState,
    mode: MtpAttemptMode,
    drafts: Vec<u32>,
) -> (MtpAttemptPhase, MtpAttemptAction) {
    let (phase, action) = begin_mtp_attempt(request, mode, depth(3), depth(drafts.len() as u8), 7);
    assert_eq!(action, MtpAttemptAction::ProposeDrafts { effective_depth: depth(drafts.len() as u8) });
    mtp_attempt_step(request, phase, MtpAttemptEvent::Proposed { draft_token_ids: drafts }, &[2])
}

#[test]
fn greedy_attempt_runs_from_proposal_to_commit() {
    let mut active = request();
    let (phase, action) = proposed(&mut active, MtpAttemptMode::Greedy, vec![10, 11, 12]);
    assert_eq!(
        action,
        MtpAttemptAction::VerifyWindow {
            verifier_input_token_ids: vec![7, 10, 11, 12],
            target_verify_start_position_tokens: 50,
            forced_draft_rejection: false,
        }
    );
    assert_eq!(active.counters.proposed_draft_count, 3);

    let (phase, action) = mtp_attempt_step(
        &mut active,
        phase,
        MtpAttemptEvent::GreedyVerified { target_token_ids: vec![10, 11, 40, 41] },
        &[2],
    );
    assert_eq!(active.next_position_tokens, 54);
    match action {
        MtpAttemptAction::CommitPrefix { plan } => {
            assert_eq!(plan.retained_target_position_tokens, 53);
            assert_eq!(plan.target_repair_boundary, Some(2));
            assert_eq!(
                plan.queued_emissions,
                vec![(10, Some(PlannedFrontier { boundary_index: 1, position_tokens: 52 })), (11, None)]
            );
            assert_eq!(plan.pending_target_token_id, Some(40));
        }
        other => panic!("expected a commit, got {other:?}"),
    }

    let (phase, action) = mtp_attempt_step(&mut active, phase, MtpAttemptEvent::Committed, &[2]);
    assert_eq!(phase, MtpAttemptPhase::Finished);
    match action {
        MtpAttemptAction::Finish { decision } => {
            assert_eq!(decision.accepted_count(), 2);
            assert_eq!(decision.pending_target_token_id(), Some(40));
        }
        other => panic!("expected the decision, got {other:?}"),
    }
    assert_eq!(active.next_position_tokens, 53);
    assert!(active.has_pending_generated_token);
    assert_eq!(active.counters.accepted_draft_count, 2);
    assert_eq!(active.counters.rejected_draft_count, 1);
    let session = active.optional_prediction_session.as_mut().expect("session kept");
    assert_eq!(session.take_verified_generated_token_id(), Some(10));
    assert_eq!(session.take_verified_generated_token_id(), Some(11));
    assert_eq!(session.take_verified_generated_token_id(), None);
}

#[test]
fn greedy_attempt_truncated_at_end_of_sequence_has_no_pending_token() {
    let mut active = request();
    let (phase, _) = proposed(&mut active, MtpAttemptMode::Greedy, vec![10, 2]);
    let (phase, _) = mtp_attempt_step(
        &mut active,
        phase,
        MtpAttemptEvent::GreedyVerified { target_token_ids: vec![10, 2, 5] },
        &[2],
    );
    assert_eq!(active.counters.eos_truncated_prefix_count, 1);
    let (_, action) = mtp_attempt_step(&mut active, phase, MtpAttemptEvent::Committed, &[2]);
    assert!(matches!(action, MtpAttemptAction::Finish { .. }));
    assert_eq!(active.next_position_tokens, 53);
    assert!(!active.has_pending_generated_token);
}

#[test]
fn forced_rejection_is_consumed_by_the_greedy_verification() {
    let mut active = request();
    active
        .optional_prediction_session
        .as_mut()
        .expect("session")
        .force_next_draft_rejection_for_tests();
    let (phase, action) = proposed(&mut active, MtpAttemptMode::Greedy, vec![10]);
    assert!(matches!(action, MtpAttemptAction::VerifyWindow { forced_draft_rejection: false, .. }));
    let (_, action) = mtp_attempt_step(
        &mut active,
        phase,
        MtpAttemptEvent::GreedyVerified { target_token_ids: vec![10, 30] },
        &[],
    );
    match action {
        MtpAttemptAction::CommitPrefix { plan } => {
            assert!(plan.queued_emissions.is_empty());
            assert_eq!(plan.pending_target_token_id, Some(11));
        }
        other => panic!("expected a commit, got {other:?}"),
    }
    let session = active.optional_prediction_session.as_mut().expect("session");
    assert!(!session.take_forced_draft_rejection_for_tests());
}

#[test]
fn sampled_attempt_hands_the_forced_rejection_to_the_verifier() {
    let mut active = request();
    active
        .optional_prediction_session
        .as_mut()
        .expect("session")
        .force_next_draft_rejection_for_tests();
    let (phase, action) = proposed(&mut active, MtpAttemptMode::Sampled, vec![10, 11]);
    assert!(matches!(action, MtpAttemptAction::VerifyWindow { forced_draft_rejection: true, .. }));
    let (phase, action) = mtp_attempt_step(
        &mut active,
        phase,
        MtpAttemptEvent::SampledVerified { accepted_coin_flags: vec![true, false], post_prefix_token_id: 99 },
        &[],
    );
    match action {
        MtpAttemptAction::CommitPrefix { plan } => assert_eq!(plan.pending_target_token_id, Some(99)),
        other => panic!("expected a commit, got {other:?}"),
    }
    let (_, action) = mtp_attempt_step(&mut active, phase, MtpAttemptEvent::Committed, &[]);
    match action {
        MtpAttemptAction::Finish { decision } => assert_eq!(decision.accepted_count(), 1),
        other => panic!("expected the decision, got {other:?}"),
    }
    assert_eq!(active.next_position_tokens, 52);
}

#[test]
fn failed_proposal_quarantines_prediction() {
    let mut active = request();
    let (phase, _) = begin_mtp_attempt(&mut active, MtpAttemptMode::Greedy, depth(3), depth(2), 7);
    let (phase, action) = mtp_attempt_step(&mut active, phase, MtpAttemptEvent::ProposalFailed, &[]);
    assert_eq!(phase, MtpAttemptPhase::Finished);
    match action {
        MtpAttemptAction::Finish { decision } => assert!(decision.is_operational_fallback()),
        other => panic!("expected a fallback, got {other:?}"),
    }
    assert!(active.optional_prediction_session.is_none());
    assert_eq!(active.next_position_tokens, 50);
    assert_eq!(active.counters.operational_fallback_count, 1);
}

#[test]
fn failed_verification_or_commit_rolls_back_to_the_window_start() {
    for failure in [MtpAttemptEvent::VerificationFailed, MtpAttemptEvent::CommitFailed] {
        let mut active = request();
        let (mut phase, _) = proposed(&mut active, MtpAttemptMode::Greedy, vec![10, 11]);
        if failure == MtpAttemptEvent::CommitFailed {
            phase = mtp_attempt_step(
                &mut active,
                phase,
                MtpAttemptEvent::GreedyVerified { target_token_ids: vec![10, 11, 12] },
                &[],
            )
            .0;
            assert_eq!(active.next_position_tokens, 53);
        }
        let (phase, action) = mtp_attempt_step(&mut active, phase, failure, &[]);
        assert_eq!(phase, MtpAttemptPhase::Finished);
        match action {
            MtpAttemptAction::RestoreAndFallBack { target_verify_start_position_tokens, decision } => {
                assert_eq!(target_verify_start_position_tokens, 50);
                assert!(decision.is_operational_fallback());
            }
            other => panic!("expected a rollback, got {other:?}"),
        }
        assert!(active.optional_prediction_session.is_none());
        assert_eq!(active.next_position_tokens, 50);
        assert!(!active.has_pending_generated_token);
        assert_eq!(active.counters.operational_fallback_count, 1);
    }
}

#[test]
fn inconsistent_or_unexpected_events_fail_the_attempt() {
    let mut active = request();
    let (phase, _) = proposed(&mut active, MtpAttemptMode::Greedy, vec![10, 11]);
    let (_, action) = mtp_attempt_step(
        &mut active,
        phase.clone(),
        MtpAttemptEvent::GreedyVerified { target_token_ids: vec![10] },
        &[],
    );
    assert_eq!(action, MtpAttemptAction::Fail { failure: MtpAttemptFailure::InconsistentVerificationVectors });

    let mut active = request();
    let (_, action) = mtp_attempt_step(
        &mut active,
        phase,
        MtpAttemptEvent::SampledVerified { accepted_coin_flags: vec![true, true], post_prefix_token_id: 1 },
        &[],
    );
    assert_eq!(action, MtpAttemptAction::Fail { failure: MtpAttemptFailure::UnexpectedEvent });
    assert_eq!(active.next_position_tokens, 50);

    let (_, action) = mtp_attempt_step(&mut active, MtpAttemptPhase::Finished, MtpAttemptEvent::Committed, &[]);
    assert_eq!(action, MtpAttemptAction::Fail { failure: MtpAttemptFailure::UnexpectedEvent });

    let mut without_session = MtpRequestState { optional_prediction_session: None, ..request() };
    assert_eq!(
        begin_mtp_attempt(&mut without_session, MtpAttemptMode::Greedy, depth(2), depth(1), 7),
        (MtpAttemptPhase::Finished, MtpAttemptAction::Fail { failure: MtpAttemptFailure::SessionMissing })
    );
    assert_eq!(without_session.counters.admitted_attempt_count, 1);
    assert_eq!(without_session.counters.requested_depth_total, 0);
    assert_eq!(without_session.counters.effective_depth_total, 0);
}

#[test]
fn verification_past_the_last_position_overflows() {
    let mut active = MtpRequestState { next_position_tokens: u32::MAX - 1, ..request() };
    let (phase, _) = proposed(&mut active, MtpAttemptMode::Greedy, vec![10, 11]);
    let (_, action) = mtp_attempt_step(
        &mut active,
        phase,
        MtpAttemptEvent::GreedyVerified { target_token_ids: vec![10, 11, 12] },
        &[],
    );
    assert_eq!(action, MtpAttemptAction::Fail { failure: MtpAttemptFailure::PositionOverflow });
    assert_eq!(active.next_position_tokens, u32::MAX - 1);
}

#[test]
fn greedy_attempts_count_admissions_and_depths() {
    let mut active = request();
    begin_mtp_attempt(&mut active, MtpAttemptMode::Greedy, depth(3), depth(2), 7);
    begin_mtp_attempt(&mut active, MtpAttemptMode::Greedy, depth(3), depth(1), 8);
    assert_eq!(active.counters.admitted_attempt_count, 2);
    assert_eq!(active.counters.requested_depth_total, 6);
    assert_eq!(active.counters.effective_depth_total, 3);

    let mut sampled = request();
    begin_mtp_attempt(&mut sampled, MtpAttemptMode::Sampled, depth(3), depth(2), 7);
    assert_eq!(sampled.counters, MtpPerformanceCounters::new());

    let mut saturated = request();
    saturated.counters.requested_depth_total = u64::MAX - 1;
    begin_mtp_attempt(&mut saturated, MtpAttemptMode::Greedy, depth(3), depth(3), 7);
    assert_eq!(saturated.counters.requested_depth_total, u64::MAX);
    assert_eq!(saturated.counters.effective_depth_total, 3);
}
