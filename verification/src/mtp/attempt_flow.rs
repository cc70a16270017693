//! One greedy or sampled MTP attempt as a sequence of decisions between the outside
//! steps that propose drafts, run the target verification window and repair state.
//!
//! The caller performs each returned action (a forward, a commit, a rollback) and
//! hands back what happened as an event; every decision in between is made here.

use vstd::prelude::*;

use crate::mtp::attempt::{
    MtpPerformanceCounters, MtpRequestState, Qwen3_5MultiTokenPredictionRequest,
    finish_complete_attempt_rollback, outcome_recorded, record_mtp_outcome, saturating_sum,
    verify_window_with_optional_forced_rejection,
};
use crate::mtp::commit_plan::{MtpCommitPlan, commit_plan_is, plan_accepted_mtp_prefix_commit};
use crate::mtp::depth::MtpDraftDepth;
use crate::mtp::verification_decision::{
    MtpVerificationDecision, MtpVerificationDecisionView, greedy_decision_view,
    lemma_greedy_decision_accepts_matching_prefix, lemma_sampled_decision_accepts_coin_prefix,
    operational_fallback_view, qwen3_5_mtp_sampled_verification_decision, sampled_decision_view,
};

verus! {

/// How the drafts of an attempt are accepted.
#[derive(Clone, Copy, Debug, PartialEq, Eq, Structural)]
pub enum MtpAttemptMode {
    /// Drafts are accepted while they equal the target's greedy tokens.
    Greedy,
    /// Drafts are accepted while their acceptance coins say so.
    Sampled,
}

/// Where an attempt stands between two outside steps.
#[derive(Clone, Debug, PartialEq, Eq)]
pub enum MtpAttemptPhase {
    AwaitingProposal { mode: MtpAttemptMode, effective_depth: MtpDraftDepth, current_token_id: u32 },
    AwaitingVerification {
        mode: MtpAttemptMode,
        effective_depth: MtpDraftDepth,
        draft_token_ids: Vec<u32>,
        target_verify_start_position_tokens: u32,
    },
    AwaitingCommit {
        effective_depth: MtpDraftDepth,
        decision: MtpVerificationDecision,
        draft_token_ids: Vec<u32>,
        target_verify_start_position_tokens: u32,
    },
    Finished,
}

/// What the outside step reported.
#[derive(Clone, Debug, PartialEq, Eq)]
pub enum MtpAttemptEvent {
    ProposalFailed,
    Proposed { draft_token_ids: Vec<u32> },
    VerificationFailed,
    /// The target's greedy token after each verifier input.
    GreedyVerified { target_token_ids: Vec<u32> },
    /// The acceptance coin of each draft and the residual or bonus token.
    SampledVerified { accepted_coin_flags: Vec<bool>, post_prefix_token_id: u32 },
    CommitFailed,
    Committed,
}

/// Why an attempt cannot go on; the request fails.
#[derive(Clone, Copy, Debug, PartialEq, Eq, Structural)]
pub enum MtpAttemptFailure {
    /// The request has no prediction session.
    SessionMissing,
    /// The event does not belong to the attempt's phase or mode.
    UnexpectedEvent,
    /// Advancing past the verification window overflows the position counter.
    PositionOverflow,
    /// The verification vectors do not match the effective depth.
    InconsistentVerificationVectors,
}

/// What the caller does next.
#[derive(Clone, Debug, PartialEq, Eq)]
pub enum MtpAttemptAction {
    /// Run the prediction head for `effective_depth` drafts.
    ProposeDrafts { effective_depth: MtpDraftDepth },
    /// Run the target over the current token and the drafts, from the given position.
    VerifyWindow {
        verifier_input_token_ids: Vec<u32>,
        target_verify_start_position_tokens: u32,
        forced_draft_rejection: bool,
    },
    /// Commit the accepted prefix as planned.
    CommitPrefix { plan: MtpCommitPlan },
    /// Restore target and predictor state to the attempt's start and decode on target-only.
    RestoreAndFallBack { target_verify_start_position_tokens: u32, decision: MtpVerificationDecision },
    /// The attempt is complete with this decision.
    Finish { decision: MtpVerificationDecision },
    Fail { failure: MtpAttemptFailure },
}

pub open spec fn fallback_counters(counters: MtpPerformanceCounters) -> MtpPerformanceCounters {
    MtpPerformanceCounters {
        operational_fallback_count: saturating_sum(counters.operational_fallback_count, 1),
        ..counters
    }
}

/// Whether the session asks for the next draft to be rejected.
pub open spec fn forced_flag(session: Option<Qwen3_5MultiTokenPredictionRequest>) -> bool {
    match session {
        Some(s) => s@.force_next_draft_rejection_for_tests,
        None => false,
    }
}

/// The session after its forced-rejection request was consumed.
pub open spec fn flag_taken(
    before: Option<Qwen3_5MultiTokenPredictionRequest>,
    after: Option<Qwen3_5MultiTokenPredictionRequest>,
) -> bool {
    match before {
        None => after is None,
        Some(s) => after matches Some(t) && t@.verified_generated_token_ids == s@.verified_generated_token_ids
            && !t@.force_next_draft_rejection_for_tests,
    }
}

/// The attempt fails and the request is left as it was.
pub open spec fn fails_unchanged(
    before: MtpRequestState,
    after: MtpRequestState,
    failure: MtpAttemptFailure,
    next: (MtpAttemptPhase, MtpAttemptAction),
) -> bool {
    after == before && next == (MtpAttemptPhase::Finished, MtpAttemptAction::Fail { failure })
}

/// The attempt is rolled back to `start`: prediction is quarantined, decoding resumes at
/// `start` without a pending token, one operational fallback is counted on `counters`.
pub open spec fn falls_back(
    after: MtpRequestState,
    counters: MtpPerformanceCounters,
    depth: MtpDraftDepth,
    start: u32,
    next: (MtpAttemptPhase, MtpAttemptAction),
) -> bool {
    &&& after.optional_prediction_session is None
    &&& after.next_position_tokens == start
    &&& !after.has_pending_generated_token
    &&& after.counters == fallback_counters(counters)
    &&& next.0 == MtpAttemptPhase::Finished
    &&& next.1 matches MtpAttemptAction::RestoreAndFallBack { target_verify_start_position_tokens, decision }
        && target_verify_start_position_tokens == start && decision@ == operational_fallback_view(depth@)
}

/// The counters after noting whether the window was truncated at an end-of-sequence draft.
pub open spec fn truncation_counted(counters: MtpPerformanceCounters, decision: MtpVerificationDecisionView) -> MtpPerformanceCounters {
    if decision.was_eos_truncated {
        MtpPerformanceCounters {
            eos_truncated_prefix_count: saturating_sum(counters.eos_truncated_prefix_count, 1),
            ..counters
        }
    } else {
        counters
    }
}

/// After verification: `decision` is the window's outcome (`None` when the vectors were
/// inconsistent), the position was advanced past the window, and `takes_flag` says
/// whether the session's forced-rejection request was consumed now.
pub open spec fn verified_step_is(
    before: MtpRequestState,
    after: MtpRequestState,
    depth: MtpDraftDepth,
    draft: Seq<u32>,
    plan_drafts: Vec<u32>,
    start: u32,
    takes_flag: bool,
    decision: Option<MtpVerificationDecisionView>,
    next: (MtpAttemptPhase, MtpAttemptAction),
) -> bool {
    let advanced = before.next_position_tokens + draft.len() + 1;
    if draft.len() + 1 > u32::MAX || advanced > u32::MAX {
        fails_unchanged(before, after, MtpAttemptFailure::PositionOverflow, next)
    } else {
        let session_ok = if takes_flag {
            flag_taken(before.optional_prediction_session, after.optional_prediction_session)
        } else {
            after.optional_prediction_session == before.optional_prediction_session
        };
        match decision {
            None => {
                &&& session_ok
                &&& after.next_position_tokens == advanced
                &&& after.has_pending_generated_token == before.has_pending_generated_token
                &&& after.counters == before.counters
                &&& next == (MtpAttemptPhase::Finished, MtpAttemptAction::Fail {
                    failure: MtpAttemptFailure::InconsistentVerificationVectors,
                })
            },
            Some(d) => {
                let counters = truncation_counted(before.counters, d);
                if start + d.accepted_count + 1 > u32::MAX {
                    falls_back(after, counters, depth, start, next)
                } else {
                    &&& session_ok
                    &&& after.next_position_tokens == advanced
                    &&& after.has_pending_generated_token == before.has_pending_generated_token
                    &&& after.counters == counters
                    &&& next.0 matches MtpAttemptPhase::AwaitingCommit {
                        effective_depth,
                        decision,
                        draft_token_ids,
                        target_verify_start_position_tokens,
                    } && effective_depth == depth && decision@ == d && draft_token_ids == plan_drafts
                        && target_verify_start_position_tokens == start
                    &&& next.1 matches MtpAttemptAction::CommitPrefix { plan } && commit_plan_is(
                        plan,
                        start,
                        draft,
                        d.accepted_count as nat,
                        d.pending_target_token_id,
                    )
                }
            },
        }
    }
}

/// The greedy window's target tokens after an optional forced rejection of the first draft.
pub open spec fn forced_target(forced: bool, draft: Seq<u32>, target: Seq<u32>) -> Seq<u32> {
    if forced && target.len() > 0 {
        target.update(0, (if draft[0] == u32::MAX { 0 } else { draft[0] + 1 }) as u32)
    } else {
        target
    }
}

/// After a successful commit: decoding continues after the accepted drafts and the
/// target's own token, the accepted drafts are queued for emission, the target's next
/// token (unless truncated at end of sequence) is pending, and the outcome is counted.
pub open spec fn committed_step_is(
    before: MtpRequestState,
    after: MtpRequestState,
    decision: MtpVerificationDecision,
    draft: Seq<u32>,
    start: u32,
    next: (MtpAttemptPhase, MtpAttemptAction),
) -> bool {
    let accepted = decision@.accepted_count as int;
    if accepted > draft.len() {
        fails_unchanged(before, after, MtpAttemptFailure::InconsistentVerificationVectors, next)
    } else if start + accepted + 1 > u32::MAX {
        fails_unchanged(before, after, MtpAttemptFailure::PositionOverflow, next)
    } else if accepted > 0 && before.optional_prediction_session is None {
        fails_unchanged(before, after, MtpAttemptFailure::SessionMissing, next)
    } else {
        &&& after.next_position_tokens == start + accepted + 1
        &&& after.has_pending_generated_token == (decision@.pending_target_token_id is Some)
        &&& match before.optional_prediction_session {
            None => after.optional_prediction_session is None,
            Some(s) => after.optional_prediction_session matches Some(t)
                && t@.verified_generated_token_ids == s@.verified_generated_token_ids + draft.subrange(0, accepted)
                && t@.force_next_draft_rejection_for_tests == s@.force_next_draft_rejection_for_tests,
        }
        &&& outcome_recorded(before.counters, after.counters, decision@)
        &&& next == (MtpAttemptPhase::Finished, MtpAttemptAction::Finish { decision })
    }
}

/// A forced rejection replaces the first target token by one that differs from the
/// first draft, so a greedy window with target tokens must then have a draft.
pub open spec fn forced_rejection_has_a_draft(
    phase: MtpAttemptPhase,
    event: MtpAttemptEvent,
    session: Option<Qwen3_5MultiTokenPredictionRequest>,
) -> bool {
    match phase {
        MtpAttemptPhase::AwaitingVerification { draft_token_ids, .. } => match event {
            MtpAttemptEvent::GreedyVerified { target_token_ids } => (forced_flag(session)
                && target_token_ids@.len() > 0) ==> draft_token_ids@.len() > 0,
            _ => true,
        },
        _ => true,
    }
}

/// The exact effect of one attempt step.
pub open spec fn attempt_step_is(
    before: MtpRequestState,
    after: MtpRequestState,
    phase: MtpAttemptPhase,
    event: MtpAttemptEvent,
    eos: Seq<u32>,
    next: (MtpAttemptPhase, MtpAttemptAction),
) -> bool {
    match phase {
        MtpAttemptPhase::AwaitingProposal { mode, effective_depth, current_token_id } => match event {
            MtpAttemptEvent::ProposalFailed => {
                &&& after.optional_prediction_session is None
                &&& after.next_position_tokens == before.next_position_tokens
                &&& after.has_pending_generated_token == before.has_pending_generated_token
                &&& after.counters == fallback_counters(before.counters)
                &&& next.0 == MtpAttemptPhase::Finished
                &&& next.1 matches MtpAttemptAction::Finish { decision } && decision@ == operational_fallback_view(
                    effective_depth@,
                )
            },
            MtpAttemptEvent::Proposed { draft_token_ids } => if before.optional_prediction_session is None {
                fails_unchanged(before, after, MtpAttemptFailure::SessionMissing, next)
            } else {
                &&& (if mode == MtpAttemptMode::Sampled {
                    flag_taken(before.optional_prediction_session, after.optional_prediction_session)
                } else {
                    after.optional_prediction_session == before.optional_prediction_session
                })
                &&& after.next_position_tokens == before.next_position_tokens
                &&& after.has_pending_generated_token == before.has_pending_generated_token
                &&& after.counters == (MtpPerformanceCounters {
                    proposed_draft_count: saturating_sum(
                        before.counters.proposed_draft_count,
                        draft_token_ids@.len() as int,
                    ),
                    ..before.counters
                })
                &&& next.0 == (MtpAttemptPhase::AwaitingVerification {
                    mode,
                    effective_depth,
                    draft_token_ids,
                    target_verify_start_position_tokens: before.next_position_tokens,
                })
                &&& next.1 matches MtpAttemptAction::VerifyWindow {
                    verifier_input_token_ids,
                    target_verify_start_position_tokens,
                    forced_draft_rejection,
                } && verifier_input_token_ids@ == seq![current_token_id] + draft_token_ids@
                    && target_verify_start_position_tokens == before.next_position_tokens
                    && forced_draft_rejection == (mode == MtpAttemptMode::Sampled && forced_flag(
                    before.optional_prediction_session,
                ))
            },
            _ => fails_unchanged(before, after, MtpAttemptFailure::UnexpectedEvent, next),
        },
        MtpAttemptPhase::AwaitingVerification {
            mode,
            effective_depth,
            draft_token_ids,
            target_verify_start_position_tokens,
        } => match event {
            MtpAttemptEvent::VerificationFailed => falls_back(
                after,
                before.counters,
                effective_depth,
                target_verify_start_position_tokens,
                next,
            ),
            MtpAttemptEvent::GreedyVerified { target_token_ids } => if mode != MtpAttemptMode::Greedy {
                fails_unchanged(before, after, MtpAttemptFailure::UnexpectedEvent, next)
            } else {
                let target = forced_target(
                    forced_flag(before.optional_prediction_session),
                    draft_token_ids@,
                    target_token_ids@,
                );
                verified_step_is(
                    before,
                    after,
                    effective_depth,
                    draft_token_ids@,
                    draft_token_ids,
                    target_verify_start_position_tokens,
                    true,
                    if draft_token_ids@.len() == effective_depth@ && target.len() == effective_depth@ + 1 {
                        Some(greedy_decision_view(effective_depth@, draft_token_ids@, target, eos))
                    } else {
                        None
                    },
                    next,
                )
            },
            MtpAttemptEvent::SampledVerified { accepted_coin_flags, post_prefix_token_id } => if mode
                != MtpAttemptMode::Sampled {
                fails_unchanged(before, after, MtpAttemptFailure::UnexpectedEvent, next)
            } else {
                verified_step_is(
                    before,
                    after,
                    effective_depth,
                    draft_token_ids@,
                    draft_token_ids,
                    target_verify_start_position_tokens,
                    false,
                    if draft_token_ids@.len() == effective_depth@ && accepted_coin_flags@.len() == effective_depth@ {
                        Some(
                            sampled_decision_view(
                                effective_depth@,
                                draft_token_ids@,
                                accepted_coin_flags@,
                                post_prefix_token_id,
                                eos,
                            ),
                        )
                    } else {
                        None
                    },
                    next,
                )
            },
            _ => fails_unchanged(before, after, MtpAttemptFailure::UnexpectedEvent, next),
        },
        MtpAttemptPhase::AwaitingCommit {
            effective_depth,
            decision,
            draft_token_ids,
            target_verify_start_position_tokens,
        } => match event {
            MtpAttemptEvent::CommitFailed => falls_back(
                after,
                before.counters,
                effective_depth,
                target_verify_start_position_tokens,
                next,
            ),
            MtpAttemptEvent::Committed => committed_step_is(
                before,
                after,
                decision,
                draft_token_ids@,
                target_verify_start_position_tokens,
                next,
            ),
            _ => fails_unchanged(before, after, MtpAttemptFailure::UnexpectedEvent, next),
        },
        MtpAttemptPhase::Finished => fails_unchanged(before, after, MtpAttemptFailure::UnexpectedEvent, next),
    }
}

/// The counters when a greedy attempt is admitted: one more admitted attempt and, when
/// the prediction session is there, the requested and effective depths added to their
/// totals. A sampled attempt leaves them unchanged.
pub open spec fn attempt_admission_counted(
    counters: MtpPerformanceCounters,
    mode: MtpAttemptMode,
    has_session: bool,
    requested_depth: int,
    effective_depth: int,
) -> MtpPerformanceCounters {
    if mode == MtpAttemptMode::Greedy {
        let admitted = MtpPerformanceCounters {
            admitted_attempt_count: saturating_sum(counters.admitted_attempt_count, 1),
            ..counters
        };
        if has_session {
            MtpPerformanceCounters {
                requested_depth_total: saturating_sum(admitted.requested_depth_total, requested_depth),
                effective_depth_total: saturating_sum(admitted.effective_depth_total, effective_depth),
                ..admitted
            }
        } else {
            admitted
        }
    } else {
        counters
    }
}

/// Starts an attempt of `effective_depth` drafts after `current_token_id`: it needs the
/// request's prediction session, which asked for `requested_depth` drafts. A greedy
/// attempt is counted as admitted, and its depths added, before the session is looked up.
pub fn begin_mtp_attempt(
    request: &mut MtpRequestState,
    mode: MtpAttemptMode,
    requested_depth: MtpDraftDepth,
    effective_depth: MtpDraftDepth,
    current_token_id: u32,
) -> (start: (MtpAttemptPhase, MtpAttemptAction))
    ensures
        final(request).optional_prediction_session == old(request).optional_prediction_session,
        final(request).next_position_tokens == old(request).next_position_tokens,
        final(request).has_pending_generated_token == old(request).has_pending_generated_token,
        final(request).counters == attempt_admission_counted(
            old(request).counters,
            mode,
            old(request).optional_prediction_session is Some,
            requested_depth@ as int,
            effective_depth@ as int,
        ),
        old(request).optional_prediction_session is None ==> start == (
            MtpAttemptPhase::Finished,
            MtpAttemptAction::Fail { failure: MtpAttemptFailure::SessionMissing },
        ),
        old(request).optional_prediction_session is Some ==> start == (
            MtpAttemptPhase::AwaitingProposal { mode, effective_depth, current_token_id },
            MtpAttemptAction::ProposeDrafts { effective_depth },
        ),
{
    let greedy = match mode {
        MtpAttemptMode::Greedy => true,
        MtpAttemptMode::Sampled => false,
    };
    if greedy {
        request.counters.admitted_attempt_count = request.counters.admitted_attempt_count.saturating_add(1);
    }
    if request.optional_prediction_session.is_none() {
        return (MtpAttemptPhase::Finished, MtpAttemptAction::Fail { failure: MtpAttemptFailure::SessionMissing });
    }
    if greedy {
        request.counters.requested_depth_total = request.counters.requested_depth_total.saturating_add(
            requested_depth.get() as u64,
        );
        request.counters.effective_depth_total = request.counters.effective_depth_total.saturating_add(
            effective_depth.get() as u64,
        );
    }
    (
        MtpAttemptPhase::AwaitingProposal { mode, effective_depth, current_token_id },
        MtpAttemptAction::ProposeDrafts { effective_depth },
    )
}

/// Plans the commit of a verified window, or rolls the attempt back when the plan
/// cannot be represented.
fn continue_to_commit(
    request: &mut MtpRequestState,
    effective_depth: MtpDraftDepth,
    draft_token_ids: Vec<u32>,
    decision: MtpVerificationDecision,
    target_verify_start_position_tokens: u32,
) -> (next: (MtpAttemptPhase, MtpAttemptAction))
    requires
        decision@.accepted_count <= draft_token_ids@.len(),
        draft_token_ids@.len() > 0,
    ensures
        ({
            let counters = truncation_counted(old(request).counters, decision@);
            if target_verify_start_position_tokens + decision@.accepted_count + 1 > u32::MAX {
                falls_back(*final(request), counters, effective_depth, target_verify_start_position_tokens, next)
            } else {
                &&& final(request).optional_prediction_session == old(request).optional_prediction_session
                &&& final(request).next_position_tokens == old(request).next_position_tokens
                &&& final(request).has_pending_generated_token == old(request).has_pending_generated_token
                &&& final(request).counters == counters
                &&& next.0 == (MtpAttemptPhase::AwaitingCommit {
                    effective_depth,
                    decision,
                    draft_token_ids,
                    target_verify_start_position_tokens,
                })
                &&& next.1 matches MtpAttemptAction::CommitPrefix { plan } && commit_plan_is(
                    plan,
                    target_verify_start_position_tokens,
                    draft_token_ids@,
                    decision@.accepted_count as nat,
                    decision@.pending_target_token_id,
                )
            }
        }),
{
    if decision.was_eos_truncated() {
        request.counters.eos_truncated_prefix_count = request.counters.eos_truncated_prefix_count.saturating_add(1);
    }
    match plan_accepted_mtp_prefix_commit(target_verify_start_position_tokens, &draft_token_ids, &decision) {
        Err(_) => {
            finish_complete_attempt_rollback(request, target_verify_start_position_tokens);
            (
                MtpAttemptPhase::Finished,
                MtpAttemptAction::RestoreAndFallBack {
                    target_verify_start_position_tokens,
                    decision: MtpVerificationDecision::operational_fallback(effective_depth),
                },
            )
        },
        Ok(plan) => (
            MtpAttemptPhase::AwaitingCommit {
                effective_depth,
                decision,
                draft_token_ids,
                target_verify_start_position_tokens,
            },
            MtpAttemptAction::CommitPrefix { plan },
        ),
    }
}

/// Advances the request past a verification window of `draft_count` drafts plus the
/// current token; `None` when the position would overflow.
fn advanced_position(next_position_tokens: u32, draft_count: usize) -> (advanced: Option<u32>)
    ensures
        (draft_count + 1 > u32::MAX || next_position_tokens + draft_count + 1 > u32::MAX) ==> advanced is None,
        !(draft_count + 1 > u32::MAX || next_position_tokens + draft_count + 1 > u32::MAX) ==> advanced == Some(
            (next_position_tokens + draft_count + 1) as u32,
        ),
{
    if draft_count >= u32::MAX as usize {
        return None;
    }
    next_position_tokens.checked_add(draft_count as u32 + 1)
}

/// Bookkeeping of a successful commit (see `committed_step_is`).
fn apply_commit(
    request: &mut MtpRequestState,
    decision: MtpVerificationDecision,
    draft_token_ids: Vec<u32>,
    target_verify_start_position_tokens: u32,
) -> (next: (MtpAttemptPhase, MtpAttemptAction))
    ensures
        committed_step_is(
            *old(request),
            *final(request),
            decision,
            draft_token_ids@,
            target_verify_start_position_tokens,
            next,
        ),
{
    let accepted_count = decision.accepted_count() as usize;
    if accepted_count > draft_token_ids.len() {
        return (
            MtpAttemptPhase::Finished,
            MtpAttemptAction::Fail { failure: MtpAttemptFailure::InconsistentVerificationVectors },
        );
    }
    let retained_target_position_tokens = match target_verify_start_position_tokens.checked_add(
        accepted_count as u32 + 1,
    ) {
        Some(position) => position,
        None => {
            return (MtpAttemptPhase::Finished, MtpAttemptAction::Fail { failure: MtpAttemptFailure::PositionOverflow });
        },
    };
    if accepted_count > 0 && request.optional_prediction_session.is_none() {
        return (MtpAttemptPhase::Finished, MtpAttemptAction::Fail { failure: MtpAttemptFailure::SessionMissing });
    }
    request.next_position_tokens = retained_target_position_tokens;
    request.has_pending_generated_token = decision.pending_target_token_id().is_some();
    match &mut request.optional_prediction_session {
        Some(session) => {
            let ghost queued_before = session@.verified_generated_token_ids;
            let mut position: usize = 0;
            while position < accepted_count
                invariant
                    accepted_count <= draft_token_ids@.len(),
                    position <= accepted_count,
                    session@.verified_generated_token_ids == queued_before + draft_token_ids@.subrange(
                        0,
                        position as int,
                    ),
                    session@.force_next_draft_rejection_for_tests == old(request).optional_prediction_session->0@.force_next_draft_rejection_for_tests,
                decreases accepted_count - position,
            {
                session.queue_verified_generated_token_id(draft_token_ids[position]);
                position += 1;
                assert(session@.verified_generated_token_ids =~= queued_before + draft_token_ids@.subrange(
                    0,
                    position as int,
                ));
            }
        },
        None => {},
    }
    record_mtp_outcome(&mut request.counters, &decision);
    (MtpAttemptPhase::Finished, MtpAttemptAction::Finish { decision })
}

/// Decides the next step of an attempt from what the last outside step reported.
pub fn mtp_attempt_step(
    request: &mut MtpRequestState,
    phase: MtpAttemptPhase,
    event: MtpAttemptEvent,
    end_of_sequence_token_ids: &[u32],
) -> (next: (MtpAttemptPhase, MtpAttemptAction))
    requires
        forced_rejection_has_a_draft(phase, event, old(request).optional_prediction_session),
    ensures
        attempt_step_is(*old(request), *final(request), phase, event, end_of_sequence_token_ids@, next),
{
    match phase {
        MtpAttemptPhase::AwaitingProposal { mode, effective_depth, current_token_id } => match event {
            MtpAttemptEvent::ProposalFailed => {
                request.optional_prediction_session = None;
                request.counters.operational_fallback_count = request.counters.operational_fallback_count.saturating_add(1);
                (
                    MtpAttemptPhase::Finished,
                    MtpAttemptAction::Finish { decision: MtpVerificationDecision::operational_fallback(effective_depth) },
                )
            },
            MtpAttemptEvent::Proposed { draft_token_ids } => {
                if request.optional_prediction_session.is_none() {
                    return (MtpAttemptPhase::Finished, MtpAttemptAction::Fail { failure: MtpAttemptFailure::SessionMissing });
                }
                request.counters.proposed_draft_count = request.counters.proposed_draft_count.saturating_add(
                    draft_token_ids.len() as u64,
                );
                let forced_draft_rejection = match mode {
                    MtpAttemptMode::Sampled => match &mut request.optional_prediction_session {
                        Some(session) => session.take_forced_draft_rejection_for_tests(),
                        None => false,
                    },
                    MtpAttemptMode::Greedy => false,
                };
                let target_verify_start_position_tokens = request.next_position_tokens;
                let mut verifier_input_token_ids: Vec<u32> = Vec::new();
                verifier_input_token_ids.push(current_token_id);
                let mut index: usize = 0;
                while index < draft_token_ids.len()
                    invariant
                        index <= draft_token_ids@.len(),
                        verifier_input_token_ids@ == seq![current_token_id] + draft_token_ids@.subrange(0, index as int),
                    decreases draft_token_ids.len() - index,
                {
                    verifier_input_token_ids.push(draft_token_ids[index]);
                    index += 1;
                    assert(verifier_input_token_ids@ =~= seq![current_token_id] + draft_token_ids@.subrange(0, index as int));
                }
                assert(draft_token_ids@.subrange(0, index as int) =~= draft_token_ids@);
                (
                    MtpAttemptPhase::AwaitingVerification {
                        mode,
                        effective_depth,
                        draft_token_ids,
                        target_verify_start_position_tokens,
                    },
                    MtpAttemptAction::VerifyWindow {
                        verifier_input_token_ids,
                        target_verify_start_position_tokens,
                        forced_draft_rejection,
                    },
                )
            },
            _ => (MtpAttemptPhase::Finished, MtpAttemptAction::Fail { failure: MtpAttemptFailure::UnexpectedEvent }),
        },
        MtpAttemptPhase::AwaitingVerification {
            mode,
            effective_depth,
            draft_token_ids,
            target_verify_start_position_tokens,
        } => match event {
            MtpAttemptEvent::VerificationFailed => {
                finish_complete_attempt_rollback(request, target_verify_start_position_tokens);
                (
                    MtpAttemptPhase::Finished,
                    MtpAttemptAction::RestoreAndFallBack {
                        target_verify_start_position_tokens,
                        decision: MtpVerificationDecision::operational_fallback(effective_depth),
                    },
                )
            },
            MtpAttemptEvent::GreedyVerified { target_token_ids } => {
                if mode != MtpAttemptMode::Greedy {
                    return (MtpAttemptPhase::Finished, MtpAttemptAction::Fail { failure: MtpAttemptFailure::UnexpectedEvent });
                }
                let advanced = match advanced_position(request.next_position_tokens, draft_token_ids.len()) {
                    Some(position) => position,
                    None => {
                        return (
                            MtpAttemptPhase::Finished,
                            MtpAttemptAction::Fail { failure: MtpAttemptFailure::PositionOverflow },
                        );
                    },
                };
                request.next_position_tokens = advanced;
                let forced = match &mut request.optional_prediction_session {
                    Some(session) => session.take_forced_draft_rejection_for_tests(),
                    None => false,
                };
                let ghost target = forced_target(forced, draft_token_ids@, target_token_ids@);
                match verify_window_with_optional_forced_rejection(
                    forced,
                    effective_depth,
                    &draft_token_ids,
                    target_token_ids,
                    end_of_sequence_token_ids,
                ) {
                    Err(_) => (
                        MtpAttemptPhase::Finished,
                        MtpAttemptAction::Fail { failure: MtpAttemptFailure::InconsistentVerificationVectors },
                    ),
                    Ok(decision) => {
                        let drafts_per_window = effective_depth.get();
                        assert(draft_token_ids@.len() == drafts_per_window);
                        proof {
                            lemma_greedy_decision_accepts_matching_prefix(
                                effective_depth@,
                                draft_token_ids@,
                                target,
                                end_of_sequence_token_ids@,
                            );
                        }
                        continue_to_commit(
                            request,
                            effective_depth,
                            draft_token_ids,
                            decision,
                            target_verify_start_position_tokens,
                        )
                    },
                }
            },
            MtpAttemptEvent::SampledVerified { accepted_coin_flags, post_prefix_token_id } => {
                if mode != MtpAttemptMode::Sampled {
                    return (MtpAttemptPhase::Finished, MtpAttemptAction::Fail { failure: MtpAttemptFailure::UnexpectedEvent });
                }
                let advanced = match advanced_position(request.next_position_tokens, draft_token_ids.len()) {
                    Some(position) => position,
                    None => {
                        return (
                            MtpAttemptPhase::Finished,
                            MtpAttemptAction::Fail { failure: MtpAttemptFailure::PositionOverflow },
                        );
                    },
                };
                request.next_position_tokens = advanced;
                match qwen3_5_mtp_sampled_verification_decision(
                    effective_depth,
                    &draft_token_ids,
                    &accepted_coin_flags,
                    Some(post_prefix_token_id),
                    end_of_sequence_token_ids,
                ) {
                    Err(_) => (
                        MtpAttemptPhase::Finished,
                        MtpAttemptAction::Fail { failure: MtpAttemptFailure::InconsistentVerificationVectors },
                    ),
                    Ok(decision) => {
                        let drafts_per_window = effective_depth.get();
                        assert(draft_token_ids@.len() == drafts_per_window);
                        proof {
                            lemma_sampled_decision_accepts_coin_prefix(
                                effective_depth@,
                                draft_token_ids@,
                                accepted_coin_flags@,
                                post_prefix_token_id,
                                end_of_sequence_token_ids@,
                            );
                        }
                        continue_to_commit(
                            request,
                            effective_depth,
                            draft_token_ids,
                            decision,
                            target_verify_start_position_tokens,
                        )
                    },
                }
            },
            _ => (MtpAttemptPhase::Finished, MtpAttemptAction::Fail { failure: MtpAttemptFailure::UnexpectedEvent }),
        },
        MtpAttemptPhase::AwaitingCommit {
            effective_depth,
            decision,
            draft_token_ids,
            target_verify_start_position_tokens,
        } => match event {
            MtpAttemptEvent::CommitFailed => {
                finish_complete_attempt_rollback(request, target_verify_start_position_tokens);
                (
                    MtpAttemptPhase::Finished,
                    MtpAttemptAction::RestoreAndFallBack {
                        target_verify_start_position_tokens,
                        decision: MtpVerificationDecision::operational_fallback(effective_depth),
                    },
                )
            },
            MtpAttemptEvent::Committed => apply_commit(request, decision, draft_token_ids, target_verify_start_position_tokens),
            _ => (MtpAttemptPhase::Finished, MtpAttemptAction::Fail { failure: MtpAttemptFailure::UnexpectedEvent }),
        },
        MtpAttemptPhase::Finished => (
            MtpAttemptPhase::Finished,
            MtpAttemptAction::Fail { failure: MtpAttemptFailure::UnexpectedEvent },
        ),
    }
}

/// Proposal law: once drafts are proposed for a request with a prediction session, the
/// target is asked to verify the current token followed by exactly those drafts, from
/// the request's current position, and the position does not move yet.
pub proof fn lemma_proposed_drafts_are_verified_after_the_current_token(
    before: MtpRequestState,
    after: MtpRequestState,
    mode: MtpAttemptMode,
    effective_depth: MtpDraftDepth,
    current_token_id: u32,
    draft_token_ids: Vec<u32>,
    eos: Seq<u32>,
    next: (MtpAttemptPhase, MtpAttemptAction),
)
    requires
        attempt_step_is(
            before,
            after,
            MtpAttemptPhase::AwaitingProposal { mode, effective_depth, current_token_id },
            MtpAttemptEvent::Proposed { draft_token_ids },
            eos,
            next,
        ),
        before.optional_prediction_session is Some,
    ensures
        next.1 matches MtpAttemptAction::VerifyWindow { verifier_input_token_ids, target_verify_start_position_tokens, .. }
            && verifier_input_token_ids@.len() == draft_token_ids@.len() + 1 && verifier_input_token_ids@[0]
            == current_token_id && (forall|i: int|
            0 <= i < draft_token_ids@.len() ==> #[trigger] verifier_input_token_ids@[i + 1] == draft_token_ids@[i])
            && target_verify_start_position_tokens == before.next_position_tokens,
        after.next_position_tokens == before.next_position_tokens,
        after.optional_prediction_session is Some,
{
    if let MtpAttemptAction::VerifyWindow { verifier_input_token_ids, .. } = next.1 {
        assert forall|i: int| 0 <= i < draft_token_ids@.len() implies #[trigger] verifier_input_token_ids@[i + 1]
            == draft_token_ids@[i] by {
            assert((seq![current_token_id] + draft_token_ids@)[i + 1] == draft_token_ids@[i]);
        }
    }
}

/// Rollback law: when target verification or the commit fails, the request is rolled
/// back to the window's start position with no pending token, prediction is quarantined
/// for the rest of the request, exactly one operational fallback is counted, and the
/// caller is told to restore state to that start position.
pub proof fn lemma_failed_window_rolls_back_to_its_start(
    before: MtpRequestState,
    after: MtpRequestState,
    phase: MtpAttemptPhase,
    event: MtpAttemptEvent,
    eos: Seq<u32>,
    next: (MtpAttemptPhase, MtpAttemptAction),
    start: u32,
)
    requires
        attempt_step_is(before, after, phase, event, eos, next),
        (phase matches MtpAttemptPhase::AwaitingVerification { target_verify_start_position_tokens, .. }
            && target_verify_start_position_tokens == start && event == MtpAttemptEvent::VerificationFailed) || (
        phase matches MtpAttemptPhase::AwaitingCommit { target_verify_start_position_tokens, .. }
            && target_verify_start_position_tokens == start && event == MtpAttemptEvent::CommitFailed),
    ensures
        after.optional_prediction_session is None,
        after.next_position_tokens == start,
        !after.has_pending_generated_token,
        after.counters.operational_fallback_count == (if before.counters.operational_fallback_count == u64::MAX {
            u64::MAX as int
        } else {
            before.counters.operational_fallback_count + 1
        }),
        after.counters.accepted_draft_count == before.counters.accepted_draft_count,
        next.0 == MtpAttemptPhase::Finished,
        next.1 matches MtpAttemptAction::RestoreAndFallBack { target_verify_start_position_tokens, decision }
            && target_verify_start_position_tokens == start && decision@.operational_fallback
            && decision@.accepted_count == 0,
{
}

/// Commit law: a committed window moves decoding past the window's start by the accepted
/// drafts plus the target's own token, queues exactly the accepted drafts (in order)
/// behind what was already queued, leaves a target token pending unless the window was
/// cut at an end-of-sequence draft, counts the accepted drafts, and finishes with the
/// window's decision.
pub proof fn lemma_commit_advances_past_the_accepted_drafts(
    before: MtpRequestState,
    after: MtpRequestState,
    effective_depth: MtpDraftDepth,
    decision: MtpVerificationDecision,
    draft_token_ids: Vec<u32>,
    start: u32,
    eos: Seq<u32>,
    next: (MtpAttemptPhase, MtpAttemptAction),
)
    requires
        attempt_step_is(
            before,
            after,
            MtpAttemptPhase::AwaitingCommit {
                effective_depth,
                decision,
                draft_token_ids,
                target_verify_start_position_tokens: start,
            },
            MtpAttemptEvent::Committed,
            eos,
            next,
        ),
        decision@.accepted_count <= draft_token_ids@.len(),
        start + decision@.accepted_count + 1 <= u32::MAX,
        before.optional_prediction_session is Some,
    ensures
        after.next_position_tokens - start == decision@.accepted_count + 1,
        after.has_pending_generated_token <==> decision@.pending_target_token_id is Some,
        before.optional_prediction_session matches Some(s) && after.optional_prediction_session matches Some(t) && {
            let queued = t@.verified_generated_token_ids;
            let earlier = s@.verified_generated_token_ids;
            &&& queued.len() == earlier.len() + decision@.accepted_count
            &&& forall|i: int| 0 <= i < earlier.len() ==> #[trigger] queued[i] == earlier[i]
            &&& forall|i: int| 0 <= i < decision@.accepted_count ==> #[trigger] queued[earlier.len() + i]
                == draft_token_ids@[i]
        },
        after.counters.accepted_draft_count == (if before.counters.accepted_draft_count + decision@.accepted_count
            > u64::MAX {
            u64::MAX as int
        } else {
            before.counters.accepted_draft_count + decision@.accepted_count
        }),
        next == (MtpAttemptPhase::Finished, MtpAttemptAction::Finish { decision }),
{
    let s = before.optional_prediction_session->0;
    let t = after.optional_prediction_session->0;
    let earlier = s@.verified_generated_token_ids;
    let accepted = decision@.accepted_count as int;
    assert(t@.verified_generated_token_ids == earlier + draft_token_ids@.subrange(0, accepted));
    assert forall|i: int| 0 <= i < accepted implies #[trigger] t@.verified_generated_token_ids[earlier.len() + i]
        == draft_token_ids@[i] by {
        assert((earlier + draft_token_ids@.subrange(0, accepted))[earlier.len() + i] == draft_token_ids@.subrange(
            0,
            accepted,
        )[i]);
    }
}

} // verus!
