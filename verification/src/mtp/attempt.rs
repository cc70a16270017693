//! Request-local bookkeeping around one MTP proposal-and-verification attempt.

use vstd::prelude::*;
use std::collections::VecDeque;

use crate::mtp::depth::MtpDraftDepth;
use crate::mtp::eligibility::{prompt_leaves_prediction_work, qwen3_5_mtp_session_is_eligible};
use crate::mtp::verification_decision::{
    MtpVerificationDecision, MtpVerificationDecisionError, MtpVerificationDecisionView, greedy_decision_view,
    qwen3_5_mtp_verification_decision,
};

verus! {

/// MTP performance counters of one request. Every counter saturates at `u64::MAX`.
#[derive(Clone, Copy, Debug, PartialEq, Eq)]
pub struct MtpPerformanceCounters {
    pub accepted_draft_count: u64,
    pub rejected_draft_count: u64,
    /// Drafts proposed at window positions one to three.
    pub proposed_draft_position_counts: [u64; 3],
    /// Drafts accepted at window positions one to three.
    pub accepted_draft_position_counts: [u64; 3],
    /// Drafts rejected at window positions one to three.
    pub rejected_draft_position_counts: [u64; 3],
    pub operational_fallback_count: u64,
    pub memory_admission_fallback_count: u64,
    pub prompt_history_initialization_fallback_count: u64,
    pub terminal_history_token_count: u64,
    /// Drafts produced by successful proposals.
    pub proposed_draft_count: u64,
    /// Windows whose accepted prefix was cut at an end-of-sequence draft.
    pub eos_truncated_prefix_count: u64,
    /// Greedy attempts admitted to run.
    pub admitted_attempt_count: u64,
    /// Sum of the depths the prediction sessions requested, over started greedy attempts.
    pub requested_depth_total: u64,
    /// Sum of the depths actually drafted, over started greedy attempts.
    pub effective_depth_total: u64,
}

pub open spec fn saturating_sum(count: u64, amount: int) -> u64 {
    if count + amount > u64::MAX {
        u64::MAX
    } else {
        (count + amount) as u64
    }
}

/// Per-position counts after recording one window: position `p` (below three) counts a
/// proposal when the window proposed more than `p` drafts, and an acceptance or a
/// rejection depending on whether `p` is below the accepted count.
pub open spec fn position_counts_after(
    counts: Seq<u64>,
    proposed: int,
    accepted: int,
    counts_acceptances: bool,
) -> Seq<u64> {
    Seq::new(
        3,
        |p: int|
            if p < proposed && (p < accepted) == counts_acceptances {
                saturating_sum(counts[p], 1)
            } else {
                counts[p]
            },
    )
}

pub open spec fn proposed_position_counts_after(counts: Seq<u64>, proposed: int) -> Seq<u64> {
    Seq::new(3, |p: int| if p < proposed { saturating_sum(counts[p], 1) } else { counts[p] })
}

fn increment(count: u64) -> (incremented: u64)
    ensures
        incremented == saturating_sum(count, 1),
{
    count.saturating_add(1)
}

impl MtpPerformanceCounters {
    /// All counters at zero.
    pub fn new() -> (counters: Self)
        ensures
            counters.accepted_draft_count == 0,
            counters.rejected_draft_count == 0,
            counters.proposed_draft_position_counts@ == seq![0u64, 0u64, 0u64],
            counters.accepted_draft_position_counts@ == seq![0u64, 0u64, 0u64],
            counters.rejected_draft_position_counts@ == seq![0u64, 0u64, 0u64],
            counters.operational_fallback_count == 0,
            counters.memory_admission_fallback_count == 0,
            counters.prompt_history_initialization_fallback_count == 0,
            counters.terminal_history_token_count == 0,
            counters.proposed_draft_count == 0,
            counters.eos_truncated_prefix_count == 0,
            counters.admitted_attempt_count == 0,
            counters.requested_depth_total == 0,
            counters.effective_depth_total == 0,
    {
        let counters = MtpPerformanceCounters {
            accepted_draft_count: 0,
            rejected_draft_count: 0,
            proposed_draft_position_counts: [0, 0, 0],
            accepted_draft_position_counts: [0, 0, 0],
            rejected_draft_position_counts: [0, 0, 0],
            operational_fallback_count: 0,
            memory_admission_fallback_count: 0,
            prompt_history_initialization_fallback_count: 0,
            terminal_history_token_count: 0,
            proposed_draft_count: 0,
            eos_truncated_prefix_count: 0,
            admitted_attempt_count: 0,
            requested_depth_total: 0,
            effective_depth_total: 0,
        };
        assert(counters.proposed_draft_position_counts@ =~= seq![0u64, 0u64, 0u64]);
        assert(counters.accepted_draft_position_counts@ =~= seq![0u64, 0u64, 0u64]);
        assert(counters.rejected_draft_position_counts@ =~= seq![0u64, 0u64, 0u64]);
        counters
    }
}

/// The counters after recording one completed window with outcome `decision`.
pub open spec fn outcome_recorded(
    before: MtpPerformanceCounters,
    after: MtpPerformanceCounters,
    decision: MtpVerificationDecisionView,
) -> bool {
    &&& after.accepted_draft_count == saturating_sum(before.accepted_draft_count, decision.accepted_count as int)
    &&& after.rejected_draft_count == saturating_sum(
        before.rejected_draft_count,
        if decision.proposed_count >= decision.accepted_count {
            decision.proposed_count - decision.accepted_count
        } else {
            0
        },
    )
    &&& after.proposed_draft_position_counts@ == proposed_position_counts_after(
        before.proposed_draft_position_counts@,
        decision.proposed_count as int,
    )
    &&& after.accepted_draft_position_counts@ == position_counts_after(
        before.accepted_draft_position_counts@,
        decision.proposed_count as int,
        decision.accepted_count as int,
        true,
    )
    &&& after.rejected_draft_position_counts@ == position_counts_after(
        before.rejected_draft_position_counts@,
        decision.proposed_count as int,
        decision.accepted_count as int,
        false,
    )
    &&& after.operational_fallback_count == before.operational_fallback_count
    &&& after.memory_admission_fallback_count == before.memory_admission_fallback_count
    &&& after.prompt_history_initialization_fallback_count == before.prompt_history_initialization_fallback_count
    &&& after.terminal_history_token_count == before.terminal_history_token_count
    &&& after.proposed_draft_count == before.proposed_draft_count
    &&& after.eos_truncated_prefix_count == before.eos_truncated_prefix_count
    &&& after.admitted_attempt_count == before.admitted_attempt_count
    &&& after.requested_depth_total == before.requested_depth_total
    &&& after.effective_depth_total == before.effective_depth_total
}

/// Records the accepted and rejected drafts of one completed window.
pub fn record_mtp_outcome(counters: &mut MtpPerformanceCounters, decision: &MtpVerificationDecision)
    ensures
        outcome_recorded(*old(counters), *final(counters), decision@),
{
    let accepted_count = decision.accepted_count() as u64;
    let proposed_count = decision.proposed_count() as u64;
    counters.accepted_draft_count = counters.accepted_draft_count.saturating_add(accepted_count);
    counters.rejected_draft_count = counters.rejected_draft_count.saturating_add(
        proposed_count.saturating_sub(accepted_count),
    );
    let proposed = decision.proposed_count() as usize;
    let accepted = decision.accepted_count() as usize;
    let mut draft_position: usize = 0;
    while draft_position < 3 && draft_position < proposed
        invariant
            draft_position <= 3,
            proposed == decision@.proposed_count,
            accepted == decision@.accepted_count,
            forall|p: int|
                0 <= p < 3 ==> #[trigger] counters.proposed_draft_position_counts@[p] == if p < draft_position {
                    proposed_position_counts_after(old(counters).proposed_draft_position_counts@, proposed as int)[p]
                } else {
                    old(counters).proposed_draft_position_counts@[p]
                },
            forall|p: int|
                0 <= p < 3 ==> #[trigger] counters.accepted_draft_position_counts@[p] == if p < draft_position {
                    position_counts_after(
                        old(counters).accepted_draft_position_counts@,
                        proposed as int,
                        accepted as int,
                        true,
                    )[p]
                } else {
                    old(counters).accepted_draft_position_counts@[p]
                },
            forall|p: int|
                0 <= p < 3 ==> #[trigger] counters.rejected_draft_position_counts@[p] == if p < draft_position {
                    position_counts_after(
                        old(counters).rejected_draft_position_counts@,
                        proposed as int,
                        accepted as int,
                        false,
                    )[p]
                } else {
                    old(counters).rejected_draft_position_counts@[p]
                },
            counters.accepted_draft_count == saturating_sum(
                old(counters).accepted_draft_count,
                decision@.accepted_count as int,
            ),
            counters.rejected_draft_count == saturating_sum(
                old(counters).rejected_draft_count,
                if decision@.proposed_count >= decision@.accepted_count {
                    decision@.proposed_count - decision@.accepted_count
                } else {
                    0
                },
            ),
            counters.operational_fallback_count == old(counters).operational_fallback_count,
            counters.memory_admission_fallback_count == old(counters).memory_admission_fallback_count,
            counters.prompt_history_initialization_fallback_count == old(
                counters,
            ).prompt_history_initialization_fallback_count,
            counters.terminal_history_token_count == old(counters).terminal_history_token_count,
            counters.proposed_draft_count == old(counters).proposed_draft_count,
            counters.eos_truncated_prefix_count == old(counters).eos_truncated_prefix_count,
            counters.admitted_attempt_count == old(counters).admitted_attempt_count,
            counters.requested_depth_total == old(counters).requested_depth_total,
            counters.effective_depth_total == old(counters).effective_depth_total,
        decreases 3 - draft_position,
    {
        let proposed_count_here = increment(counters.proposed_draft_position_counts[draft_position]);
        counters.proposed_draft_position_counts.set(draft_position, proposed_count_here);
        if draft_position < accepted {
            let accepted_here = increment(counters.accepted_draft_position_counts[draft_position]);
            counters.accepted_draft_position_counts.set(draft_position, accepted_here);
        } else {
            let rejected_here = increment(counters.rejected_draft_position_counts[draft_position]);
            counters.rejected_draft_position_counts.set(draft_position, rejected_here);
        }
        draft_position += 1;
    }
    assert(counters.proposed_draft_position_counts@ =~= proposed_position_counts_after(
        old(counters).proposed_draft_position_counts@,
        proposed as int,
    ));
    assert(counters.accepted_draft_position_counts@ =~= position_counts_after(
        old(counters).accepted_draft_position_counts@,
        proposed as int,
        accepted as int,
        true,
    ));
    assert(counters.rejected_draft_position_counts@ =~= position_counts_after(
        old(counters).rejected_draft_position_counts@,
        proposed as int,
        accepted as int,
        false,
    ));
}


/// Law of the outcome counters: at each of the first three window positions a proposed
/// draft is counted exactly once, either as accepted or as rejected (when no counter
/// is saturated).
pub proof fn lemma_each_proposed_position_is_accepted_or_rejected(
    proposed_counts: Seq<u64>,
    accepted_counts: Seq<u64>,
    rejected_counts: Seq<u64>,
    proposed: int,
    accepted: int,
    position: int,
)
    requires
        proposed_counts.len() == 3,
        accepted_counts.len() == 3,
        rejected_counts.len() == 3,
        0 <= position < 3,
        proposed_counts[position] < u64::MAX,
        accepted_counts[position] < u64::MAX,
        rejected_counts[position] < u64::MAX,
    ensures
        (position_counts_after(accepted_counts, proposed, accepted, true)[position] - accepted_counts[position])
            + (position_counts_after(rejected_counts, proposed, accepted, false)[position]
            - rejected_counts[position]) == proposed_position_counts_after(proposed_counts, proposed)[position]
            - proposed_counts[position],
{
}

/// Request-local MTP session: the verified tokens queued for emission and the test hook
/// that forces the next draft to be rejected.
#[derive(Debug)]
pub struct Qwen3_5MultiTokenPredictionRequest {
    verified_generated_token_ids: VecDeque<u32>,
    force_next_draft_rejection_for_tests: bool,
}

/// Mathematical content of a prediction session.
pub struct Qwen3_5MultiTokenPredictionRequestView {
    pub verified_generated_token_ids: Seq<u32>,
    pub force_next_draft_rejection_for_tests: bool,
}

impl View for Qwen3_5MultiTokenPredictionRequest {
    type V = Qwen3_5MultiTokenPredictionRequestView;

    closed spec fn view(&self) -> Qwen3_5MultiTokenPredictionRequestView {
        Qwen3_5MultiTokenPredictionRequestView {
            verified_generated_token_ids: self.verified_generated_token_ids@,
            force_next_draft_rejection_for_tests: self.force_next_draft_rejection_for_tests,
        }
    }
}

impl Qwen3_5MultiTokenPredictionRequest {
    /// A fresh session with nothing queued.
    pub fn new() -> (session: Self)
        ensures
            session@.verified_generated_token_ids == Seq::<u32>::empty(),
            !session@.force_next_draft_rejection_for_tests,
    {
        Qwen3_5MultiTokenPredictionRequest {
            verified_generated_token_ids: VecDeque::new(),
            force_next_draft_rejection_for_tests: false,
        }
    }

    /// Opens a fresh session exactly when the resolved runtime and the request permit
    /// optional prediction (see `qwen3_5_mtp_session_is_eligible`).
    pub fn new_if_eligible(
        mtp_enabled: bool,
        mtp_runtime_is_active: bool,
        model_has_mtp_weights: bool,
        sampling_is_greedy: bool,
        has_precomputed_visual_embeddings: bool,
        has_processed_visual_images: bool,
        persistent_prompt_cache_is_available: bool,
        prompt_token_count: usize,
        restored_prompt_token_count: u32,
    ) -> (session: Option<Self>)
        ensures
            session is Some <==> (mtp_enabled && mtp_runtime_is_active && model_has_mtp_weights
                && sampling_is_greedy && !has_precomputed_visual_embeddings
                && !has_processed_visual_images && !persistent_prompt_cache_is_available
                && prompt_leaves_prediction_work(restored_prompt_token_count, prompt_token_count)),
            session matches Some(s) ==> s@.verified_generated_token_ids == Seq::<u32>::empty()
                && !s@.force_next_draft_rejection_for_tests,
    {
        if qwen3_5_mtp_session_is_eligible(
            mtp_enabled,
            mtp_runtime_is_active,
            model_has_mtp_weights,
            sampling_is_greedy,
            has_precomputed_visual_embeddings,
            has_processed_visual_images,
            persistent_prompt_cache_is_available,
            prompt_token_count,
            restored_prompt_token_count,
        ) {
            Some(Self::new())
        } else {
            None
        }
    }

    pub fn has_verified_generated_token_ids(&self) -> (has: bool)
        ensures
            has == (self@.verified_generated_token_ids.len() > 0),
    {
        self.verified_generated_token_ids.len() > 0
    }

    /// Emits the oldest queued verified token.
    pub fn take_verified_generated_token_id(&mut self) -> (token_id: Option<u32>)
        ensures
            old(self)@.verified_generated_token_ids.len() == 0 ==> token_id is None
                && final(self)@.verified_generated_token_ids == old(self)@.verified_generated_token_ids,
            old(self)@.verified_generated_token_ids.len() > 0 ==> token_id == Some(
                old(self)@.verified_generated_token_ids[0],
            ) && final(self)@.verified_generated_token_ids == old(self)@.verified_generated_token_ids.drop_first(),
            final(self)@.force_next_draft_rejection_for_tests == old(self)@.force_next_draft_rejection_for_tests,
    {
        self.verified_generated_token_ids.pop_front()
    }

    pub fn clear_verified_generated_token_ids(&mut self)
        ensures
            final(self)@.verified_generated_token_ids == Seq::<u32>::empty(),
            final(self)@.force_next_draft_rejection_for_tests == old(self)@.force_next_draft_rejection_for_tests,
    {
        self.verified_generated_token_ids.clear();
    }

    pub fn queue_verified_generated_token_id(&mut self, token_id: u32)
        ensures
            final(self)@.verified_generated_token_ids == old(self)@.verified_generated_token_ids.push(token_id),
            final(self)@.force_next_draft_rejection_for_tests == old(self)@.force_next_draft_rejection_for_tests,
    {
        self.verified_generated_token_ids.push_back(token_id);
    }

    pub fn force_next_draft_rejection_for_tests(&mut self)
        ensures
            final(self)@.force_next_draft_rejection_for_tests,
            final(self)@.verified_generated_token_ids == old(self)@.verified_generated_token_ids,
    {
        self.force_next_draft_rejection_for_tests = true;
    }

    /// Consumes the forced-rejection request.
    pub fn take_forced_draft_rejection_for_tests(&mut self) -> (forced: bool)
        ensures
            forced == old(self)@.force_next_draft_rejection_for_tests,
            !final(self)@.force_next_draft_rejection_for_tests,
            final(self)@.verified_generated_token_ids == old(self)@.verified_generated_token_ids,
    {
        let forced = self.force_next_draft_rejection_for_tests;
        self.force_next_draft_rejection_for_tests = false;
        forced
    }
}

/// MTP-relevant state of one active request.
#[derive(Debug)]
pub struct MtpRequestState {
    pub optional_prediction_session: Option<Qwen3_5MultiTokenPredictionRequest>,
    pub next_position_tokens: u32,
    pub has_pending_generated_token: bool,
    pub counters: MtpPerformanceCounters,
}

/// Emits the next queued verified token of the prediction session, if any.
pub fn take_queued_prediction_token(active_request: &mut MtpRequestState) -> (token_id: Option<u32>)
    ensures
        old(active_request).optional_prediction_session is None ==> token_id is None
            && final(active_request).optional_prediction_session is None,
        old(active_request).optional_prediction_session matches Some(session) ==> {
            &&& final(active_request).optional_prediction_session matches Some(after)
            &&& after@.force_next_draft_rejection_for_tests == session@.force_next_draft_rejection_for_tests
            &&& session@.verified_generated_token_ids.len() > 0 ==> token_id == Some(
                session@.verified_generated_token_ids[0],
            ) && after@.verified_generated_token_ids == session@.verified_generated_token_ids.drop_first()
            &&& session@.verified_generated_token_ids.len() == 0 ==> token_id is None
                && after@.verified_generated_token_ids == session@.verified_generated_token_ids
        },
        final(active_request).next_position_tokens == old(active_request).next_position_tokens,
        final(active_request).has_pending_generated_token == old(active_request).has_pending_generated_token,
        final(active_request).counters == old(active_request).counters,
{
    match &mut active_request.optional_prediction_session {
        Some(session) => session.take_verified_generated_token_id(),
        None => None,
    }
}

/// Quarantines prediction for the rest of the request after a memory-admission failure.
pub fn disable_prediction_after_memory_admission_failure(active_request: &mut MtpRequestState)
    ensures
        final(active_request).optional_prediction_session is None,
        final(active_request).next_position_tokens == old(active_request).next_position_tokens,
        final(active_request).has_pending_generated_token == old(active_request).has_pending_generated_token,
        final(active_request).counters == (MtpPerformanceCounters {
            memory_admission_fallback_count: saturating_sum(
                old(active_request).counters.memory_admission_fallback_count,
                1,
            ),
            ..old(active_request).counters
        }),
{
    active_request.optional_prediction_session = None;
    active_request.counters.memory_admission_fallback_count = increment(
        active_request.counters.memory_admission_fallback_count,
    );
}

/// Quarantines prediction after an optional feedback-injection failure.
pub fn disable_prediction_after_optional_injection_failure(active_request: &mut MtpRequestState)
    ensures
        final(active_request).optional_prediction_session is None,
        final(active_request).next_position_tokens == old(active_request).next_position_tokens,
        final(active_request).has_pending_generated_token == old(active_request).has_pending_generated_token,
        final(active_request).counters == old(active_request).counters,
{
    active_request.optional_prediction_session = None;
}

/// Bookkeeping after target and predictor state were restored to the attempt's start:
/// decoding resumes at the verified start position with no pending token, prediction is
/// quarantined for the rest of the request, and the fallback is counted.
pub fn finish_complete_attempt_rollback(active_request: &mut MtpRequestState, target_verify_start_position_tokens: u32)
    ensures
        final(active_request).optional_prediction_session is None,
        final(active_request).next_position_tokens == target_verify_start_position_tokens,
        !final(active_request).has_pending_generated_token,
        final(active_request).counters == (MtpPerformanceCounters {
            operational_fallback_count: saturating_sum(old(active_request).counters.operational_fallback_count, 1),
            ..old(active_request).counters
        }),
{
    active_request.next_position_tokens = target_verify_start_position_tokens;
    active_request.has_pending_generated_token = false;
    active_request.optional_prediction_session = None;
    active_request.counters.operational_fallback_count = increment(
        active_request.counters.operational_fallback_count,
    );
}

/// Counts a prompt-history initialization that fell back to target-only decoding.
pub fn record_prompt_history_initialization_fallback(counters: &mut MtpPerformanceCounters)
    ensures
        *final(counters) == (MtpPerformanceCounters {
            prompt_history_initialization_fallback_count: saturating_sum(
                old(counters).prompt_history_initialization_fallback_count,
                1,
            ),
            ..*old(counters)
        }),
{
    counters.prompt_history_initialization_fallback_count = increment(
        counters.prompt_history_initialization_fallback_count,
    );
}

/// Counts the prompt tokens whose MTP history was captured at the terminal chunk.
pub fn record_terminal_history_token_count(counters: &mut MtpPerformanceCounters, terminal_history_token_count: usize)
    ensures
        *final(counters) == (MtpPerformanceCounters {
            terminal_history_token_count: saturating_sum(
                old(counters).terminal_history_token_count,
                terminal_history_token_count as int,
            ),
            ..*old(counters)
        }),
{
    let amount = terminal_history_token_count as u64;
    counters.terminal_history_token_count = counters.terminal_history_token_count.saturating_add(amount);
}

/// Verifies a greedy window; when a test forced a rejection, the target's first token
/// is first replaced by one that differs from the first draft.
pub fn verify_window_with_optional_forced_rejection(
    forced_draft_rejection: bool,
    effective_depth: MtpDraftDepth,
    draft_token_ids: &[u32],
    target_token_ids: Vec<u32>,
    end_of_sequence_token_ids: &[u32],
) -> (result: Result<MtpVerificationDecision, MtpVerificationDecisionError>)
    requires
        forced_draft_rejection && target_token_ids@.len() > 0 ==> draft_token_ids@.len() > 0,
    ensures
        ({
            let target = if forced_draft_rejection && target_token_ids@.len() > 0 {
                target_token_ids@.update(0, (if draft_token_ids@[0] == u32::MAX { 0 } else { draft_token_ids@[0] + 1 }) as u32)
            } else {
                target_token_ids@
            };
            &&& (draft_token_ids@.len() != effective_depth@ || target.len() != effective_depth@ + 1)
                ==> result == Err::<MtpVerificationDecision, MtpVerificationDecisionError>(
                MtpVerificationDecisionError::VectorLengthMismatch,
            )
            &&& (draft_token_ids@.len() == effective_depth@ && target.len() == effective_depth@ + 1)
                ==> (result matches Ok(decision) && decision@ == greedy_decision_view(
                effective_depth@,
                draft_token_ids@,
                target,
                end_of_sequence_token_ids@,
            ))
        }),
{
    let mut target_token_ids = target_token_ids;
    if forced_draft_rejection && target_token_ids.len() > 0 {
        let replacement = draft_token_ids[0].wrapping_add(1);
        assert(replacement == (if draft_token_ids@[0] == u32::MAX { 0 } else { draft_token_ids@[0] + 1 }) as u32);
        target_token_ids.set(0, replacement);
    }
    qwen3_5_mtp_verification_decision(effective_depth, draft_token_ids, &target_token_ids, end_of_sequence_token_ids)
}

} // verus!
