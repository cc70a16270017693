//! Plan for committing an accepted MTP prefix: which target frontier is kept, which
//! boundaries become public frontiers of queued tokens, and how the predictor history
//! is repaired.

use vstd::prelude::*;

use crate::mtp::verification_decision::MtpVerificationDecision;

verus! {

/// A retained prefix boundary (index into the window's boundary checkpoints) and the
/// target position it corresponds to.
#[derive(Clone, Copy, Debug, PartialEq, Eq, Structural)]
pub struct PlannedFrontier {
    pub boundary_index: usize,
    pub position_tokens: u32,
}

/// How the predictor's history catches up with the accepted drafts.
#[derive(Clone, Copy, Debug, PartialEq, Eq, Structural)]
pub struct PredictorReplayPlan {
    /// The proposal committed more drafts than were accepted: restore the pre-proposal
    /// checkpoint and replay the current token first.
    pub restore_checkpoint_and_replay_current_token: bool,
    /// First accepted draft (and target hidden row) that is replayed into the predictor.
    pub first_replayed_accepted_draft: usize,
}

/// Decisions of one accepted-prefix commit.
#[derive(Clone, Debug, PartialEq, Eq)]
pub struct MtpCommitPlan {
    /// Target position after the accepted drafts and the target's own token.
    pub retained_target_position_tokens: u32,
    /// Boundary to restore when the verifier ran ahead of the accepted prefix.
    pub target_repair_boundary: Option<usize>,
    /// Frontier matching the tokens already shown, when drafts are queued.
    pub public_frontier: Option<PlannedFrontier>,
    /// Accepted drafts to emit, each with the frontier reached once it is shown.
    pub queued_emissions: Vec<(u32, Option<PlannedFrontier>)>,
    /// Target token generated next (correction or bonus), unless truncated at EOS.
    pub pending_target_token_id: Option<u32>,
    pub predictor_replay: PredictorReplayPlan,
    /// Target hidden row that seeds the next proposal.
    pub retained_hidden_row_index: i32,
}

/// A commit plan that cannot be represented.
#[derive(Clone, Copy, Debug, PartialEq, Eq, Structural)]
pub enum MtpCommitPlanError {
    /// The retained target position overflows `u32`.
    RetainedPositionOverflow,
    /// The proposal contained no drafts.
    EmptyProposal,
}

/// Queued emission `position` of a window that started at `start` and accepted `accepted` drafts.
pub open spec fn planned_emission(
    draft: Seq<u32>,
    start: u32,
    accepted: nat,
    position: int,
) -> (u32, Option<PlannedFrontier>) {
    (
        draft[position],
        if position + 1 == accepted {
            None
        } else {
            Some(
                PlannedFrontier {
                    boundary_index: (position + 1) as usize,
                    position_tokens: (start + position + 2) as u32,
                },
            )
        },
    )
}

/// The plan's mathematical statement for a window of `draft` started at `start`.
pub open spec fn commit_plan_is(
    plan: MtpCommitPlan,
    start: u32,
    draft: Seq<u32>,
    accepted: nat,
    pending: Option<u32>,
) -> bool {
    &&& plan.retained_target_position_tokens == start + accepted + 1
    &&& plan.target_repair_boundary == if accepted < draft.len() {
        Some(accepted as usize)
    } else {
        None::<usize>
    }
    &&& plan.public_frontier == if accepted > 0 {
        Some(PlannedFrontier { boundary_index: 0, position_tokens: (start + 1) as u32 })
    } else {
        None::<PlannedFrontier>
    }
    &&& plan.queued_emissions@.len() == accepted
    &&& forall|p: int| 0 <= p < accepted ==> #[trigger] plan.queued_emissions@[p] == planned_emission(draft, start, accepted, p)
    &&& plan.pending_target_token_id == pending
    &&& plan.predictor_replay == if accepted >= draft.len() - 1 {
        PredictorReplayPlan {
            restore_checkpoint_and_replay_current_token: false,
            first_replayed_accepted_draft: (draft.len() - 1) as usize,
        }
    } else {
        PredictorReplayPlan { restore_checkpoint_and_replay_current_token: true, first_replayed_accepted_draft: 0 }
    }
    &&& plan.retained_hidden_row_index == accepted
}

/// Plans the commit of a verified window that started at `target_verify_start_position_tokens`
/// and proposed `draft_token_ids`.
pub fn plan_accepted_mtp_prefix_commit(
    target_verify_start_position_tokens: u32,
    draft_token_ids: &[u32],
    decision: &MtpVerificationDecision,
) -> (result: Result<MtpCommitPlan, MtpCommitPlanError>)
    requires
        decision@.accepted_count <= draft_token_ids@.len(),
    ensures
        target_verify_start_position_tokens + decision@.accepted_count + 1 > u32::MAX ==> result == Err::<
            MtpCommitPlan,
            MtpCommitPlanError,
        >(MtpCommitPlanError::RetainedPositionOverflow),
        target_verify_start_position_tokens + decision@.accepted_count + 1 <= u32::MAX && draft_token_ids@.len()
            == 0 ==> result == Err::<MtpCommitPlan, MtpCommitPlanError>(MtpCommitPlanError::EmptyProposal),
        target_verify_start_position_tokens + decision@.accepted_count + 1 <= u32::MAX && draft_token_ids@.len()
            > 0 ==> (result matches Ok(plan) && commit_plan_is(
            plan,
            target_verify_start_position_tokens,
            draft_token_ids@,
            decision@.accepted_count as nat,
            decision@.pending_target_token_id,
        )),
{
    let accepted_count = decision.accepted_count() as usize;
    let retained_target_input_count = accepted_count + 1;
    if retained_target_input_count as u64 > u32::MAX as u64 {
        return Err(MtpCommitPlanError::RetainedPositionOverflow);
    }
    let retained_target_position_tokens = match target_verify_start_position_tokens.checked_add(
        retained_target_input_count as u32,
    ) {
        Some(position) => position,
        None => {
            return Err(MtpCommitPlanError::RetainedPositionOverflow);
        },
    };
    // The verifier ran `current + drafts`; a shorter retained prefix needs target repair.
    let target_repair_boundary = if accepted_count < draft_token_ids.len() {
        Some(accepted_count)
    } else {
        None
    };
    let mut queued_emissions: Vec<(u32, Option<PlannedFrontier>)> = Vec::new();
    let public_frontier = if accepted_count > 0 {
        Some(PlannedFrontier { boundary_index: 0, position_tokens: target_verify_start_position_tokens + 1 })
    } else {
        None
    };
    let mut accepted_position: usize = 0;
    while accepted_position < accepted_count
        invariant
            accepted_count == decision@.accepted_count,
            accepted_count <= draft_token_ids@.len(),
            target_verify_start_position_tokens + accepted_count + 1 <= u32::MAX,
            accepted_position <= accepted_count,
            queued_emissions@.len() == accepted_position,
            forall|p: int|
                0 <= p < accepted_position ==> #[trigger] queued_emissions@[p] == planned_emission(
                    draft_token_ids@,
                    target_verify_start_position_tokens,
                    accepted_count as nat,
                    p,
                ),
        decreases accepted_count - accepted_position,
    {
        let is_last_accepted_token = accepted_position + 1 == accepted_count;
        let frontier_after_emission = if is_last_accepted_token {
            None
        } else {
            let boundary_index = accepted_position + 1;
            Some(
                PlannedFrontier {
                    boundary_index,
                    position_tokens: target_verify_start_position_tokens + (boundary_index as u32) + 1,
                },
            )
        };
        queued_emissions.push((draft_token_ids[accepted_position], frontier_after_emission));
        accepted_position += 1;
    }
    if draft_token_ids.len() == 0 {
        return Err(MtpCommitPlanError::EmptyProposal);
    }
    // The proposal chain has already committed the current token and every draft except
    // its final one. Reuse that exact prefix; restore only when rejection leaves the
    // proposal state ahead of the accepted target frontier.
    let proposal_committed_draft_count = draft_token_ids.len() - 1;
    let predictor_replay = if accepted_count >= proposal_committed_draft_count {
        PredictorReplayPlan {
            restore_checkpoint_and_replay_current_token: false,
            first_replayed_accepted_draft: proposal_committed_draft_count,
        }
    } else {
        PredictorReplayPlan { restore_checkpoint_and_replay_current_token: true, first_replayed_accepted_draft: 0 }
    };
    Ok(
        MtpCommitPlan {
            retained_target_position_tokens,
            target_repair_boundary,
            public_frontier,
            queued_emissions,
            pending_target_token_id: decision.pending_target_token_id(),
            predictor_replay,
            retained_hidden_row_index: accepted_count as i32,
        },
    )
}

/// Predictor-history law. The proposal chain already fed the predictor the current
/// token and every draft but the last. The plan keeps that history when it holds only
/// accepted drafts, and otherwise restores the pre-proposal checkpoint so that nothing
/// is kept. Replay then starts exactly where the kept history ends, so each accepted
/// draft enters the predictor history once and no rejected draft does. In particular
/// the last draft of a fully accepted window is always replayed.
pub proof fn lemma_predictor_replay_covers_each_accepted_draft_once(
    plan: MtpCommitPlan,
    start: u32,
    draft: Seq<u32>,
    accepted: nat,
    pending: Option<u32>,
)
    requires
        commit_plan_is(plan, start, draft, accepted, pending),
        accepted <= draft.len(),
        draft.len() > 0,
    ensures
        ({
            let replay = plan.predictor_replay;
            let kept_drafts: int = if replay.restore_checkpoint_and_replay_current_token {
                0
            } else {
                draft.len() - 1
            };
            &&& kept_drafts <= accepted
            &&& replay.first_replayed_accepted_draft == kept_drafts
            &&& replay.first_replayed_accepted_draft <= accepted
            &&& replay.restore_checkpoint_and_replay_current_token <==> accepted + 1 < draft.len()
            &&& accepted == draft.len() ==> replay.first_replayed_accepted_draft < accepted
        }),
{
}

/// Retained-prefix law: the target keeps the current token and the accepted drafts, so
/// its position moves past exactly `accepted + 1` tokens; target state is repaired
/// exactly when some draft was rejected; the queued tokens are the accepted drafts in
/// order; the next proposal is seeded from the hidden row after the last accepted
/// draft; and the pending token is the decision's.
pub proof fn lemma_commit_keeps_exactly_the_accepted_prefix(
    plan: MtpCommitPlan,
    start: u32,
    draft: Seq<u32>,
    accepted: nat,
    pending: Option<u32>,
)
    requires
        commit_plan_is(plan, start, draft, accepted, pending),
        accepted <= draft.len(),
    ensures
        plan.retained_target_position_tokens - start == accepted + 1,
        plan.target_repair_boundary is Some <==> accepted < draft.len(),
        plan.target_repair_boundary matches Some(boundary) ==> boundary == accepted,
        plan.queued_emissions@.len() == accepted,
        forall|p: int| 0 <= p < accepted ==> (#[trigger] plan.queued_emissions@[p]).0 == draft[p],
        plan.public_frontier is Some <==> accepted > 0,
        plan.public_frontier matches Some(public) ==> public.boundary_index == 0 && public.position_tokens
            == start + 1,
        plan.retained_hidden_row_index == accepted,
        plan.pending_target_token_id == pending,
{
    assert forall|p: int| 0 <= p < accepted implies (#[trigger] plan.queued_emissions@[p]).0 == draft[p] by {
        assert(plan.queued_emissions@[p] == planned_emission(draft, start, accepted, p));
    }
}

/// Commit law: frontiers of queued tokens advance one position per emitted token, the
/// first queued frontier follows the public one, and the last accepted token carries no
/// frontier because live target state already matches the public prefix after it.
pub proof fn lemma_queued_frontiers_advance_by_one(
    plan: MtpCommitPlan,
    start: u32,
    draft: Seq<u32>,
    accepted: nat,
    pending: Option<u32>,
)
    requires
        commit_plan_is(plan, start, draft, accepted, pending),
        accepted <= draft.len(),
        start + accepted + 1 <= u32::MAX,
    ensures
        accepted > 0 ==> plan.queued_emissions@[accepted - 1].1 is None,
        forall|p: int|
            0 <= p < accepted - 1 ==> ((#[trigger] plan.queued_emissions@[p]).1 matches Some(f)
                && f.position_tokens == start + p + 2 && f.boundary_index == p + 1),
        accepted > 1 ==> (plan.public_frontier matches Some(public) && plan.queued_emissions@[0].1 is Some
            && plan.queued_emissions@[0].1->0.position_tokens == public.position_tokens + 1),
        accepted > 0 ==> plan.queued_emissions@[accepted - 1].0 == draft[accepted - 1],
{
    if accepted > 0 {
        assert(plan.queued_emissions@[accepted - 1] == planned_emission(draft, start, accepted, accepted - 1));
    }
    if accepted > 1 {
        assert(plan.queued_emissions@[0] == planned_emission(draft, start, accepted, 0));
    }
}

} // verus!
