use vstd::prelude::*;

use crate::mtp::depth::{MtpDepthDowngradeReason, MtpDraftDepth};

verus! {

/// Target-authoritative outcome of one fixed-depth MTP verification window.
#[derive(Clone, Copy, Debug, PartialEq, Eq)]
pub struct MtpVerificationDecision {
    effective_depth: MtpDraftDepth,
    proposed_count: u8,
    accepted_count: u8,
    pending_target_token_id: Option<u32>,
    was_eos_truncated: bool,
    operational_fallback: bool,
}

/// Mathematical content of an [`MtpVerificationDecision`].
#[derive(Clone, Copy, Debug, PartialEq, Eq, Structural)]
pub struct MtpVerificationDecisionView {
    pub effective_depth: u8,
    pub proposed_count: u8,
    pub accepted_count: u8,
    pub pending_target_token_id: Option<u32>,
    pub was_eos_truncated: bool,
    pub operational_fallback: bool,
}

/// Invalid bounded inputs supplied to a pure verifier decision boundary.
#[derive(Clone, Copy, Debug, PartialEq, Eq, Structural)]
pub enum MtpVerificationDecisionError {
    /// The verification vectors do not match the effective draft depth.
    VectorLengthMismatch,
    /// An untruncated sampled window requires the residual or bonus token.
    MissingPostPrefixToken,
}

impl View for MtpVerificationDecision {
    type V = MtpVerificationDecisionView;

    closed spec fn view(&self) -> MtpVerificationDecisionView {
        MtpVerificationDecisionView {
            effective_depth: self.effective_depth@,
            proposed_count: self.proposed_count,
            accepted_count: self.accepted_count,
            pending_target_token_id: self.pending_target_token_id,
            was_eos_truncated: self.was_eos_truncated,
            operational_fallback: self.operational_fallback,
        }
    }
}

impl MtpVerificationDecision {
    pub fn effective_depth(&self) -> (depth: MtpDraftDepth)
        ensures
            depth@ == self@.effective_depth,
    {
        self.effective_depth
    }

    pub fn proposed_count(&self) -> (count: u8)
        ensures
            count == self@.proposed_count,
    {
        self.proposed_count
    }

    pub fn accepted_count(&self) -> (count: u8)
        ensures
            count == self@.accepted_count,
    {
        self.accepted_count
    }

    pub fn pending_target_token_id(&self) -> (token_id: Option<u32>)
        ensures
            token_id == self@.pending_target_token_id,
    {
        self.pending_target_token_id
    }

    pub fn was_eos_truncated(&self) -> (truncated: bool)
        ensures
            truncated == self@.was_eos_truncated,
    {
        self.was_eos_truncated
    }

    pub fn is_operational_fallback(&self) -> (fallback: bool)
        ensures
            fallback == self@.operational_fallback,
    {
        self.operational_fallback
    }

    /// The decision recorded when a proposal, verification or commit failed
    /// operationally: nothing was proposed, accepted or queued.
    pub fn operational_fallback(effective_depth: MtpDraftDepth) -> (decision: Self)
        ensures
            decision@ == operational_fallback_view(effective_depth@),
    {
        MtpVerificationDecision {
            effective_depth,
            proposed_count: 0,
            accepted_count: 0,
            pending_target_token_id: None,
            was_eos_truncated: false,
            operational_fallback: true,
        }
    }
}

pub open spec fn operational_fallback_view(depth: u8) -> MtpVerificationDecisionView {
    MtpVerificationDecisionView {
        effective_depth: depth,
        proposed_count: 0,
        accepted_count: 0,
        pending_target_token_id: None,
        was_eos_truncated: false,
        operational_fallback: true,
    }
}

/// Length of the longest common prefix of `draft` and `target` among their first `n` entries.
pub open spec fn matched_prefix_len(draft: Seq<u32>, target: Seq<u32>, n: nat) -> nat
    decreases n,
{
    if n == 0 {
        0
    } else {
        let previous = matched_prefix_len(draft, target, (n - 1) as nat);
        if previous == n - 1 && draft[n - 1] == target[n - 1] {
            n
        } else {
            previous
        }
    }
}

/// Number of leading `true` flags among the first `n`.
pub open spec fn leading_true_count(flags: Seq<bool>, n: nat) -> nat
    decreases n,
{
    if n == 0 {
        0
    } else {
        let previous = leading_true_count(flags, (n - 1) as nat);
        if previous == n - 1 && flags[n - 1] {
            n
        } else {
            previous
        }
    }
}

/// Position of the first draft among the first `n` that is an end-of-sequence token.
pub open spec fn first_eos_position(draft: Seq<u32>, n: nat, eos: Seq<u32>) -> Option<nat>
    decreases n,
{
    if n == 0 {
        None
    } else {
        match first_eos_position(draft, (n - 1) as nat, eos) {
            Some(position) => Some(position),
            None => if eos.contains(draft[n - 1]) {
                Some((n - 1) as nat)
            } else {
                None
            },
        }
    }
}

/// Decision for a window whose first `coin_accepted` drafts were accepted, before
/// truncation at the first accepted end-of-sequence draft.
pub open spec fn decision_after_acceptance(
    depth: u8,
    draft: Seq<u32>,
    coin_accepted: nat,
    eos: Seq<u32>,
    post_prefix_token_id: Option<u32>,
) -> MtpVerificationDecisionView {
    match first_eos_position(draft, coin_accepted, eos) {
        Some(position) => MtpVerificationDecisionView {
            effective_depth: depth,
            proposed_count: depth,
            accepted_count: (position + 1) as u8,
            pending_target_token_id: None,
            was_eos_truncated: true,
            operational_fallback: false,
        },
        None => MtpVerificationDecisionView {
            effective_depth: depth,
            proposed_count: depth,
            accepted_count: coin_accepted as u8,
            pending_target_token_id: post_prefix_token_id,
            was_eos_truncated: false,
            operational_fallback: false,
        },
    }
}

/// Greedy verification: drafts are accepted while they equal the target's tokens;
/// the target token after the accepted prefix becomes the pending correction or bonus.
pub open spec fn greedy_decision_view(
    depth: u8,
    draft: Seq<u32>,
    target: Seq<u32>,
    eos: Seq<u32>,
) -> MtpVerificationDecisionView {
    let matched = matched_prefix_len(draft, target, draft.len());
    decision_after_acceptance(depth, draft, matched, eos, Some(target[matched as int]))
}

/// Sampled verification: drafts are accepted while their coins say so; the sampled
/// residual or bonus token becomes the pending token.
pub open spec fn sampled_decision_view(
    depth: u8,
    draft: Seq<u32>,
    coins: Seq<bool>,
    post_prefix_token_id: u32,
    eos: Seq<u32>,
) -> MtpVerificationDecisionView {
    sampled_outcome_view(depth, draft, coins, Some(post_prefix_token_id), eos)
}

/// Whether a sampled window's accepted prefix holds an end-of-sequence draft, so that
/// it is cut there and publishes no residual or bonus token.
pub open spec fn sampled_window_is_eos_truncated(draft: Seq<u32>, coins: Seq<bool>, eos: Seq<u32>) -> bool {
    first_eos_position(draft, leading_true_count(coins, coins.len()), eos) is Some
}

/// Sampled verification with the residual or bonus token when there is one; a
/// truncated window needs none.
pub open spec fn sampled_outcome_view(
    depth: u8,
    draft: Seq<u32>,
    coins: Seq<bool>,
    post_prefix_token_id: Option<u32>,
    eos: Seq<u32>,
) -> MtpVerificationDecisionView {
    decision_after_acceptance(depth, draft, leading_true_count(coins, coins.len()), eos, post_prefix_token_id)
}

proof fn lemma_matched_prefix_bounds(draft: Seq<u32>, target: Seq<u32>, n: nat)
    ensures
        matched_prefix_len(draft, target, n) <= n,
    decreases n,
{
    if n > 0 {
        lemma_matched_prefix_bounds(draft, target, (n - 1) as nat);
    }
}

proof fn lemma_leading_true_bounds(flags: Seq<bool>, n: nat)
    ensures
        leading_true_count(flags, n) <= n,
    decreases n,
{
    if n > 0 {
        lemma_leading_true_bounds(flags, (n - 1) as nat);
    }
}

proof fn lemma_first_eos_bounds(draft: Seq<u32>, n: nat, eos: Seq<u32>)
    ensures
        first_eos_position(draft, n, eos) matches Some(p) ==> p < n,
    decreases n,
{
    if n > 0 {
        lemma_first_eos_bounds(draft, (n - 1) as nat, eos);
    }
}

proof fn lemma_first_eos_stable(draft: Seq<u32>, n: nat, m: nat, eos: Seq<u32>)
    requires
        n <= m,
        first_eos_position(draft, n, eos) is Some,
    ensures
        first_eos_position(draft, m, eos) == first_eos_position(draft, n, eos),
    decreases m - n,
{
    if n < m {
        lemma_first_eos_stable(draft, n, (m - 1) as nat, eos);
    }
}

fn contains_token(tokens: &[u32], token: u32) -> (found: bool)
    ensures
        found == tokens@.contains(token),
{
    let mut index: usize = 0;
    while index < tokens.len()
        invariant
            index <= tokens.len(),
            forall|j: int| 0 <= j < index ==> tokens@[j] != token,
        decreases tokens.len() - index,
    {
        if tokens[index] == token {
            assert(tokens@[index as int] == token);
            return true;
        }
        index += 1;
    }
    false
}

/// Finds the first accepted end-of-sequence draft among the first `accepted` drafts.
fn first_accepted_eos(
    draft_token_ids: &[u32],
    accepted: usize,
    end_of_sequence_token_ids: &[u32],
) -> (position: Option<usize>)
    requires
        accepted <= draft_token_ids.len(),
    ensures
        position matches Some(p) ==> first_eos_position(draft_token_ids@, accepted as nat, end_of_sequence_token_ids@) == Some(p as nat),
        position is None ==> first_eos_position(draft_token_ids@, accepted as nat, end_of_sequence_token_ids@) is None,
{
    let mut index: usize = 0;
    while index < accepted
        invariant
            index <= accepted <= draft_token_ids.len(),
            first_eos_position(draft_token_ids@, index as nat, end_of_sequence_token_ids@) is None,
        decreases accepted - index,
    {
        let is_eos = contains_token(end_of_sequence_token_ids, draft_token_ids[index]);
        if is_eos {
            assert(first_eos_position(draft_token_ids@, (index + 1) as nat, end_of_sequence_token_ids@) == Some(index as nat));
            proof {
                lemma_first_eos_stable(draft_token_ids@, (index + 1) as nat, accepted as nat, end_of_sequence_token_ids@);
            }
            return Some(index);
        }
        index += 1;
    }
    None
}

/// Computes longest-prefix acceptance and truncates accepted output at the first EOS.
pub fn qwen3_5_mtp_verification_decision(
    effective_depth: MtpDraftDepth,
    draft_token_ids: &[u32],
    target_token_ids: &[u32],
    end_of_sequence_token_ids: &[u32],
) -> (result: Result<MtpVerificationDecision, MtpVerificationDecisionError>)
    ensures
        (draft_token_ids@.len() != effective_depth@ || target_token_ids@.len() != effective_depth@ + 1)
            ==> result == Err::<MtpVerificationDecision, MtpVerificationDecisionError>(
            MtpVerificationDecisionError::VectorLengthMismatch,
        ),
        (draft_token_ids@.len() == effective_depth@ && target_token_ids@.len() == effective_depth@ + 1)
            ==> (result matches Ok(decision) && decision@ == greedy_decision_view(
            effective_depth@,
            draft_token_ids@,
            target_token_ids@,
            end_of_sequence_token_ids@,
        )),
{
    let proposed_count = effective_depth.get();
    if draft_token_ids.len() != proposed_count as usize || target_token_ids.len() != proposed_count as usize + 1 {
        return Err(MtpVerificationDecisionError::VectorLengthMismatch);
    }
    let mut matched: usize = 0;
    let mut index: usize = 0;
    while index < draft_token_ids.len()
        invariant
            index <= draft_token_ids.len(),
            target_token_ids.len() == draft_token_ids.len() + 1,
            matched == matched_prefix_len(draft_token_ids@, target_token_ids@, index as nat),
            matched <= index,
        decreases draft_token_ids.len() - index,
    {
        if matched == index && draft_token_ids[index] == target_token_ids[index] {
            matched = index + 1;
        }
        index += 1;
    }
    let first_eos = first_accepted_eos(draft_token_ids, matched, end_of_sequence_token_ids);
    proof {
        lemma_first_eos_bounds(draft_token_ids@, matched as nat, end_of_sequence_token_ids@);
    }
    let (accepted_count, was_eos_truncated, pending_target_token_id) = match first_eos {
        Some(position) => (position + 1, true, None),
        None => (matched, false, Some(target_token_ids[matched])),
    };
    Ok(MtpVerificationDecision {
        effective_depth,
        proposed_count,
        accepted_count: accepted_count as u8,
        pending_target_token_id,
        was_eos_truncated,
        operational_fallback: false,
    })
}

/// Coin-backed sampled verification of one fixed-depth MTP window.
///
/// Accepted-prefix and EOS-truncation semantics mirror
/// [`qwen3_5_mtp_verification_decision`], so both decoding modes share one
/// commit and emission path.
pub fn qwen3_5_mtp_sampled_verification_decision(
    effective_depth: MtpDraftDepth,
    draft_token_ids: &[u32],
    accepted_coin_flags: &[bool],
    post_prefix_token_id: Option<u32>,
    end_of_sequence_token_ids: &[u32],
) -> (result: Result<MtpVerificationDecision, MtpVerificationDecisionError>)
    ensures
        (draft_token_ids@.len() != effective_depth@ || accepted_coin_flags@.len() != effective_depth@)
            ==> result == Err::<MtpVerificationDecision, MtpVerificationDecisionError>(
            MtpVerificationDecisionError::VectorLengthMismatch,
        ),
        (draft_token_ids@.len() == effective_depth@ && accepted_coin_flags@.len() == effective_depth@
            && post_prefix_token_id is None && !sampled_window_is_eos_truncated(
            draft_token_ids@,
            accepted_coin_flags@,
            end_of_sequence_token_ids@,
        )) ==> result == Err::<MtpVerificationDecision, MtpVerificationDecisionError>(
            MtpVerificationDecisionError::MissingPostPrefixToken,
        ),
        (draft_token_ids@.len() == effective_depth@ && accepted_coin_flags@.len() == effective_depth@ && (
        post_prefix_token_id is Some || sampled_window_is_eos_truncated(
            draft_token_ids@,
            accepted_coin_flags@,
            end_of_sequence_token_ids@,
        ))) ==> (result matches Ok(decision) && decision@ == sampled_outcome_view(
            effective_depth@,
            draft_token_ids@,
            accepted_coin_flags@,
            post_prefix_token_id,
            end_of_sequence_token_ids@,
        )),
{
    let proposed_count = effective_depth.get();
    if draft_token_ids.len() != proposed_count as usize || accepted_coin_flags.len() != proposed_count as usize {
        return Err(MtpVerificationDecisionError::VectorLengthMismatch);
    }
    let mut accepted: usize = 0;
    let mut index: usize = 0;
    while index < accepted_coin_flags.len()
        invariant
            index <= accepted_coin_flags.len(),
            accepted == leading_true_count(accepted_coin_flags@, index as nat),
            accepted <= index,
        decreases accepted_coin_flags.len() - index,
    {
        if accepted == index && accepted_coin_flags[index] {
            accepted = index + 1;
        }
        index += 1;
    }
    let first_eos = first_accepted_eos(draft_token_ids, accepted, end_of_sequence_token_ids);
    proof {
        lemma_first_eos_bounds(draft_token_ids@, accepted as nat, end_of_sequence_token_ids@);
    }
    // Only an untruncated window publishes the residual or bonus token.
    let (accepted_count, was_eos_truncated, pending_target_token_id) = match first_eos {
        Some(position) => (position + 1, true, None),
        None => match post_prefix_token_id {
            Some(token_id) => (accepted, false, Some(token_id)),
            None => {
                return Err(MtpVerificationDecisionError::MissingPostPrefixToken);
            },
        },
    };
    Ok(MtpVerificationDecision {
        effective_depth,
        proposed_count,
        accepted_count: accepted_count as u8,
        pending_target_token_id,
        was_eos_truncated,
        operational_fallback: false,
    })
}


/// `a - b`, floored at zero.
pub open spec fn saturating_difference(a: int, b: int) -> int {
    if a > b {
        a - b
    } else {
        0
    }
}

pub open spec fn minimum(a: int, b: int) -> int {
    if a <= b {
        a
    } else {
        b
    }
}

/// Drafts the remaining output window can hold: every window reserves one token
/// for the target's correction or bonus.
pub open spec fn output_draft_capacity(generated_token_count: u16, maximum_output_tokens: u16) -> int {
    saturating_difference(saturating_difference(maximum_output_tokens as int, generated_token_count as int), 1)
}

/// Drafts the remaining context window can hold.
pub open spec fn context_draft_capacity(next_position_tokens: u32, maximum_position_count: usize) -> int {
    saturating_difference(saturating_difference(maximum_position_count as int, next_position_tokens as int), 1)
}

/// Drafts the remaining thinking budget can hold; unbounded budgets count as `u16::MAX` tokens.
pub open spec fn thinking_draft_capacity(
    is_inside_thinking: bool,
    thinking_token_count: u16,
    thinking_budget: Option<u16>,
) -> int {
    let remaining = if is_inside_thinking {
        match thinking_budget {
            Some(budget) => saturating_difference(budget as int, thinking_token_count as int),
            None => u16::MAX as int,
        }
    } else {
        u16::MAX as int
    };
    saturating_difference(remaining, 1)
}

/// Largest draft count that fits the request depth and every window.
pub open spec fn feasible_draft_count(
    requested_depth: u8,
    generated_token_count: u16,
    maximum_output_tokens: u16,
    next_position_tokens: u32,
    maximum_position_count: usize,
    is_inside_thinking: bool,
    thinking_token_count: u16,
    thinking_budget: Option<u16>,
) -> int {
    minimum(
        minimum(
            minimum(requested_depth as int, output_draft_capacity(generated_token_count, maximum_output_tokens)),
            context_draft_capacity(next_position_tokens, maximum_position_count),
        ),
        thinking_draft_capacity(is_inside_thinking, thinking_token_count, thinking_budget),
    )
}

/// The first window (output, then context, then thinking) whose capacity equals the
/// feasible count, when that count is below the requested depth.
pub open spec fn downgrade_reason(
    requested_depth: u8,
    generated_token_count: u16,
    maximum_output_tokens: u16,
    next_position_tokens: u32,
    maximum_position_count: usize,
    is_inside_thinking: bool,
    thinking_token_count: u16,
    thinking_budget: Option<u16>,
) -> Option<MtpDepthDowngradeReason> {
    let feasible = feasible_draft_count(
        requested_depth,
        generated_token_count,
        maximum_output_tokens,
        next_position_tokens,
        maximum_position_count,
        is_inside_thinking,
        thinking_token_count,
        thinking_budget,
    );
    if feasible == requested_depth as int {
        None
    } else if output_draft_capacity(generated_token_count, maximum_output_tokens) == feasible {
        Some(MtpDepthDowngradeReason::OutputWindow)
    } else if context_draft_capacity(next_position_tokens, maximum_position_count) == feasible {
        Some(MtpDepthDowngradeReason::ContextWindow)
    } else {
        Some(MtpDepthDowngradeReason::ThinkingWindow)
    }
}

/// Resolves the bounded request depth and attributes the first limiting user-visible window.
pub fn qwen3_5_mtp_effective_depth_and_reason_for_windows(
    requested_depth: MtpDraftDepth,
    generated_token_count: u16,
    maximum_output_tokens: u16,
    next_position_tokens: u32,
    maximum_position_count: usize,
    is_inside_thinking: bool,
    thinking_token_count: u16,
    thinking_budget: Option<u16>,
) -> (result: (Option<MtpDraftDepth>, Option<MtpDepthDowngradeReason>))
    ensures
        ({
            let feasible = feasible_draft_count(
                requested_depth@,
                generated_token_count,
                maximum_output_tokens,
                next_position_tokens,
                maximum_position_count,
                is_inside_thinking,
                thinking_token_count,
                thinking_budget,
            );
            &&& feasible >= 1 ==> (result.0 matches Some(depth) && depth@ == feasible)
            &&& feasible < 1 ==> result.0 is None
        }),
        result.1 == downgrade_reason(
            requested_depth@,
            generated_token_count,
            maximum_output_tokens,
            next_position_tokens,
            maximum_position_count,
            is_inside_thinking,
            thinking_token_count,
            thinking_budget,
        ),
{
    let remaining_output_tokens = maximum_output_tokens.saturating_sub(generated_token_count);
    let remaining_context_tokens = maximum_position_count.saturating_sub(next_position_tokens as usize);
    let remaining_thinking_tokens: u16 = if is_inside_thinking {
        match thinking_budget {
            Some(budget) => budget.saturating_sub(thinking_token_count),
            None => u16::MAX,
        }
    } else {
        u16::MAX
    };
    // Every verification window can publish D accepted drafts plus one target correction/bonus,
    // so each independent window must reserve one non-draft token before depths are compared.
    let output_capacity = (remaining_output_tokens as usize).saturating_sub(1);
    let context_capacity = remaining_context_tokens.saturating_sub(1);
    let thinking_capacity = (remaining_thinking_tokens as usize).saturating_sub(1);
    let requested_draft_count = requested_depth.get() as usize;
    let mut feasible = requested_draft_count;
    if output_capacity < feasible {
        feasible = output_capacity;
    }
    if context_capacity < feasible {
        feasible = context_capacity;
    }
    if thinking_capacity < feasible {
        feasible = thinking_capacity;
    }
    let effective_depth = if feasible >= 1 {
        match MtpDraftDepth::new(feasible as u8) {
            Ok(depth) => Some(depth),
            Err(_) => None,
        }
    } else {
        None
    };
    let reason = if feasible == requested_draft_count {
        None
    } else if output_capacity == feasible {
        Some(MtpDepthDowngradeReason::OutputWindow)
    } else if context_capacity == feasible {
        Some(MtpDepthDowngradeReason::ContextWindow)
    } else {
        Some(MtpDepthDowngradeReason::ThinkingWindow)
    };
    (effective_depth, reason)
}

/// Clamps one resolved depth before any target or predictor state is mutated.
pub fn qwen3_5_mtp_effective_depth_for_windows(
    requested_depth: MtpDraftDepth,
    generated_token_count: u16,
    maximum_output_tokens: u16,
    next_position_tokens: u32,
    maximum_position_count: usize,
    is_inside_thinking: bool,
    thinking_token_count: u16,
    thinking_budget: Option<u16>,
) -> (depth: Option<MtpDraftDepth>)
    ensures
        ({
            let feasible = feasible_draft_count(
                requested_depth@,
                generated_token_count,
                maximum_output_tokens,
                next_position_tokens,
                maximum_position_count,
                is_inside_thinking,
                thinking_token_count,
                thinking_budget,
            );
            &&& feasible >= 1 ==> (depth matches Some(d) && d@ == feasible)
            &&& feasible < 1 ==> depth is None
        }),
{
    qwen3_5_mtp_effective_depth_and_reason_for_windows(
        requested_depth,
        generated_token_count,
        maximum_output_tokens,
        next_position_tokens,
        maximum_position_count,
        is_inside_thinking,
        thinking_token_count,
        thinking_budget,
    ).0
}


proof fn lemma_matched_prefix_agrees(draft: Seq<u32>, target: Seq<u32>, n: nat)
    requires
        n <= draft.len(),
        n <= target.len(),
    ensures
        forall|i: int| 0 <= i < matched_prefix_len(draft, target, n) ==> draft[i] == target[i],
        matched_prefix_len(draft, target, n) < n ==> draft[matched_prefix_len(draft, target, n) as int]
            != target[matched_prefix_len(draft, target, n) as int],
    decreases n,
{
    if n > 0 {
        lemma_matched_prefix_agrees(draft, target, (n - 1) as nat);
        lemma_matched_prefix_bounds(draft, target, (n - 1) as nat);
    }
}

proof fn lemma_first_eos_characterized(draft: Seq<u32>, n: nat, eos: Seq<u32>)
    requires
        n <= draft.len(),
    ensures
        first_eos_position(draft, n, eos) matches Some(p) ==> {
            &&& p < n
            &&& eos.contains(draft[p as int])
            &&& forall|i: int| 0 <= i < p ==> !eos.contains(#[trigger] draft[i])
        },
        first_eos_position(draft, n, eos) is None ==> forall|i: int|
            0 <= i < n ==> !eos.contains(#[trigger] draft[i]),
    decreases n,
{
    if n > 0 {
        lemma_first_eos_characterized(draft, (n - 1) as nat, eos);
    }
}

proof fn lemma_leading_true_is_matched_prefix(draft: Seq<u32>, target: Seq<u32>, coins: Seq<bool>, n: nat)
    requires
        n <= draft.len(),
        n <= target.len(),
        n <= coins.len(),
        forall|i: int| 0 <= i < n ==> coins[i] == (draft[i] == target[i]),
    ensures
        leading_true_count(coins, n) == matched_prefix_len(draft, target, n),
    decreases n,
{
    if n > 0 {
        lemma_leading_true_is_matched_prefix(draft, target, coins, (n - 1) as nat);
    }
}

/// Greedy acceptance law: the accepted drafts are exactly a prefix on which draft
/// and target agree; the window is truncated at the first accepted end-of-sequence
/// draft (and then no token is pending), otherwise the target token that follows
/// the accepted prefix is pending and the prefix ends at the first disagreement.
pub proof fn lemma_greedy_decision_accepts_matching_prefix(
    depth: u8,
    draft: Seq<u32>,
    target: Seq<u32>,
    eos: Seq<u32>,
)
    requires
        draft.len() == depth,
        target.len() == depth + 1,
    ensures
        ({
            let decision = greedy_decision_view(depth, draft, target, eos);
            &&& decision.proposed_count == depth
            &&& decision.accepted_count <= depth
            &&& !decision.operational_fallback
            &&& forall|i: int| 0 <= i < decision.accepted_count ==> draft[i] == target[i]
            &&& forall|i: int| 0 <= i < decision.accepted_count - 1 ==> !eos.contains(#[trigger] draft[i])
            &&& decision.was_eos_truncated <==> decision.pending_target_token_id is None
            &&& decision.was_eos_truncated ==> decision.accepted_count >= 1 && eos.contains(
                draft[decision.accepted_count - 1],
            )
            &&& !decision.was_eos_truncated ==> {
                &&& decision.pending_target_token_id == Some(target[decision.accepted_count as int])
                &&& forall|i: int| 0 <= i < decision.accepted_count ==> !eos.contains(#[trigger] draft[i])
                &&& decision.accepted_count < depth ==> draft[decision.accepted_count as int]
                    != target[decision.accepted_count as int]
            }
        }),
{
    let matched = matched_prefix_len(draft, target, draft.len());
    lemma_matched_prefix_bounds(draft, target, draft.len());
    lemma_matched_prefix_agrees(draft, target, draft.len());
    lemma_first_eos_characterized(draft, matched, eos);
}

/// Both decoding modes share one acceptance rule: a sampled window whose coins are
/// exactly "draft equals target" and whose residual token is the target token after
/// the matched prefix decides exactly as the greedy verifier does.
pub proof fn lemma_sampled_decision_mirrors_greedy(
    depth: u8,
    draft: Seq<u32>,
    target: Seq<u32>,
    coins: Seq<bool>,
    eos: Seq<u32>,
)
    requires
        draft.len() == depth,
        target.len() == depth + 1,
        coins.len() == depth,
        forall|i: int| 0 <= i < depth ==> coins[i] == (draft[i] == target[i]),
    ensures
        sampled_decision_view(
            depth,
            draft,
            coins,
            target[matched_prefix_len(draft, target, draft.len()) as int],
            eos,
        ) == greedy_decision_view(depth, draft, target, eos),
{
    lemma_leading_true_is_matched_prefix(draft, target, coins, depth as nat);
}

/// Window law: the effective depth never exceeds the requested depth, and every
/// window still holds the effective drafts plus the target's correction or bonus.
/// The depth is only downgraded (with a reason) when a window forced it.
pub proof fn lemma_effective_depth_fits_every_window(
    requested_depth: u8,
    generated_token_count: u16,
    maximum_output_tokens: u16,
    next_position_tokens: u32,
    maximum_position_count: usize,
    is_inside_thinking: bool,
    thinking_token_count: u16,
    thinking_budget: Option<u16>,
)
    requires
        requested_depth >= 1,
    ensures
        ({
            let feasible = feasible_draft_count(
                requested_depth,
                generated_token_count,
                maximum_output_tokens,
                next_position_tokens,
                maximum_position_count,
                is_inside_thinking,
                thinking_token_count,
                thinking_budget,
            );
            let reason = downgrade_reason(
                requested_depth,
                generated_token_count,
                maximum_output_tokens,
                next_position_tokens,
                maximum_position_count,
                is_inside_thinking,
                thinking_token_count,
                thinking_budget,
            );
            &&& 0 <= feasible <= requested_depth
            &&& feasible >= 1 ==> generated_token_count + feasible + 1 <= maximum_output_tokens
            &&& feasible >= 1 ==> next_position_tokens + feasible + 1 <= maximum_position_count
            &&& (feasible >= 1 && is_inside_thinking && thinking_budget is Some) ==> thinking_token_count
                + feasible + 1 <= thinking_budget->0
            &&& reason is None <==> feasible == requested_depth
        }),
{
}

/// Depth law: the effective draft count is the largest count (zero when none) that fits
/// the requested depth and leaves one token of room in the output window, the context
/// window and, inside thinking with a budget, the thinking budget. A downgrade names the
/// first window, in the order output, context, thinking, whose room is what limited it.
pub proof fn lemma_depth_is_largest_count_fitting_every_window(
    requested_depth: u8,
    generated_token_count: u16,
    maximum_output_tokens: u16,
    next_position_tokens: u32,
    maximum_position_count: usize,
    is_inside_thinking: bool,
    thinking_token_count: u16,
    thinking_budget: Option<u16>,
)
    requires
        requested_depth >= 1,
    ensures
        ({
            let feasible = feasible_draft_count(
                requested_depth,
                generated_token_count,
                maximum_output_tokens,
                next_position_tokens,
                maximum_position_count,
                is_inside_thinking,
                thinking_token_count,
                thinking_budget,
            );
            let reason = downgrade_reason(
                requested_depth,
                generated_token_count,
                maximum_output_tokens,
                next_position_tokens,
                maximum_position_count,
                is_inside_thinking,
                thinking_token_count,
                thinking_budget,
            );
            let output_room: int = maximum_output_tokens - generated_token_count - 1;
            let context_room: int = maximum_position_count - next_position_tokens - 1;
            let thinking_room: int = match thinking_budget {
                Some(budget) => if is_inside_thinking {
                    budget - thinking_token_count - 1
                } else {
                    requested_depth as int
                },
                None => requested_depth as int,
            };
            let output_fit: int = if output_room < 0 { 0 } else { output_room };
            let context_fit: int = if context_room < 0 { 0 } else { context_room };
            &&& 0 <= feasible <= requested_depth
            &&& feasible <= output_fit && feasible <= context_fit
            &&& thinking_room >= 0 ==> feasible <= thinking_room
            &&& thinking_room < 0 ==> feasible == 0
            &&& (feasible == requested_depth || feasible == output_fit || feasible == context_fit
                || feasible == thinking_room || (thinking_room < 0 && feasible == 0))
            &&& feasible == requested_depth ==> reason is None
            &&& feasible < requested_depth ==> {
                &&& feasible == output_fit ==> reason == Some(MtpDepthDowngradeReason::OutputWindow)
                &&& (feasible != output_fit && feasible == context_fit) ==> reason == Some(
                    MtpDepthDowngradeReason::ContextWindow,
                )
                &&& (feasible != output_fit && feasible != context_fit) ==> reason == Some(
                    MtpDepthDowngradeReason::ThinkingWindow,
                )
            }
        }),
{
}

/// Thinking-window law: outside thinking the thinking budget and the thinking token
/// count play no part. The depth is then the largest draft count that fits the
/// requested depth and leaves one token of room in both the output and the context
/// window (zero when none fits), and when both windows have room for the requested
/// depth it is kept with no downgrade reason.
pub proof fn lemma_thinking_budget_only_limits_inside_thinking(
    requested_depth: u8,
    generated_token_count: u16,
    maximum_output_tokens: u16,
    next_position_tokens: u32,
    maximum_position_count: usize,
    thinking_token_count: u16,
    thinking_budget: Option<u16>,
    other_thinking_token_count: u16,
    other_thinking_budget: Option<u16>,
)
    requires
        requested_depth >= 1,
    ensures
        ({
            let feasible = feasible_draft_count(
                requested_depth,
                generated_token_count,
                maximum_output_tokens,
                next_position_tokens,
                maximum_position_count,
                false,
                thinking_token_count,
                thinking_budget,
            );
            let reason = downgrade_reason(
                requested_depth,
                generated_token_count,
                maximum_output_tokens,
                next_position_tokens,
                maximum_position_count,
                false,
                thinking_token_count,
                thinking_budget,
            );
            let output_room: int = maximum_output_tokens - generated_token_count - 1;
            let context_room: int = maximum_position_count - next_position_tokens - 1;
            let window_room: int = if output_room < context_room { output_room } else { context_room };
            let fitting: int = if window_room < requested_depth { window_room } else { requested_depth as int };
            &&& feasible == (if fitting < 0 { 0 } else { fitting })
            &&& feasible == feasible_draft_count(
                requested_depth,
                generated_token_count,
                maximum_output_tokens,
                next_position_tokens,
                maximum_position_count,
                false,
                other_thinking_token_count,
                other_thinking_budget,
            )
            &&& reason == downgrade_reason(
                requested_depth,
                generated_token_count,
                maximum_output_tokens,
                next_position_tokens,
                maximum_position_count,
                false,
                other_thinking_token_count,
                other_thinking_budget,
            )
            &&& (output_room >= requested_depth && context_room >= requested_depth) ==> (feasible
                == requested_depth && reason is None)
        }),
{
}

/// Sampled acceptance law: the accepted drafts are a prefix whose coins all came up
/// accepted; the window is truncated at the first accepted end-of-sequence draft (and
/// then no token is pending), otherwise the residual or bonus token is pending and the
/// prefix ends at the first rejected coin.
pub proof fn lemma_sampled_decision_accepts_coin_prefix(
    depth: u8,
    draft: Seq<u32>,
    coins: Seq<bool>,
    post_prefix_token_id: u32,
    eos: Seq<u32>,
)
    requires
        draft.len() == depth,
        coins.len() == depth,
    ensures
        ({
            let decision = sampled_decision_view(depth, draft, coins, post_prefix_token_id, eos);
            &&& decision.proposed_count == depth
            &&& decision.accepted_count <= depth
            &&& !decision.operational_fallback
            &&& forall|i: int| 0 <= i < decision.accepted_count ==> coins[i]
            &&& decision.was_eos_truncated <==> decision.pending_target_token_id is None
            &&& decision.was_eos_truncated ==> decision.accepted_count >= 1 && eos.contains(
                draft[decision.accepted_count - 1],
            )
            &&& !decision.was_eos_truncated ==> {
                &&& decision.pending_target_token_id == Some(post_prefix_token_id)
                &&& forall|i: int| 0 <= i < decision.accepted_count ==> !eos.contains(#[trigger] draft[i])
                &&& decision.accepted_count < depth ==> !coins[decision.accepted_count as int]
            }
        }),
{
    let accepted = leading_true_count(coins, coins.len());
    lemma_leading_true_bounds(coins, coins.len());
    lemma_leading_true_characterized(coins, coins.len());
    lemma_first_eos_characterized(draft, accepted, eos);
}

/// Truncation law of sampled verification, as for greedy verification: when an accepted
/// draft is an end-of-sequence token the window is cut after the first such draft, no
/// token is pending, and the decision is the same whether a residual or bonus token
/// came back or not.
pub proof fn lemma_truncated_sampled_window_needs_no_post_prefix_token(
    depth: u8,
    draft: Seq<u32>,
    coins: Seq<bool>,
    first_post_prefix_token_id: Option<u32>,
    second_post_prefix_token_id: Option<u32>,
    eos: Seq<u32>,
)
    requires
        draft.len() == depth,
        coins.len() == depth,
        sampled_window_is_eos_truncated(draft, coins, eos),
    ensures
        ({
            let decision = sampled_outcome_view(depth, draft, coins, first_post_prefix_token_id, eos);
            &&& decision == sampled_outcome_view(depth, draft, coins, second_post_prefix_token_id, eos)
            &&& decision.was_eos_truncated
            &&& decision.pending_target_token_id is None
            &&& 1 <= decision.accepted_count <= depth
            &&& forall|i: int| 0 <= i < decision.accepted_count ==> coins[i]
            &&& eos.contains(draft[decision.accepted_count - 1])
            &&& forall|i: int| 0 <= i < decision.accepted_count - 1 ==> !eos.contains(#[trigger] draft[i])
        }),
{
    let accepted = leading_true_count(coins, coins.len());
    lemma_leading_true_bounds(coins, coins.len());
    lemma_leading_true_characterized(coins, coins.len());
    lemma_first_eos_characterized(draft, accepted, eos);
}

proof fn lemma_leading_true_characterized(flags: Seq<bool>, n: nat)
    requires
        n <= flags.len(),
    ensures
        forall|i: int| 0 <= i < leading_true_count(flags, n) ==> flags[i],
        leading_true_count(flags, n) < n ==> !flags[leading_true_count(flags, n) as int],
    decreases n,
{
    if n > 0 {
        lemma_leading_true_characterized(flags, (n - 1) as nat);
        lemma_leading_true_bounds(flags, (n - 1) as nat);
    }
}

} // verus!
