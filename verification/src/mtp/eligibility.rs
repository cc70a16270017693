//! Request-local eligibility for optional multi-token prediction.
//!
//! SSD-paged experts, vision, and a persistent-prompt-cache restore that already
//! replaced prompt work stay target-only: the prediction head needs the prompt's hidden
//! states, which a wholesale cache restore never produced.

use vstd::prelude::*;

verus! {

/// Whether the prompt still has work the prediction head can observe: more than one
/// prompt token, and a restore that left at least two prompt tokens to process.
pub open spec fn prompt_leaves_prediction_work(restored_prompt_token_count: u32, prompt_token_count: usize) -> bool {
    prompt_token_count > 1 && restored_prompt_token_count < prompt_token_count - 1
}

/// Returns whether this request may open an optional multi-token-prediction session.
pub fn qwen3_5_mtp_request_is_eligible(
    mtp_enabled: bool,
    mtp_runtime_is_active: bool,
    model_has_mtp_weights: bool,
    has_precomputed_visual_embeddings: bool,
    has_processed_visual_images: bool,
    prompt_cache_restored_prompt_token_count: u32,
    prompt_token_count: usize,
    sparse_experts_are_paged: bool,
) -> (eligible: bool)
    ensures
        eligible == (mtp_enabled && mtp_runtime_is_active && model_has_mtp_weights
            && !has_precomputed_visual_embeddings && !has_processed_visual_images && !sparse_experts_are_paged
            && prompt_leaves_prediction_work(prompt_cache_restored_prompt_token_count, prompt_token_count)),
{
    mtp_enabled && mtp_runtime_is_active && model_has_mtp_weights && !has_precomputed_visual_embeddings
        && !has_processed_visual_images && !sparse_experts_are_paged && (prompt_cache_restored_prompt_token_count
        as usize) < prompt_token_count.saturating_sub(1) && prompt_token_count > 1
}

/// Returns whether a greedy request without an available persistent prompt cache may
/// create its prediction session.
pub fn qwen3_5_mtp_session_is_eligible(
    mtp_enabled: bool,
    mtp_runtime_is_active: bool,
    model_has_mtp_weights: bool,
    sampling_is_greedy: bool,
    has_precomputed_visual_embeddings: bool,
    has_processed_visual_images: bool,
    persistent_prompt_cache_is_available: bool,
    prompt_token_count: usize,
    restored_prompt_token_count: u32,
) -> (eligible: bool)
    ensures
        eligible == (mtp_enabled && mtp_runtime_is_active && model_has_mtp_weights && sampling_is_greedy
            && !has_precomputed_visual_embeddings && !has_processed_visual_images
            && !persistent_prompt_cache_is_available && prompt_leaves_prediction_work(
            restored_prompt_token_count,
            prompt_token_count,
        )),
{
    mtp_enabled && mtp_runtime_is_active && model_has_mtp_weights && sampling_is_greedy
        && !has_precomputed_visual_embeddings && !has_processed_visual_images && !persistent_prompt_cache_is_available
        && (restored_prompt_token_count as usize) < prompt_token_count.saturating_sub(1) && prompt_token_count > 1
}

/// Prompt-work law: the prediction head has prompt work exactly when at least two
/// prompt tokens remain to be processed after the restore; a prompt restored whole, or
/// all but its last token, leaves none, and so does a one-token prompt.
pub proof fn lemma_prediction_needs_two_unrestored_prompt_tokens(
    restored_prompt_token_count: u32,
    prompt_token_count: usize,
)
    ensures
        prompt_leaves_prediction_work(restored_prompt_token_count, prompt_token_count) <==> prompt_token_count
            - restored_prompt_token_count >= 2,
        restored_prompt_token_count + 1 >= prompt_token_count ==> !prompt_leaves_prediction_work(
            restored_prompt_token_count,
            prompt_token_count,
        ),
{
}

} // verus!
