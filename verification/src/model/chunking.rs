use vstd::prelude::*;

use crate::error::{InvalidInputReason, Qwen3_5ExecutionError};

verus! {

/// Validated model-local work boundaries supplied by the standard user configuration.
///
/// Construction performs the signed and platform-sized conversions once so hot forward
/// paths use values that cannot fail conversion mid-request.
#[derive(Clone, Copy, Debug, PartialEq, Eq, Structural)]
pub struct Qwen3_5ModelChunkingConfiguration {
    /// Append-only attention capacity growth passed to MLX tensor shapes.
    full_attention_key_value_growth_tokens: i32,
    /// Resident multi-token prefill command-buffer interval. Zero is one lazy tape.
    prefill_graph_submission_layer_interval: u32,
    /// SSD-paged multi-token prefill command-buffer interval. Zero is one lazy tape.
    experimental_ssd_paging_prefill_graph_submission_layer_interval: u32,
    /// Experimental one-token layer interval used only during solid-state-drive paging.
    experimental_ssd_paging_generation_graph_submission_layer_interval: u32,
    /// Maximum prompt rows supplied to one drafter forward.
    speculative_prefill_draft_forward_tokens: usize,
}

/// Mathematical content of a chunking configuration.
#[derive(Clone, Copy, Debug, PartialEq, Eq, Structural)]
pub struct Qwen3_5ModelChunkingConfigurationView {
    pub full_attention_key_value_growth_tokens: i32,
    pub prefill_graph_submission_layer_interval: u32,
    pub experimental_ssd_paging_prefill_graph_submission_layer_interval: u32,
    pub experimental_ssd_paging_generation_graph_submission_layer_interval: u32,
    pub speculative_prefill_draft_forward_tokens: usize,
}

impl View for Qwen3_5ModelChunkingConfiguration {
    type V = Qwen3_5ModelChunkingConfigurationView;

    closed spec fn view(&self) -> Qwen3_5ModelChunkingConfigurationView {
        Qwen3_5ModelChunkingConfigurationView {
            full_attention_key_value_growth_tokens: self.full_attention_key_value_growth_tokens,
            prefill_graph_submission_layer_interval: self.prefill_graph_submission_layer_interval,
            experimental_ssd_paging_prefill_graph_submission_layer_interval:
                self.experimental_ssd_paging_prefill_graph_submission_layer_interval,
            experimental_ssd_paging_generation_graph_submission_layer_interval:
                self.experimental_ssd_paging_generation_graph_submission_layer_interval,
            speculative_prefill_draft_forward_tokens: self.speculative_prefill_draft_forward_tokens,
        }
    }
}

impl Qwen3_5ModelChunkingConfiguration {
    /// Validates the configured chunking: both the drafter forward size and the
    /// key/value growth must be positive, and the growth must fit MLX's `Int32`.
    pub fn new(
        full_attention_key_value_growth_tokens: u32,
        prefill_graph_submission_layer_interval: u32,
        experimental_ssd_paging_prefill_graph_submission_layer_interval: u32,
        experimental_ssd_paging_generation_graph_submission_layer_interval: u32,
        speculative_prefill_draft_forward_tokens: u32,
    ) -> (result: Result<Self, Qwen3_5ExecutionError>)
        ensures
            speculative_prefill_draft_forward_tokens == 0 ==> result == Err::<Self, Qwen3_5ExecutionError>(
                Qwen3_5ExecutionError::InvalidInput { reason: InvalidInputReason::NonPositiveDraftForwardTokens },
            ),
            speculative_prefill_draft_forward_tokens != 0 && full_attention_key_value_growth_tokens == 0
                ==> result == Err::<Self, Qwen3_5ExecutionError>(
                Qwen3_5ExecutionError::InvalidInput { reason: InvalidInputReason::NonPositiveKeyValueGrowthTokens },
            ),
            speculative_prefill_draft_forward_tokens != 0 && full_attention_key_value_growth_tokens != 0
                && full_attention_key_value_growth_tokens > i32::MAX ==> result == Err::<
                Self,
                Qwen3_5ExecutionError,
            >(
                Qwen3_5ExecutionError::InvalidInput {
                    reason: InvalidInputReason::KeyValueGrowthTokensExceedInt32Range,
                },
            ),
            speculative_prefill_draft_forward_tokens != 0 && full_attention_key_value_growth_tokens != 0
                && full_attention_key_value_growth_tokens <= i32::MAX ==> (result matches Ok(configuration)
                && configuration@ == Qwen3_5ModelChunkingConfigurationView {
                full_attention_key_value_growth_tokens: full_attention_key_value_growth_tokens as i32,
                prefill_graph_submission_layer_interval,
                experimental_ssd_paging_prefill_graph_submission_layer_interval,
                experimental_ssd_paging_generation_graph_submission_layer_interval,
                speculative_prefill_draft_forward_tokens: speculative_prefill_draft_forward_tokens as usize,
            }),
    {
        if speculative_prefill_draft_forward_tokens == 0 {
            return Err(
                Qwen3_5ExecutionError::InvalidInput { reason: InvalidInputReason::NonPositiveDraftForwardTokens },
            );
        }
        if full_attention_key_value_growth_tokens == 0 {
            return Err(
                Qwen3_5ExecutionError::InvalidInput { reason: InvalidInputReason::NonPositiveKeyValueGrowthTokens },
            );
        }
        if full_attention_key_value_growth_tokens > i32::MAX as u32 {
            return Err(
                Qwen3_5ExecutionError::InvalidInput {
                    reason: InvalidInputReason::KeyValueGrowthTokensExceedInt32Range,
                },
            );
        }
        Ok(
            Qwen3_5ModelChunkingConfiguration {
                full_attention_key_value_growth_tokens: full_attention_key_value_growth_tokens as i32,
                prefill_graph_submission_layer_interval,
                experimental_ssd_paging_prefill_graph_submission_layer_interval,
                experimental_ssd_paging_generation_graph_submission_layer_interval,
                speculative_prefill_draft_forward_tokens: speculative_prefill_draft_forward_tokens as usize,
            },
        )
    }

    pub fn full_attention_key_value_growth_tokens(&self) -> (tokens: i32)
        ensures
            tokens == self@.full_attention_key_value_growth_tokens,
    {
        self.full_attention_key_value_growth_tokens
    }

    pub fn prefill_graph_submission_layer_interval(&self) -> (interval: u32)
        ensures
            interval == self@.prefill_graph_submission_layer_interval,
    {
        self.prefill_graph_submission_layer_interval
    }

    pub fn experimental_ssd_paging_prefill_graph_submission_layer_interval(&self) -> (interval: u32)
        ensures
            interval == self@.experimental_ssd_paging_prefill_graph_submission_layer_interval,
    {
        self.experimental_ssd_paging_prefill_graph_submission_layer_interval
    }

    pub fn experimental_ssd_paging_generation_graph_submission_layer_interval(&self) -> (interval: u32)
        ensures
            interval == self@.experimental_ssd_paging_generation_graph_submission_layer_interval,
    {
        self.experimental_ssd_paging_generation_graph_submission_layer_interval
    }

    pub fn speculative_prefill_draft_forward_tokens(&self) -> (tokens: usize)
        ensures
            tokens == self@.speculative_prefill_draft_forward_tokens,
    {
        self.speculative_prefill_draft_forward_tokens
    }
}

/// Exclusive end of the next drafter forward: as many remaining prompt tokens as one
/// forward may take, shortened so that it does not cross the next persistent-cache
/// block boundary.
pub open spec fn draft_forward_end(
    draft_forward_start_token_count: usize,
    remaining_prompt_token_count: usize,
    maximum_draft_forward_token_count: usize,
    persistent_cache_block_token_count: Option<usize>,
) -> Option<int> {
    if remaining_prompt_token_count == 0 || maximum_draft_forward_token_count == 0 {
        None
    } else {
        let capped = if remaining_prompt_token_count <= maximum_draft_forward_token_count {
            remaining_prompt_token_count as int
        } else {
            maximum_draft_forward_token_count as int
        };
        match persistent_cache_block_token_count {
            Some(block) => if block == 0 {
                None
            } else {
                let until_boundary = block - (draft_forward_start_token_count % block) as int;
                let count = if capped <= until_boundary {
                    capped
                } else {
                    until_boundary
                };
                if draft_forward_start_token_count + count <= usize::MAX {
                    Some(draft_forward_start_token_count + count)
                } else {
                    None
                }
            },
            None => if draft_forward_start_token_count + capped <= usize::MAX {
                Some(draft_forward_start_token_count + capped)
            } else {
                None
            },
        }
    }
}

/// Returns the exclusive end position for one bounded drafter prompt forward.
///
/// Persistent capture requires each complete cache boundary to become visible in parent
/// order, so a normal drafter forward is shortened when it would cross the next boundary.
pub fn qwen3_5_speculative_prefill_draft_forward_end(
    draft_forward_start_token_count: usize,
    remaining_prompt_token_count: usize,
    maximum_draft_forward_token_count: usize,
    persistent_cache_block_token_count: Option<usize>,
) -> (end: Option<usize>)
    ensures
        match draft_forward_end(
            draft_forward_start_token_count,
            remaining_prompt_token_count,
            maximum_draft_forward_token_count,
            persistent_cache_block_token_count,
        ) {
            Some(e) => end == Some(e as usize),
            None => end is None,
        },
{
    if remaining_prompt_token_count == 0 || maximum_draft_forward_token_count == 0 {
        return None;
    }
    let mut next_draft_forward_token_count = if remaining_prompt_token_count <= maximum_draft_forward_token_count {
        remaining_prompt_token_count
    } else {
        maximum_draft_forward_token_count
    };
    match persistent_cache_block_token_count {
        Some(block) => {
            if block == 0 {
                return None;
            }
            let completed_tokens_in_current_cache_block = draft_forward_start_token_count % block;
            let tokens_until_next_cache_boundary = block - completed_tokens_in_current_cache_block;
            if tokens_until_next_cache_boundary < next_draft_forward_token_count {
                next_draft_forward_token_count = tokens_until_next_cache_boundary;
            }
        },
        None => {},
    }
    draft_forward_start_token_count.checked_add(next_draft_forward_token_count)
}

/// Drafter-forward law: a drafter forward always makes progress, never exceeds the
/// remaining prompt or the forward limit, and never crosses a persistent-cache block
/// boundary (it ends at or before the next multiple of the block size).
pub proof fn lemma_draft_forward_end_is_bounded(
    draft_forward_start_token_count: usize,
    remaining_prompt_token_count: usize,
    maximum_draft_forward_token_count: usize,
    persistent_cache_block_token_count: Option<usize>,
)
    ensures
        draft_forward_end(
            draft_forward_start_token_count,
            remaining_prompt_token_count,
            maximum_draft_forward_token_count,
            persistent_cache_block_token_count,
        ) matches Some(end) ==> {
            &&& draft_forward_start_token_count < end
            &&& end - draft_forward_start_token_count <= remaining_prompt_token_count
            &&& end - draft_forward_start_token_count <= maximum_draft_forward_token_count
            &&& persistent_cache_block_token_count matches Some(block) ==> end <= (
            draft_forward_start_token_count as int / block as int + 1) * block
        },
{
    match persistent_cache_block_token_count {
        Some(block) => {
            if block > 0 {
                let s = draft_forward_start_token_count as int;
                let b = block as int;
                assert(s == (s / b) * b + s % b) by (nonlinear_arith)
                    requires
                        b > 0,
                ;
                assert((s / b + 1) * b == (s / b) * b + b) by (nonlinear_arith);
            }
        },
        None => {},
    }
}

/// Drafter-forward progress law: a drafter forward exists exactly when prompt tokens
/// remain, a forward may take at least one, the block size (if any) is positive and the
/// end fits `usize`; and it takes as many tokens as it may: it either consumes the whole
/// remaining prompt, takes the full forward limit, or stops exactly on a persistent-cache
/// block boundary.
pub proof fn lemma_draft_forward_takes_all_it_may(
    draft_forward_start_token_count: usize,
    remaining_prompt_token_count: usize,
    maximum_draft_forward_token_count: usize,
    persistent_cache_block_token_count: Option<usize>,
)
    ensures
        draft_forward_end(
            draft_forward_start_token_count,
            remaining_prompt_token_count,
            maximum_draft_forward_token_count,
            persistent_cache_block_token_count,
        ) matches Some(end) ==> {
            ||| end - draft_forward_start_token_count == remaining_prompt_token_count
            ||| end - draft_forward_start_token_count == maximum_draft_forward_token_count
            ||| persistent_cache_block_token_count matches Some(block) && end % (block as int) == 0
        },
        (remaining_prompt_token_count == 0 || maximum_draft_forward_token_count == 0
            || persistent_cache_block_token_count == Some(0usize)) ==> draft_forward_end(
            draft_forward_start_token_count,
            remaining_prompt_token_count,
            maximum_draft_forward_token_count,
            persistent_cache_block_token_count,
        ) is None,
        (remaining_prompt_token_count > 0 && maximum_draft_forward_token_count > 0
            && persistent_cache_block_token_count != Some(0usize) && draft_forward_start_token_count
            + remaining_prompt_token_count <= usize::MAX) ==> draft_forward_end(
            draft_forward_start_token_count,
            remaining_prompt_token_count,
            maximum_draft_forward_token_count,
            persistent_cache_block_token_count,
        ) is Some,
{
    match persistent_cache_block_token_count {
        Some(block) => {
            if block > 0 {
                let s = draft_forward_start_token_count as int;
                let b = block as int;
                assert(s == (s / b) * b + s % b) by (nonlinear_arith)
                    requires
                        b > 0,
                ;
                assert(s + (b - s % b) == (s / b + 1) * b) by (nonlinear_arith)
                    requires
                        s == (s / b) * b + s % b,
                ;
                assert(((s / b + 1) * b) % b == 0) by (nonlinear_arith)
                    requires
                        b > 0,
                ;
                assert(0 <= s % b < b) by (nonlinear_arith)
                    requires
                        b > 0,
                ;
            }
        },
        None => {},
    }
}

/// Why gated-delta boundary checkpoint positions were rejected.
#[derive(Clone, Copy, Debug, PartialEq, Eq, Structural)]
pub enum BoundaryCheckpointPositionsError {
    /// No checkpoint positions were supplied.
    EmptyPositions,
    /// The checkpoint interval is not positive.
    NonPositiveInterval,
    /// Positions must be positive, strictly increasing, and less than the token count.
    PositionsOutOfOrderOrRange,
    /// Consecutive positions must be exactly one interval apart.
    SpacingMismatch,
}

/// The first position violation at index `from` or later, given the previous position.
pub open spec fn boundary_checkpoint_violation_from(
    positions: Seq<i32>,
    interval: i32,
    token_count: i32,
    previous: i32,
    from: int,
) -> Option<BoundaryCheckpointPositionsError>
    decreases positions.len() - from,
{
    if from < 0 || from >= positions.len() {
        None
    } else if positions[from] <= previous || positions[from] >= token_count {
        Some(BoundaryCheckpointPositionsError::PositionsOutOfOrderOrRange)
    } else if previous > 0 && positions[from] - previous != interval {
        Some(BoundaryCheckpointPositionsError::SpacingMismatch)
    } else {
        boundary_checkpoint_violation_from(positions, interval, token_count, positions[from], from + 1)
    }
}

/// Validates the completed-token counts at which gated-delta boundary states are kept.
pub fn validate_boundary_checkpoint_positions(
    completed_prefill_chunk_tokens: &[i32],
    checkpoint_interval_token_count: i32,
    token_count: i32,
) -> (result: Result<(), BoundaryCheckpointPositionsError>)
    ensures
        completed_prefill_chunk_tokens@.len() == 0 ==> result == Err::<(), BoundaryCheckpointPositionsError>(
            BoundaryCheckpointPositionsError::EmptyPositions,
        ),
        completed_prefill_chunk_tokens@.len() != 0 && checkpoint_interval_token_count <= 0 ==> result == Err::<
            (),
            BoundaryCheckpointPositionsError,
        >(BoundaryCheckpointPositionsError::NonPositiveInterval),
        completed_prefill_chunk_tokens@.len() != 0 && checkpoint_interval_token_count > 0 ==> result == match boundary_checkpoint_violation_from(
            completed_prefill_chunk_tokens@,
            checkpoint_interval_token_count,
            token_count,
            0,
            0,
        ) {
            Some(error) => Err::<(), BoundaryCheckpointPositionsError>(error),
            None => Ok(()),
        },
{
    if completed_prefill_chunk_tokens.len() == 0 {
        return Err(BoundaryCheckpointPositionsError::EmptyPositions);
    }
    if checkpoint_interval_token_count <= 0 {
        return Err(BoundaryCheckpointPositionsError::NonPositiveInterval);
    }
    let mut previous: i32 = 0;
    let mut index: usize = 0;
    while index < completed_prefill_chunk_tokens.len()
        invariant
            index <= completed_prefill_chunk_tokens@.len(),
            completed_prefill_chunk_tokens@.len() != 0,
            checkpoint_interval_token_count > 0,
            previous >= 0,
            boundary_checkpoint_violation_from(
                completed_prefill_chunk_tokens@,
                checkpoint_interval_token_count,
                token_count,
                0,
                0,
            ) == boundary_checkpoint_violation_from(
                completed_prefill_chunk_tokens@,
                checkpoint_interval_token_count,
                token_count,
                previous,
                index as int,
            ),
        decreases completed_prefill_chunk_tokens.len() - index,
    {
        let current = completed_prefill_chunk_tokens[index];
        if current <= previous || current >= token_count {
            return Err(BoundaryCheckpointPositionsError::PositionsOutOfOrderOrRange);
        }
        if previous > 0 && current - previous != checkpoint_interval_token_count {
            return Err(BoundaryCheckpointPositionsError::SpacingMismatch);
        }
        previous = current;
        index += 1;
    }
    Ok(())
}

proof fn lemma_checkpoint_spacing_from(positions: Seq<i32>, interval: i32, token_count: i32, from: int)
    requires
        1 <= from <= positions.len(),
        interval > 0,
        positions[from - 1] > 0,
    ensures
        (boundary_checkpoint_violation_from(positions, interval, token_count, positions[from - 1], from) is None)
            <==> (forall|i: int|
            from <= i < positions.len() ==> #[trigger] positions[i] < token_count && positions[i] == positions[i
                - 1] + interval),
    decreases positions.len() - from,
{
    if from < positions.len() {
        if positions[from] > positions[from - 1] && positions[from] < token_count && positions[from]
            - positions[from - 1] == interval {
            lemma_checkpoint_spacing_from(positions, interval, token_count, from + 1);
        }
    }
}

/// Checkpoint-position law: boundary checkpoint positions are accepted exactly when there
/// is at least one, the interval is positive, the first is positive, every position is
/// below the token count, and each following position lies exactly one interval after
/// the one before it.
pub proof fn lemma_checkpoints_are_evenly_spaced_inside_the_chunk(
    positions: Seq<i32>,
    interval: i32,
    token_count: i32,
)
    requires
        positions.len() > 0,
        interval > 0,
    ensures
        (boundary_checkpoint_violation_from(positions, interval, token_count, 0, 0) is None) <==> (positions[0]
            > 0 && (forall|i: int| 0 <= i < positions.len() ==> #[trigger] positions[i] < token_count) && (forall|
            i: int,
        | 1 <= i < positions.len() ==> #[trigger] positions[i] == positions[i - 1] + interval)),
{
    if positions[0] > 0 && positions[0] < token_count {
        lemma_checkpoint_spacing_from(positions, interval, token_count, 1);
    }
}

/// Converts a selection amount to MLX's `Int32`.
pub fn usize_to_i32(amount: usize) -> (result: Result<i32, Qwen3_5ExecutionError>)
    ensures
        amount <= i32::MAX ==> result == Ok::<i32, Qwen3_5ExecutionError>(amount as i32),
        amount > i32::MAX ==> result == Err::<i32, Qwen3_5ExecutionError>(
            Qwen3_5ExecutionError::InvalidInput { reason: InvalidInputReason::SelectionAmountExceedsMlxRange },
        ),
{
    if amount <= i32::MAX as usize {
        Ok(amount as i32)
    } else {
        Err(Qwen3_5ExecutionError::InvalidInput { reason: InvalidInputReason::SelectionAmountExceedsMlxRange })
    }
}

} // verus!
