//! Chunk budget of speculative-prefill token selection.
//!
//! The prompt's importance scores are grouped into fixed-size selection chunks. The
//! trailing chunks that hold the mandatory last tokens are always kept; the remaining
//! budget (the keep percentage of all chunks, rounded up, at least one) goes to the
//! best-ranked earlier chunks. Ranking the chunks needs the scores and runs on the
//! GPU; the counts below decide its shapes.

use vstd::prelude::*;

use crate::error::{InvalidInputReason, Qwen3_5ExecutionError};
use crate::model::dtype_flow::MlxDtype;

verus! {

/// Counts that shape one selection.
#[derive(Clone, Debug, PartialEq, Eq)]
pub struct SpeculativePrefillSelectionPlan {
    /// Prompt tokens with an importance score.
    pub importance_score_count: usize,
    /// Selection chunks covering the prompt; the last one may be partial.
    pub selection_chunk_count: usize,
    /// Chunks the keep percentage retains.
    pub retained_selection_chunk_count: usize,
    /// Chunks before the first mandatory trailing chunk; only these are ranked.
    pub ranked_selection_chunk_end: usize,
    /// Ranked chunks selected besides the mandatory ones.
    pub ranked_selection_chunk_budget: usize,
    /// All selected chunks.
    pub selected_selection_chunk_count: usize,
    /// Zero scores appended so that every chunk is full.
    pub right_padding_score_count: usize,
    /// Selected prompt tokens (the padding of the last chunk excluded).
    pub selected_token_count: usize,
    /// Real (unpadded) tokens in each chunk, by which its score sum is averaged.
    pub selection_chunk_token_counts: Vec<usize>,
}

/// Chunks of `chunk` tokens that cover `count` tokens.
pub open spec fn covering_chunks(count: int, chunk: int) -> int {
    (count + chunk - 1) / chunk
}

/// The keep percentage of `chunk_count` chunks, rounded up, at least one and at most all.
pub open spec fn retained_chunks(chunk_count: int, keep_percentage: int) -> int {
    let rounded = (chunk_count * keep_percentage + 99) / 100;
    if rounded < 1 {
        1
    } else if rounded > chunk_count {
        chunk_count
    } else {
        rounded
    }
}

/// Index of the chunk holding the first mandatory trailing token.
pub open spec fn first_mandatory_chunk(count: int, mandatory: int, chunk: int) -> int {
    (if count >= mandatory {
        count - mandatory
    } else {
        0
    }) / chunk
}

/// Why the selection inputs are rejected, if they are.
pub open spec fn selection_rejection(
    importance_score_shape: Seq<i32>,
    importance_score_dtype: MlxDtype,
    keep_percentage: u32,
    chunk: usize,
    mandatory: usize,
) -> Option<InvalidInputReason> {
    if importance_score_shape.len() != 1 || importance_score_shape[0] <= 0 {
        Some(InvalidInputReason::ImportanceScoresNotNonEmptyVector)
    } else if importance_score_dtype != MlxDtype::Float32 {
        Some(InvalidInputReason::ImportanceScoresNotFloat32)
    } else if keep_percentage < 1 || keep_percentage > 100 {
        Some(InvalidInputReason::KeepPercentageOutOfRange)
    } else if chunk == 0 || mandatory == 0 {
        Some(InvalidInputReason::NonPositiveSelectionCounts)
    } else if importance_score_shape[0] + chunk - 1 > usize::MAX {
        Some(InvalidInputReason::SelectionChunkCountOverflow)
    } else {
        let count = importance_score_shape[0] as int;
        let chunk_count = covering_chunks(count, chunk as int);
        let retained = retained_chunks(chunk_count, keep_percentage as int);
        let mandatory_chunks = chunk_count - first_mandatory_chunk(count, mandatory as int, chunk as int);
        let budget = if retained > mandatory_chunks {
            retained - mandatory_chunks
        } else {
            0
        };
        if chunk > i32::MAX || (budget + mandatory_chunks) * chunk > i32::MAX {
            Some(InvalidInputReason::SelectionAmountExceedsMlxRange)
        } else {
            None
        }
    }
}

/// The plan's counts for a prompt of `count` scored tokens.
pub open spec fn selection_plan_is(
    plan: SpeculativePrefillSelectionPlan,
    count: int,
    keep_percentage: int,
    chunk: int,
    mandatory: int,
) -> bool {
    let chunk_count = covering_chunks(count, chunk);
    let retained = retained_chunks(chunk_count, keep_percentage);
    let ranked_end = first_mandatory_chunk(count, mandatory, chunk);
    let mandatory_chunks = chunk_count - ranked_end;
    let budget = if retained > mandatory_chunks {
        retained - mandatory_chunks
    } else {
        0
    };
    &&& plan.importance_score_count == count
    &&& plan.selection_chunk_count == chunk_count
    &&& plan.retained_selection_chunk_count == retained
    &&& plan.ranked_selection_chunk_end == ranked_end
    &&& plan.ranked_selection_chunk_budget == budget
    &&& plan.selected_selection_chunk_count == budget + mandatory_chunks
    &&& plan.right_padding_score_count == chunk_count * chunk - count
    &&& plan.selected_token_count == (budget + mandatory_chunks) * chunk - (chunk_count * chunk - count)
    &&& plan.selection_chunk_token_counts@.len() == chunk_count
    &&& forall|i: int|
        0 <= i < chunk_count ==> #[trigger] plan.selection_chunk_token_counts@[i] == if count - i * chunk < chunk {
            count - i * chunk
        } else {
            chunk
        }
}

proof fn lemma_covering_chunks(count: int, chunk: int)
    requires
        count >= 1,
        chunk >= 1,
    ensures
        1 <= covering_chunks(count, chunk) <= count,
        covering_chunks(count, chunk) * chunk >= count,
        covering_chunks(count, chunk) * chunk - count < chunk,
        (count - 1) / chunk == covering_chunks(count, chunk) - 1,
{
    let c = covering_chunks(count, chunk);
    let q = (count - 1) / chunk;
    let r = (count - 1) % chunk;
    assert(count - 1 == q * chunk + r && 0 <= r < chunk) by (nonlinear_arith)
        requires
            chunk >= 1,
            q == (count - 1) / chunk,
            r == (count - 1) % chunk,
    ;
    assert(count + chunk - 1 == (q + 1) * chunk + r) by (nonlinear_arith)
        requires
            count - 1 == q * chunk + r,
    ;
    assert(c == q + 1) by (nonlinear_arith)
        requires
            count + chunk - 1 == (q + 1) * chunk + r,
            0 <= r < chunk,
            c == (count + chunk - 1) / chunk,
            chunk >= 1,
    ;
    assert(q >= 0 && q <= count - 1) by (nonlinear_arith)
        requires
            count - 1 == q * chunk + r,
            0 <= r < chunk,
            chunk >= 1,
            count >= 1,
    ;
    assert(c * chunk == count - 1 - r + chunk) by (nonlinear_arith)
        requires
            c == q + 1,
            count - 1 == q * chunk + r,
    ;
}

proof fn lemma_first_mandatory_chunk(count: int, mandatory: int, chunk: int)
    requires
        count >= 1,
        mandatory >= 1,
        chunk >= 1,
    ensures
        0 <= first_mandatory_chunk(count, mandatory, chunk) < covering_chunks(count, chunk),
        first_mandatory_chunk(count, mandatory, chunk) * chunk <= (if count >= mandatory {
            count - mandatory
        } else {
            0
        }),
{
    let start = if count >= mandatory {
        count - mandatory
    } else {
        0
    };
    let f = start / chunk;
    lemma_covering_chunks(count, chunk);
    assert(0 <= f <= (count - 1) / chunk) by (nonlinear_arith)
        requires
            0 <= start <= count - 1,
            chunk >= 1,
            f == start / chunk,
    ;
    assert(f * chunk <= start) by (nonlinear_arith)
        requires
            start >= 0,
            chunk >= 1,
            f == start / chunk,
    ;
}

proof fn lemma_retained_chunks_fit(chunk_count: int, keep_percentage: int)
    requires
        chunk_count >= 1,
        1 <= keep_percentage <= 100,
    ensures
        (chunk_count * keep_percentage + 99) / 100 <= chunk_count,
        (chunk_count * keep_percentage + 99) / 100 >= 1,
{
    assert((chunk_count * keep_percentage + 99) / 100 <= chunk_count) by (nonlinear_arith)
        requires
            chunk_count >= 1,
            keep_percentage <= 100,
    ;
    assert((chunk_count * keep_percentage + 99) / 100 >= 1) by (nonlinear_arith)
        requires
            chunk_count >= 1,
            keep_percentage >= 1,
    ;
}

/// Plans a speculative-prefill selection over `importance_score_shape` scores.
pub fn plan_speculative_prefill_selection(
    importance_score_shape: &[i32],
    importance_score_dtype: MlxDtype,
    keep_percentage: u32,
    selection_chunk_token_count: usize,
    mandatory_trailing_token_count: usize,
) -> (result: Result<SpeculativePrefillSelectionPlan, Qwen3_5ExecutionError>)
    ensures
        match selection_rejection(
            importance_score_shape@,
            importance_score_dtype,
            keep_percentage,
            selection_chunk_token_count,
            mandatory_trailing_token_count,
        ) {
            Some(reason) => result == Err::<SpeculativePrefillSelectionPlan, Qwen3_5ExecutionError>(
                Qwen3_5ExecutionError::InvalidInput { reason },
            ),
            None => result matches Ok(plan) && selection_plan_is(
                plan,
                importance_score_shape@[0] as int,
                keep_percentage as int,
                selection_chunk_token_count as int,
                mandatory_trailing_token_count as int,
            ),
        },
{
    if importance_score_shape.len() != 1 || importance_score_shape[0] <= 0 {
        return Err(Qwen3_5ExecutionError::InvalidInput { reason: InvalidInputReason::ImportanceScoresNotNonEmptyVector });
    }
    if importance_score_dtype != MlxDtype::Float32 {
        return Err(Qwen3_5ExecutionError::InvalidInput { reason: InvalidInputReason::ImportanceScoresNotFloat32 });
    }
    if keep_percentage < 1 || keep_percentage > 100 {
        return Err(Qwen3_5ExecutionError::InvalidInput { reason: InvalidInputReason::KeepPercentageOutOfRange });
    }
    let chunk = selection_chunk_token_count;
    let mandatory = mandatory_trailing_token_count;
    if chunk == 0 || mandatory == 0 {
        return Err(Qwen3_5ExecutionError::InvalidInput { reason: InvalidInputReason::NonPositiveSelectionCounts });
    }
    let count = importance_score_shape[0] as usize;
    let padded_end = match count.checked_add(chunk - 1) {
        Some(end) => end,
        None => {
            return Err(Qwen3_5ExecutionError::InvalidInput { reason: InvalidInputReason::SelectionChunkCountOverflow });
        },
    };
    let chunk_count = padded_end / chunk;
    proof {
        lemma_covering_chunks(count as int, chunk as int);
        lemma_first_mandatory_chunk(count as int, mandatory as int, chunk as int);
        lemma_retained_chunks_fit(chunk_count as int, keep_percentage as int);
    }
    assert(chunk_count <= count);
    let rounded = ((chunk_count as u64) * (keep_percentage as u64) + 99) / 100;
    let retained: usize = if rounded < 1 {
        1
    } else if rounded > chunk_count as u64 {
        chunk_count
    } else {
        rounded as usize
    };
    let mandatory_start = count.saturating_sub(mandatory);
    let ranked_end = mandatory_start / chunk;
    let mandatory_chunks = chunk_count - ranked_end;
    let budget = retained.saturating_sub(mandatory_chunks);
    let selected = budget + mandatory_chunks;
    assert(selected <= chunk_count);
    let padded = chunk_count * chunk;
    assert(selected * chunk <= padded) by (nonlinear_arith)
        requires
            selected <= chunk_count,
            padded == chunk_count * chunk,
    ;
    let right_padding = padded - count;
    let capacity = selected * chunk;
    if chunk > i32::MAX as usize || capacity > i32::MAX as usize {
        return Err(Qwen3_5ExecutionError::InvalidInput { reason: InvalidInputReason::SelectionAmountExceedsMlxRange });
    }
    assert(capacity >= right_padding) by (nonlinear_arith)
        requires
            selected >= 1,
            capacity == selected * chunk,
            right_padding < chunk,
    ;
    let selected_token_count = capacity - right_padding;
    assert((chunk_count - 1) * chunk < count) by (nonlinear_arith)
        requires
            chunk_count * chunk - count < chunk,
    ;
    let mut selection_chunk_token_counts: Vec<usize> = Vec::new();
    let mut index: usize = 0;
    while index < chunk_count
        invariant
            index <= chunk_count,
            chunk_count * chunk == padded,
            padded >= count,
            chunk >= 1,
            selection_chunk_token_counts@.len() == index,
            forall|i: int|
                0 <= i < index ==> #[trigger] selection_chunk_token_counts@[i] == if count - i * chunk < chunk {
                    count - i * chunk
                } else {
                    chunk as int
                },
            (chunk_count - 1) * chunk < count,
        decreases chunk_count - index,
    {
        assert(index * chunk <= (chunk_count - 1) * chunk) by (nonlinear_arith)
            requires
                index < chunk_count,
                chunk >= 1,
        ;
        let start = index * chunk;
        let remaining = count - start;
        let tokens = if remaining < chunk {
            remaining
        } else {
            chunk
        };
        selection_chunk_token_counts.push(tokens);
        index += 1;
    }
    Ok(
        SpeculativePrefillSelectionPlan {
            importance_score_count: count,
            selection_chunk_count: chunk_count,
            retained_selection_chunk_count: retained,
            ranked_selection_chunk_end: ranked_end,
            ranked_selection_chunk_budget: budget,
            selected_selection_chunk_count: selected,
            right_padding_score_count: right_padding,
            selected_token_count,
            selection_chunk_token_counts,
        },
    )
}

/// Selection law: at least one chunk and never more than all chunks are selected, the
/// mandatory trailing chunks always are, and the selected tokens never outnumber the
/// prompt while covering at least its mandatory trailing tokens.
pub proof fn lemma_selection_keeps_the_mandatory_tail(
    plan: SpeculativePrefillSelectionPlan,
    count: int,
    keep_percentage: int,
    chunk: int,
    mandatory: int,
)
    requires
        count >= 1,
        1 <= keep_percentage <= 100,
        chunk >= 1,
        mandatory >= 1,
        selection_plan_is(plan, count, keep_percentage, chunk, mandatory),
    ensures
        1 <= plan.retained_selection_chunk_count <= plan.selection_chunk_count,
        plan.selected_selection_chunk_count <= plan.selection_chunk_count,
        plan.selected_selection_chunk_count >= plan.retained_selection_chunk_count,
        plan.selection_chunk_count - plan.ranked_selection_chunk_end >= 1,
        plan.selected_token_count <= count,
        plan.selected_token_count >= (if mandatory < count {
            mandatory
        } else {
            count
        }),
{
    lemma_covering_chunks(count, chunk);
    lemma_first_mandatory_chunk(count, mandatory, chunk);
    lemma_retained_chunks_fit(covering_chunks(count, chunk), keep_percentage);
    let c = covering_chunks(count, chunk);
    let f = first_mandatory_chunk(count, mandatory, chunk);
    let selected = plan.selected_selection_chunk_count as int;
    assert(selected * chunk <= c * chunk) by (nonlinear_arith)
        requires
            selected <= c,
            chunk >= 1,
    ;
    assert(selected * chunk >= (c - f) * chunk) by (nonlinear_arith)
        requires
            selected >= c - f,
            chunk >= 1,
    ;
    assert((c - f) * chunk == c * chunk - f * chunk) by (nonlinear_arith);
}

/// Selection-count law: the chunks are the fewest that cover the prompt; the retained
/// chunks are the keep percentage of them rounded up (the fewest whose share reaches the
/// percentage); the ranked region ends at the chunk holding the first mandatory
/// trailing token; every mandatory chunk and every retained chunk is selected, and no
/// more; the padding fills the last chunk; and the selected tokens are the selected
/// chunks' tokens without that padding.
pub proof fn lemma_selection_counts_are_the_smallest_that_suffice(
    plan: SpeculativePrefillSelectionPlan,
    count: int,
    keep_percentage: int,
    chunk: int,
    mandatory: int,
)
    requires
        count >= 1,
        1 <= keep_percentage <= 100,
        chunk >= 1,
        mandatory >= 1,
        selection_plan_is(plan, count, keep_percentage, chunk, mandatory),
    ensures
        ({
            let chunks = plan.selection_chunk_count as int;
            let retained = plan.retained_selection_chunk_count as int;
            let ranked_end = plan.ranked_selection_chunk_end as int;
            let selected = plan.selected_selection_chunk_count as int;
            let mandatory_chunks = chunks - ranked_end;
            &&& chunks * chunk >= count
            &&& (chunks - 1) * chunk < count
            &&& retained * 100 >= chunks * keep_percentage
            &&& (retained - 1) * 100 < chunks * keep_percentage
            &&& count >= mandatory ==> ranked_end * chunk <= count - mandatory < (ranked_end + 1) * chunk
            &&& count < mandatory ==> ranked_end == 0
            &&& selected >= retained && selected >= mandatory_chunks
            &&& (selected == retained || selected == mandatory_chunks)
            &&& plan.ranked_selection_chunk_budget == selected - mandatory_chunks
            &&& plan.right_padding_score_count == chunks * chunk - count
            &&& plan.selected_token_count == selected * chunk - plan.right_padding_score_count
        }),
{
    lemma_covering_chunks(count, chunk);
    lemma_first_mandatory_chunk(count, mandatory, chunk);
    let c = covering_chunks(count, chunk);
    lemma_retained_chunks_fit(c, keep_percentage);
    let rounded = (c * keep_percentage + 99) / 100;
    assert(rounded * 100 >= c * keep_percentage && (rounded - 1) * 100 < c * keep_percentage) by (nonlinear_arith)
        requires
            rounded == (c * keep_percentage + 99) / 100,
            c >= 1,
            keep_percentage >= 1,
    ;
    assert((c - 1) * chunk == c * chunk - chunk) by (nonlinear_arith);
    let start = if count >= mandatory {
        count - mandatory
    } else {
        0
    };
    let f = first_mandatory_chunk(count, mandatory, chunk);
    assert(f * chunk <= start < (f + 1) * chunk) by (nonlinear_arith)
        requires
            f == start / chunk,
            start >= 0,
            chunk >= 1,
    ;
    if count < mandatory {
        assert(f == 0);
    }
}

} // verus!
