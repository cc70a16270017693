use model_serving::error::{InvalidInputReason, Qwen3_5ExecutionError};
use model_serving::model::dtype_flow::MlxDtype;
use model_serving::model::prefill_selection::{
    plan_speculative_prefill_selection, SpeculativePrefillSelectionPlan,
};

fn invalid(reason: InvalidInputReason) -> Qwen3_5ExecutionError {
    Qwen3_5ExecutionError::InvalidInput { reason }
}

#[test]
fn partial_last_chunk_is_padded_and_its_padding_excluded() {
    assert_eq!(
        plan_speculative_prefill_selection(&[10], MlxDtype::Float32, 50, 4, 3),
        Ok(SpeculativePrefillSelectionPlan {
            importance_score_count: 10,
            selection_chunk_count: 3,
            retained_selection_chunk_count: 2,
            ranked_selection_chunk_end: 1,
            ranked_selection_chunk_budget: 0,
            selected_selection_chunk_count: 2,
            right_padding_score_count: 2,
            selected_token_count: 6,
            selection_chunk_token_counts: vec![4, 4, 2],
        })
    );
}

#[test]
fn ranked_chunks_fill_the_budget_beside_the_mandatory_tail() {
    let plan = plan_speculative_prefill_selection(&[100], MlxDtype::Float32, 30, 10, 5).expect("valid");
    assert_eq!(plan.selection_chunk_count, 10);
    assert_eq!(plan.retained_selection_chunk_count, 3);
    assert_eq!(plan.ranked_selection_chunk_end, 9);
    assert_eq!(plan.ranked_selection_chunk_budget, 2);
    assert_eq!(plan.selected_selection_chunk_count, 3);
    assert_eq!(plan.right_padding_score_count, 0);
    assert_eq!(plan.selected_token_count, 30);
}

#[test]
fn mandatory_tail_longer_than_the_prompt_keeps_everything() {
    let plan = plan_speculative_prefill_selection(&[5], MlxDtype::Float32, 1, 2, 50).expect("valid");
    assert_eq!(plan.selection_chunk_count, 3);
    assert_eq!(plan.ranked_selection_chunk_end, 0);
    assert_eq!(plan.selected_selection_chunk_count, 3);
    assert_eq!(plan.selected_token_count, 5);
}

#[test]
fn selection_keeps_the_mandatory_tail_on_concrete_values() {
    for count in [1i32, 2, 7, 64, 129] {
        for chunk in [1usize, 3, 16, 200] {
            for keep in [1u32, 37, 100] {
                for mandatory in [1usize, 5, 1000] {
                    let plan = plan_speculative_prefill_selection(&[count], MlxDtype::Float32, keep, chunk, mandatory)
                        .expect("valid");
                    let count = count as usize;
                    assert!(1 <= plan.retained_selection_chunk_count);
                    assert!(plan.retained_selection_chunk_count <= plan.selection_chunk_count);
                    assert!(plan.selected_selection_chunk_count <= plan.selection_chunk_count);
                    assert!(plan.selected_token_count <= count);
                    assert!(plan.selected_token_count >= mandatory.min(count));
                    assert_eq!(plan.selection_chunk_token_counts.iter().sum::<usize>(), count);
                }
            }
        }
    }
}

#[test]
fn selection_inputs_are_rejected_in_order() {
    assert_eq!(
        plan_speculative_prefill_selection(&[0], MlxDtype::BFloat16, 0, 0, 0),
        Err(invalid(InvalidInputReason::ImportanceScoresNotNonEmptyVector))
    );
    assert_eq!(
        plan_speculative_prefill_selection(&[4, 4], MlxDtype::Float32, 50, 2, 1),
        Err(invalid(InvalidInputReason::ImportanceScoresNotNonEmptyVector))
    );
    assert_eq!(
        plan_speculative_prefill_selection(&[4], MlxDtype::BFloat16, 0, 0, 0),
        Err(invalid(InvalidInputReason::ImportanceScoresNotFloat32))
    );
    assert_eq!(
        plan_speculative_prefill_selection(&[4], MlxDtype::Float32, 101, 0, 0),
        Err(invalid(InvalidInputReason::KeepPercentageOutOfRange))
    );
    assert_eq!(
        plan_speculative_prefill_selection(&[4], MlxDtype::Float32, 50, 0, 1),
        Err(invalid(InvalidInputReason::NonPositiveSelectionCounts))
    );
    assert_eq!(
        plan_speculative_prefill_selection(&[4], MlxDtype::Float32, 50, usize::MAX, 1),
        Err(invalid(InvalidInputReason::SelectionChunkCountOverflow))
    );
    assert_eq!(
        plan_speculative_prefill_selection(&[1], MlxDtype::Float32, 50, 1 << 31, 1),
        Err(invalid(InvalidInputReason::SelectionAmountExceedsMlxRange))
    );
    assert_eq!(
        plan_speculative_prefill_selection(&[i32::MAX], MlxDtype::Float32, 100, 2, 1),
        Err(invalid(InvalidInputReason::SelectionAmountExceedsMlxRange))
    );
}
