use model_serving::error::{InvalidInputReason, Qwen3_5ExecutionError};
use model_serving::model::chunking::{
    qwen3_5_speculative_prefill_draft_forward_end, usize_to_i32,
    validate_boundary_checkpoint_positions, BoundaryCheckpointPositionsError,
    Qwen3_5ModelChunkingConfiguration,
};

fn invalid_input(reason: InvalidInputReason) -> Qwen3_5ExecutionError {
    Qwen3_5ExecutionError::InvalidInput { reason }
}

#[test]
fn chunking_configuration_keeps_validated_values() {
    let configuration = Qwen3_5ModelChunkingConfiguration::new(256, 4, 2, 1, 512)
        .expect("positive configuration");
    assert_eq!(configuration.full_attention_key_value_growth_tokens(), 256);
    assert_eq!(configuration.prefill_graph_submission_layer_interval(), 4);
    assert_eq!(configuration.experimental_ssd_paging_prefill_graph_submission_layer_interval(), 2);
    assert_eq!(configuration.experimental_ssd_paging_generation_graph_submission_layer_interval(), 1);
    assert_eq!(configuration.speculative_prefill_draft_forward_tokens(), 512);
}

#[test]
fn chunking_configuration_accepts_zero_intervals_and_int32_max_growth() {
    let configuration = Qwen3_5ModelChunkingConfiguration::new(i32::MAX as u32, 0, 0, 0, 1)
        .expect("largest growth fits Int32");
    assert_eq!(configuration.full_attention_key_value_growth_tokens(), i32::MAX);
    assert_eq!(configuration.prefill_graph_submission_layer_interval(), 0);
}

#[test]
fn chunking_configuration_rejects_zero_draft_forward_tokens_first() {
    assert_eq!(
        Qwen3_5ModelChunkingConfiguration::new(0, 1, 1, 1, 0),
        Err(invalid_input(InvalidInputReason::NonPositiveDraftForwardTokens))
    );
}

#[test]
fn chunking_configuration_rejects_zero_growth() {
    assert_eq!(
        Qwen3_5ModelChunkingConfiguration::new(0, 1, 1, 1, 8),
        Err(invalid_input(InvalidInputReason::NonPositiveKeyValueGrowthTokens))
    );
}

#[test]
fn chunking_configuration_rejects_growth_beyond_int32() {
    assert_eq!(
        Qwen3_5ModelChunkingConfiguration::new(i32::MAX as u32 + 1, 1, 1, 1, 8),
        Err(invalid_input(InvalidInputReason::KeyValueGrowthTokensExceedInt32Range))
    );
}

#[test]
fn draft_forward_takes_the_remaining_prompt_when_it_fits() {
    assert_eq!(qwen3_5_speculative_prefill_draft_forward_end(10, 5, 8, None), Some(15));
}

#[test]
fn draft_forward_is_capped_by_the_forward_limit() {
    assert_eq!(qwen3_5_speculative_prefill_draft_forward_end(10, 50, 8, None), Some(18));
}

#[test]
fn draft_forward_stops_at_the_next_cache_boundary() {
    assert_eq!(qwen3_5_speculative_prefill_draft_forward_end(10, 50, 32, Some(16)), Some(16));
    assert_eq!(qwen3_5_speculative_prefill_draft_forward_end(16, 50, 32, Some(16)), Some(32));
    assert_eq!(qwen3_5_speculative_prefill_draft_forward_end(17, 3, 32, Some(16)), Some(20));
}

#[test]
fn draft_forward_without_work_or_with_a_zero_block_is_none() {
    assert_eq!(qwen3_5_speculative_prefill_draft_forward_end(10, 0, 8, None), None);
    assert_eq!(qwen3_5_speculative_prefill_draft_forward_end(10, 5, 0, None), None);
    assert_eq!(qwen3_5_speculative_prefill_draft_forward_end(10, 5, 8, Some(0)), None);
}

#[test]
fn draft_forward_end_overflow_is_none() {
    assert_eq!(qwen3_5_speculative_prefill_draft_forward_end(usize::MAX, 5, 8, None), None);
}

#[test]
fn draft_forward_end_is_bounded_on_concrete_values() {
    for start in [0usize, 3, 15, 16, 31, 100] {
        for remaining in [1usize, 7, 40] {
            for maximum in [1usize, 8, 64] {
                for block in [None, Some(1usize), Some(16)] {
                    let end = qwen3_5_speculative_prefill_draft_forward_end(
                        start, remaining, maximum, block,
                    )
                    .expect("work and positive limits");
                    assert!(start < end);
                    assert!(end - start <= remaining);
                    assert!(end - start <= maximum);
                    if let Some(block) = block {
                        assert!(end <= (start / block + 1) * block);
                    }
                }
            }
        }
    }
}

#[test]
fn boundary_checkpoint_positions_accept_evenly_spaced_positions() {
    assert_eq!(validate_boundary_checkpoint_positions(&[16, 32, 48], 16, 50), Ok(()));
    assert_eq!(validate_boundary_checkpoint_positions(&[5], 16, 6), Ok(()));
}

#[test]
fn boundary_checkpoint_positions_reject_each_problem() {
    assert_eq!(
        validate_boundary_checkpoint_positions(&[], 16, 50),
        Err(BoundaryCheckpointPositionsError::EmptyPositions)
    );
    assert_eq!(
        validate_boundary_checkpoint_positions(&[16], 0, 50),
        Err(BoundaryCheckpointPositionsError::NonPositiveInterval)
    );
    assert_eq!(
        validate_boundary_checkpoint_positions(&[16, 16], 16, 50),
        Err(BoundaryCheckpointPositionsError::PositionsOutOfOrderOrRange)
    );
    assert_eq!(
        validate_boundary_checkpoint_positions(&[0], 16, 50),
        Err(BoundaryCheckpointPositionsError::PositionsOutOfOrderOrRange)
    );
    assert_eq!(
        validate_boundary_checkpoint_positions(&[16, 50], 34, 50),
        Err(BoundaryCheckpointPositionsError::PositionsOutOfOrderOrRange)
    );
    assert_eq!(
        validate_boundary_checkpoint_positions(&[16, 40], 16, 50),
        Err(BoundaryCheckpointPositionsError::SpacingMismatch)
    );
}

#[test]
fn selection_amounts_convert_within_int32() {
    assert_eq!(usize_to_i32(0), Ok(0));
    assert_eq!(usize_to_i32(i32::MAX as usize), Ok(i32::MAX));
    assert_eq!(
        usize_to_i32(i32::MAX as usize + 1),
        Err(invalid_input(InvalidInputReason::SelectionAmountExceedsMlxRange))
    );
}

#[test]
fn invalid_input_reasons_describe_themselves() {
    assert_eq!(
        InvalidInputReason::EmptyForwardChunk.description(),
        "forward chunk must contain at least one token"
    );
    assert_eq!(
        InvalidInputReason::SelectionAmountExceedsMlxRange.description(),
        "selection amount exceeds MLX range"
    );
}
