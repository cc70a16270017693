use model_serving::error::{InvalidInputReason, Qwen3_5ExecutionError};
use model_serving::model::forward_contract::{
    validate_forward_input, validate_generated_token_forward,
};

fn invalid_input(reason: InvalidInputReason) -> Qwen3_5ExecutionError {
    Qwen3_5ExecutionError::InvalidInput { reason }
}

#[test]
fn forward_input_returns_the_chunk_token_count() {
    assert_eq!(validate_forward_input(&[1, 2, 3], 10, 4, 4, 100, 13), Ok(3));
}

#[test]
fn forward_input_rejects_an_empty_chunk_first() {
    assert_eq!(
        validate_forward_input(&[], 0, 1, 4, 100, 13),
        Err(invalid_input(InvalidInputReason::EmptyForwardChunk))
    );
}

#[test]
fn forward_input_rejects_a_layer_count_mismatch() {
    assert_eq!(
        validate_forward_input(&[1], 0, 3, 4, 100, 13),
        Err(Qwen3_5ExecutionError::DecoderLayerCountMismatch {
            actual_decoder_layer_count: 3,
            expected_decoder_layer_count: 4,
        })
    );
}

#[test]
fn forward_input_rejects_out_of_vocabulary_tokens() {
    assert_eq!(
        validate_forward_input(&[1, 100, 2], 0, 4, 4, 100, 13),
        Err(invalid_input(InvalidInputReason::OutOfVocabularyToken))
    );
    assert_eq!(validate_forward_input(&[99], 0, 4, 4, 100, 13), Ok(1));
}

#[test]
fn forward_input_rejects_chunks_past_the_model_positions() {
    assert_eq!(
        validate_forward_input(&[1, 2, 3], 11, 4, 4, 100, 13),
        Err(invalid_input(InvalidInputReason::ForwardChunkExceedsModelPositions))
    );
    assert_eq!(
        validate_forward_input(&[1], u32::MAX, 4, 4, 100, u32::MAX),
        Err(invalid_input(InvalidInputReason::ForwardChunkExceedsModelPositions))
    );
}

#[test]
fn generated_token_forward_accepts_one_token_before_the_last_position() {
    assert_eq!(validate_generated_token_forward(&[1, 1], 12, 4, 4, 13), Ok(()));
}

#[test]
fn generated_token_forward_rejects_each_problem() {
    assert_eq!(
        validate_generated_token_forward(&[1, 2], 0, 4, 4, 13),
        Err(invalid_input(InvalidInputReason::GeneratedTokenShape))
    );
    assert_eq!(
        validate_generated_token_forward(&[1], 0, 4, 4, 13),
        Err(invalid_input(InvalidInputReason::GeneratedTokenShape))
    );
    assert_eq!(
        validate_generated_token_forward(&[1, 1], 0, 2, 4, 13),
        Err(Qwen3_5ExecutionError::DecoderLayerCountMismatch {
            actual_decoder_layer_count: 2,
            expected_decoder_layer_count: 4,
        })
    );
    assert_eq!(
        validate_generated_token_forward(&[1, 1], 13, 4, 4, 13),
        Err(invalid_input(InvalidInputReason::GeneratedTokenExceedsModelPositions))
    );
}

use model_serving::model::evaluation_roots::{
    collect_evaluation_roots, decoder_state_roots, forward_state_roots, DecoderLayerStatePresence,
    EvaluationRoot,
};
use model_serving::model::forward_contract::{
    prepare_target_verification_window, validate_mtp_forward_inputs, TargetVerificationWindowInputs,
};

const LINEAR: DecoderLayerStatePresence =
    DecoderLayerStatePresence::Composite { convolution: true, recurrent: true };
const FULL: DecoderLayerStatePresence =
    DecoderLayerStatePresence::AppendOnlyAttention { keys: true, values: true };

#[test]
fn forward_roots_are_the_output_and_each_convolution_state() {
    assert_eq!(
        forward_state_roots(&[LINEAR, FULL, LINEAR]),
        Ok(vec![
            EvaluationRoot::ForwardOutput,
            EvaluationRoot::Convolution { layer_index: 0 },
            EvaluationRoot::Convolution { layer_index: 2 },
        ])
    );
}

#[test]
fn decoder_state_roots_cover_every_state_array() {
    assert_eq!(
        decoder_state_roots(&[LINEAR, FULL]),
        Ok(vec![
            EvaluationRoot::Convolution { layer_index: 0 },
            EvaluationRoot::Recurrent { layer_index: 0 },
            EvaluationRoot::AttentionKeys { layer_index: 1 },
            EvaluationRoot::AttentionValues { layer_index: 1 },
        ])
    );
    assert_eq!(collect_evaluation_roots(false, &[], true), Ok(vec![]));
}

#[test]
fn an_unpopulated_layer_is_reported_by_index() {
    let missing_values = DecoderLayerStatePresence::AppendOnlyAttention { keys: true, values: false };
    assert_eq!(
        forward_state_roots(&[LINEAR, missing_values, DecoderLayerStatePresence::Other]),
        Err(Qwen3_5ExecutionError::InvalidRequestDecoderState { layer_index: 1 })
    );
    assert_eq!(
        decoder_state_roots(&[LINEAR, FULL, DecoderLayerStatePresence::Other]),
        Err(Qwen3_5ExecutionError::InvalidRequestDecoderState { layer_index: 2 })
    );
    let missing_recurrent = DecoderLayerStatePresence::Composite { convolution: true, recurrent: false };
    assert_eq!(
        decoder_state_roots(&[missing_recurrent]),
        Err(Qwen3_5ExecutionError::InvalidRequestDecoderState { layer_index: 0 })
    );
}

#[test]
fn mtp_fusion_inputs_return_the_token_count() {
    assert_eq!(validate_mtp_forward_inputs(&[1, 3, 2048], &[1, 3], 2048), Ok(3));
}

#[test]
fn mtp_fusion_inputs_reject_each_problem() {
    assert_eq!(
        validate_mtp_forward_inputs(&[3, 2048], &[1, 3], 2048),
        Err(invalid_input(InvalidInputReason::MtpFusionHiddenStateShape))
    );
    for (hidden, next) in [
        (vec![2, 3, 2048], vec![1, 3]),
        (vec![1, 0, 2048], vec![1, 0]),
        (vec![1, 3, 1024], vec![1, 3]),
        (vec![1, 3, 2048], vec![1, 2]),
        (vec![1, 3, 2048], vec![3]),
    ] {
        assert_eq!(
            validate_mtp_forward_inputs(&hidden, &next, 2048),
            Err(invalid_input(InvalidInputReason::MtpFusionShapeMismatch))
        );
    }
}

#[test]
fn verification_window_prepares_its_inputs() {
    assert_eq!(
        prepare_target_verification_window(&[5, 6, 7], 10, 4, 4, 100, 20),
        Ok(TargetVerificationWindowInputs {
            token_count: 3,
            signed_token_ids: vec![5, 6, 7],
            completed_prefix_rows: vec![1, 2],
        })
    );
}

#[test]
fn verification_window_rejects_each_problem() {
    assert_eq!(
        prepare_target_verification_window(&[5], 10, 4, 4, 100, 20),
        Err(invalid_input(InvalidInputReason::VerificationWindowLength))
    );
    assert_eq!(
        prepare_target_verification_window(&[1, 2, 3, 4, 5], 10, 4, 4, 100, 20),
        Err(invalid_input(InvalidInputReason::VerificationWindowLength))
    );
    assert_eq!(
        prepare_target_verification_window(&[5, 600], 10, 4, 4, 100, 20),
        Err(invalid_input(InvalidInputReason::OutOfVocabularyToken))
    );
    assert_eq!(
        prepare_target_verification_window(&[5, 1 << 31], 10, 4, 4, u32::MAX, 20),
        Err(invalid_input(InvalidInputReason::TokenIdExceedsMlxInt32))
    );
}
