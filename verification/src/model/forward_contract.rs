use vstd::prelude::*;

use crate::error::{InvalidInputReason, Qwen3_5ExecutionError};

verus! {

pub open spec fn invalid_input(reason: InvalidInputReason) -> Qwen3_5ExecutionError {
    Qwen3_5ExecutionError::InvalidInput { reason }
}

/// Outcome of forward-chunk validation: the chunk's MLX token count, or the first
/// violated condition.
pub open spec fn forward_input_outcome(
    token_ids: Seq<u32>,
    starting_position_tokens: u32,
    layer_model_state_count: usize,
    expected_decoder_layer_count: usize,
    vocabulary_size: u32,
    maximum_position_count: u32,
) -> Result<i32, Qwen3_5ExecutionError> {
    if token_ids.len() == 0 {
        Err(invalid_input(InvalidInputReason::EmptyForwardChunk))
    } else if layer_model_state_count != expected_decoder_layer_count {
        Err(
            Qwen3_5ExecutionError::DecoderLayerCountMismatch {
                actual_decoder_layer_count: layer_model_state_count,
                expected_decoder_layer_count,
            },
        )
    } else if exists|i: int| 0 <= i < token_ids.len() && token_ids[i] >= vocabulary_size {
        Err(invalid_input(InvalidInputReason::OutOfVocabularyToken))
    } else if token_ids.len() > u32::MAX {
        Err(invalid_input(InvalidInputReason::ForwardChunkExceedsU32Range))
    } else if starting_position_tokens + token_ids.len() > maximum_position_count {
        Err(invalid_input(InvalidInputReason::ForwardChunkExceedsModelPositions))
    } else if token_ids.len() > i32::MAX {
        Err(invalid_input(InvalidInputReason::ForwardChunkExceedsMlxIntegerRange))
    } else {
        Ok(token_ids.len() as i32)
    }
}

/// Validates one target forward chunk before any graph is built.
pub fn validate_forward_input(
    token_ids: &[u32],
    starting_position_tokens: u32,
    layer_model_state_count: usize,
    expected_decoder_layer_count: usize,
    vocabulary_size: u32,
    maximum_position_count: u32,
) -> (result: Result<i32, Qwen3_5ExecutionError>)
    ensures
        result == forward_input_outcome(
            token_ids@,
            starting_position_tokens,
            layer_model_state_count,
            expected_decoder_layer_count,
            vocabulary_size,
            maximum_position_count,
        ),
{
    if token_ids.len() == 0 {
        return Err(Qwen3_5ExecutionError::InvalidInput { reason: InvalidInputReason::EmptyForwardChunk });
    }
    if layer_model_state_count != expected_decoder_layer_count {
        return Err(
            Qwen3_5ExecutionError::DecoderLayerCountMismatch {
                actual_decoder_layer_count: layer_model_state_count,
                expected_decoder_layer_count,
            },
        );
    }
    let mut index: usize = 0;
    while index < token_ids.len()
        invariant
            index <= token_ids@.len(),
            token_ids@.len() != 0,
            layer_model_state_count == expected_decoder_layer_count,
            forall|i: int| 0 <= i < index ==> token_ids@[i] < vocabulary_size,
        decreases token_ids.len() - index,
    {
        if token_ids[index] >= vocabulary_size {
            assert(token_ids@[index as int] >= vocabulary_size);
            return Err(Qwen3_5ExecutionError::InvalidInput { reason: InvalidInputReason::OutOfVocabularyToken });
        }
        index += 1;
    }
    if token_ids.len() > u32::MAX as usize {
        return Err(Qwen3_5ExecutionError::InvalidInput { reason: InvalidInputReason::ForwardChunkExceedsU32Range });
    }
    let token_count = token_ids.len() as u32;
    match starting_position_tokens.checked_add(token_count) {
        Some(ending_position) => {
            if ending_position > maximum_position_count {
                return Err(
                    Qwen3_5ExecutionError::InvalidInput {
                        reason: InvalidInputReason::ForwardChunkExceedsModelPositions,
                    },
                );
            }
        },
        None => {
            return Err(
                Qwen3_5ExecutionError::InvalidInput { reason: InvalidInputReason::ForwardChunkExceedsModelPositions },
            );
        },
    }
    if token_count > i32::MAX as u32 {
        return Err(
            Qwen3_5ExecutionError::InvalidInput { reason: InvalidInputReason::ForwardChunkExceedsMlxIntegerRange },
        );
    }
    Ok(token_count as i32)
}

/// Forward-chunk law: an empty chunk is rejected first, then a decoder state whose layer
/// count differs from the model's. A chunk is accepted only when it is non-empty, the decoder state
/// has one entry per decoder layer, every token ID (the first included) is inside the
/// vocabulary, and the chunk fits the remaining positions; the accepted count is the
/// chunk length, and every chunk meeting those conditions (within the MLX integer range)
/// is accepted. A non-empty chunk with matching layers but any out-of-vocabulary token,
/// wherever it stands, is rejected for that token; one whose tokens are all in the
/// vocabulary but that runs past the last model position is rejected for that.
pub proof fn lemma_forward_chunk_accepts_only_in_vocabulary_tokens(
    token_ids: Seq<u32>,
    starting_position_tokens: u32,
    layer_model_state_count: usize,
    expected_decoder_layer_count: usize,
    vocabulary_size: u32,
    maximum_position_count: u32,
    index: int,
)
    ensures
        ({
            let outcome = forward_input_outcome(
                token_ids,
                starting_position_tokens,
                layer_model_state_count,
                expected_decoder_layer_count,
                vocabulary_size,
                maximum_position_count,
            );
            &&& outcome matches Ok(count) ==> {
                &&& count == token_ids.len()
                &&& token_ids.len() > 0
                &&& layer_model_state_count == expected_decoder_layer_count
                &&& forall|i: int| 0 <= i < token_ids.len() ==> #[trigger] token_ids[i] < vocabulary_size
                &&& starting_position_tokens + token_ids.len() <= maximum_position_count
            }
            &&& (token_ids.len() > 0 && layer_model_state_count == expected_decoder_layer_count && 0 <= index
                < token_ids.len() && token_ids[index] >= vocabulary_size) ==> outcome == Err::<
                i32,
                Qwen3_5ExecutionError,
            >(Qwen3_5ExecutionError::InvalidInput { reason: InvalidInputReason::OutOfVocabularyToken })
            &&& token_ids.len() == 0 ==> outcome == Err::<i32, Qwen3_5ExecutionError>(
                Qwen3_5ExecutionError::InvalidInput { reason: InvalidInputReason::EmptyForwardChunk },
            )
            &&& (token_ids.len() > 0 && layer_model_state_count != expected_decoder_layer_count) ==> outcome
                == Err::<i32, Qwen3_5ExecutionError>(
                Qwen3_5ExecutionError::DecoderLayerCountMismatch {
                    actual_decoder_layer_count: layer_model_state_count,
                    expected_decoder_layer_count,
                },
            )
            &&& (token_ids.len() > 0 && layer_model_state_count == expected_decoder_layer_count && (forall|i: int|
                0 <= i < token_ids.len() ==> #[trigger] token_ids[i] < vocabulary_size) && token_ids.len()
                <= u32::MAX && starting_position_tokens + token_ids.len() > maximum_position_count) ==> outcome
                == Err::<i32, Qwen3_5ExecutionError>(
                Qwen3_5ExecutionError::InvalidInput { reason: InvalidInputReason::ForwardChunkExceedsModelPositions },
            )
            &&& (token_ids.len() > 0 && layer_model_state_count == expected_decoder_layer_count && (forall|i: int|
                0 <= i < token_ids.len() ==> #[trigger] token_ids[i] < vocabulary_size) && starting_position_tokens
                + token_ids.len() <= maximum_position_count && token_ids.len() <= i32::MAX) ==> outcome == Ok::<
                i32,
                Qwen3_5ExecutionError,
            >(token_ids.len() as i32)
        }),
{
}

/// Outcome of validating a one-token generated forward.
pub open spec fn generated_token_forward_outcome(
    generated_token_shape: Seq<i32>,
    starting_position_tokens: u32,
    layer_model_state_count: usize,
    expected_decoder_layer_count: usize,
    maximum_position_count: u32,
) -> Result<(), Qwen3_5ExecutionError> {
    if generated_token_shape != seq![1i32, 1i32] {
        Err(invalid_input(InvalidInputReason::GeneratedTokenShape))
    } else if layer_model_state_count != expected_decoder_layer_count {
        Err(
            Qwen3_5ExecutionError::DecoderLayerCountMismatch {
                actual_decoder_layer_count: layer_model_state_count,
                expected_decoder_layer_count,
            },
        )
    } else if starting_position_tokens >= maximum_position_count {
        Err(invalid_input(InvalidInputReason::GeneratedTokenExceedsModelPositions))
    } else {
        Ok(())
    }
}

/// Validates a generated token (given by its array shape) before its one-token forward.
pub fn validate_generated_token_forward(
    generated_token_shape: &[i32],
    starting_position_tokens: u32,
    layer_model_state_count: usize,
    expected_decoder_layer_count: usize,
    maximum_position_count: u32,
) -> (result: Result<(), Qwen3_5ExecutionError>)
    ensures
        result == generated_token_forward_outcome(
            generated_token_shape@,
            starting_position_tokens,
            layer_model_state_count,
            expected_decoder_layer_count,
            maximum_position_count,
        ),
{
    if !(generated_token_shape.len() == 2 && generated_token_shape[0] == 1 && generated_token_shape[1] == 1) {
        assert(generated_token_shape@.len() == 2 ==> (generated_token_shape@ =~= seq![1i32, 1i32] <==> (
        generated_token_shape@[0] == 1 && generated_token_shape@[1] == 1)));
        return Err(Qwen3_5ExecutionError::InvalidInput { reason: InvalidInputReason::GeneratedTokenShape });
    }
    assert(generated_token_shape@ =~= seq![1i32, 1i32]);
    if layer_model_state_count != expected_decoder_layer_count {
        return Err(
            Qwen3_5ExecutionError::DecoderLayerCountMismatch {
                actual_decoder_layer_count: layer_model_state_count,
                expected_decoder_layer_count,
            },
        );
    }
    if starting_position_tokens >= maximum_position_count {
        return Err(
            Qwen3_5ExecutionError::InvalidInput { reason: InvalidInputReason::GeneratedTokenExceedsModelPositions },
        );
    }
    Ok(())
}

/// Outcome of validating the hidden states and next-token indices fused by the
/// prediction head: the fused token count, or the violated condition.
pub open spec fn mtp_forward_inputs_outcome(
    hidden_state_shape: Seq<i32>,
    next_token_shape: Seq<i32>,
    hidden_size: i32,
) -> Result<i32, Qwen3_5ExecutionError> {
    if hidden_state_shape.len() != 3 {
        Err(invalid_input(InvalidInputReason::MtpFusionHiddenStateShape))
    } else if hidden_state_shape[0] != 1 || hidden_state_shape[1] <= 0 || hidden_state_shape[2] != hidden_size
        || next_token_shape != seq![1i32, hidden_state_shape[1]] {
        Err(invalid_input(InvalidInputReason::MtpFusionShapeMismatch))
    } else {
        Ok(hidden_state_shape[1])
    }
}

/// Validates the prediction head's fusion inputs: hidden states `[1, tokens, hidden_size]`
/// and next-token indices `[1, tokens]`.
pub fn validate_mtp_forward_inputs(
    hidden_state_shape: &[i32],
    next_token_shape: &[i32],
    hidden_size: i32,
) -> (result: Result<i32, Qwen3_5ExecutionError>)
    ensures
        result == mtp_forward_inputs_outcome(hidden_state_shape@, next_token_shape@, hidden_size),
{
    if hidden_state_shape.len() != 3 {
        return Err(Qwen3_5ExecutionError::InvalidInput { reason: InvalidInputReason::MtpFusionHiddenStateShape });
    }
    let batch_size = hidden_state_shape[0];
    let token_count = hidden_state_shape[1];
    let hidden_dimension = hidden_state_shape[2];
    let next_token_shape_matches = next_token_shape.len() == 2 && next_token_shape[0] == 1
        && next_token_shape[1] == token_count;
    assert(next_token_shape_matches == (next_token_shape@ == seq![1i32, token_count])) by {
        if next_token_shape@.len() == 2 && next_token_shape@[0] == 1 && next_token_shape@[1] == token_count {
            assert(next_token_shape@ =~= seq![1i32, token_count]);
        }
    }
    if batch_size != 1 || token_count <= 0 || hidden_dimension != hidden_size || !next_token_shape_matches {
        return Err(Qwen3_5ExecutionError::InvalidInput { reason: InvalidInputReason::MtpFusionShapeMismatch });
    }
    Ok(token_count)
}

/// What a verification window hands to the target forward: its token count, the token
/// IDs as MLX `Int32` values, and the completed-prefix rows `1..token_count` whose
/// boundaries are captured.
#[derive(Clone, Debug, PartialEq, Eq)]
pub struct TargetVerificationWindowInputs {
    pub token_count: i32,
    pub signed_token_ids: Vec<i32>,
    pub completed_prefix_rows: Vec<i32>,
}

/// Outcome of validating a target verification window of two through four tokens.
pub open spec fn target_verification_window_outcome(
    token_ids: Seq<u32>,
    starting_position_tokens: u32,
    layer_model_state_count: usize,
    expected_decoder_layer_count: usize,
    vocabulary_size: u32,
    maximum_position_count: u32,
) -> Result<i32, Qwen3_5ExecutionError> {
    if token_ids.len() < 2 || token_ids.len() > 4 {
        Err(invalid_input(InvalidInputReason::VerificationWindowLength))
    } else {
        match forward_input_outcome(
            token_ids,
            starting_position_tokens,
            layer_model_state_count,
            expected_decoder_layer_count,
            vocabulary_size,
            maximum_position_count,
        ) {
            Err(error) => Err(error),
            Ok(token_count) => if exists|i: int| 0 <= i < token_ids.len() && token_ids[i] > i32::MAX {
                Err(invalid_input(InvalidInputReason::TokenIdExceedsMlxInt32))
            } else {
                Ok(token_count)
            },
        }
    }
}

/// Validates a target verification window and prepares its MLX inputs.
pub fn prepare_target_verification_window(
    token_ids: &[u32],
    starting_position_tokens: u32,
    layer_model_state_count: usize,
    expected_decoder_layer_count: usize,
    vocabulary_size: u32,
    maximum_position_count: u32,
) -> (result: Result<TargetVerificationWindowInputs, Qwen3_5ExecutionError>)
    ensures
        match target_verification_window_outcome(
            token_ids@,
            starting_position_tokens,
            layer_model_state_count,
            expected_decoder_layer_count,
            vocabulary_size,
            maximum_position_count,
        ) {
            Err(error) => result == Err::<TargetVerificationWindowInputs, Qwen3_5ExecutionError>(error),
            Ok(token_count) => result matches Ok(inputs) && inputs.token_count == token_count
                && inputs.signed_token_ids@ == token_ids@.map_values(|token_id: u32| token_id as i32)
                && inputs.completed_prefix_rows@ == Seq::new((token_count - 1) as nat, |row: int| (row + 1) as i32),
        },
{
    if token_ids.len() < 2 || token_ids.len() > 4 {
        return Err(Qwen3_5ExecutionError::InvalidInput { reason: InvalidInputReason::VerificationWindowLength });
    }
    let token_count = match validate_forward_input(
        token_ids,
        starting_position_tokens,
        layer_model_state_count,
        expected_decoder_layer_count,
        vocabulary_size,
        maximum_position_count,
    ) {
        Ok(count) => count,
        Err(error) => {
            return Err(error);
        },
    };
    assert(token_count as int == token_ids@.len());
    let mut signed_token_ids: Vec<i32> = Vec::new();
    let mut index: usize = 0;
    while index < token_ids.len()
        invariant
            index <= token_ids@.len(),
            2 <= token_ids@.len() <= 4,
            forward_input_outcome(
                token_ids@,
                starting_position_tokens,
                layer_model_state_count,
                expected_decoder_layer_count,
                vocabulary_size,
                maximum_position_count,
            ) == Ok::<i32, Qwen3_5ExecutionError>(token_count),
            forall|i: int| 0 <= i < index ==> token_ids@[i] <= i32::MAX,
            signed_token_ids@ == token_ids@.subrange(0, index as int).map_values(|token_id: u32| token_id as i32),
        decreases token_ids.len() - index,
    {
        let token_id = token_ids[index];
        if token_id > i32::MAX as u32 {
            assert(token_ids@[index as int] > i32::MAX);
            return Err(Qwen3_5ExecutionError::InvalidInput { reason: InvalidInputReason::TokenIdExceedsMlxInt32 });
        }
        signed_token_ids.push(token_id as i32);
        index += 1;
        assert(signed_token_ids@ =~= token_ids@.subrange(0, index as int).map_values(|token_id: u32| token_id as i32));
    }
    assert(token_ids@.subrange(0, index as int) =~= token_ids@);
    let mut completed_prefix_rows: Vec<i32> = Vec::new();
    let mut row: i32 = 1;
    while row < token_count
        invariant
            1 <= row <= token_count || token_count < 1,
            2 <= token_count <= 4,
            completed_prefix_rows@ == Seq::new((row - 1) as nat, |r: int| (r + 1) as i32),
        decreases token_count - row,
    {
        completed_prefix_rows.push(row);
        row += 1;
        assert(completed_prefix_rows@ =~= Seq::new((row - 1) as nat, |r: int| (r + 1) as i32));
    }
    Ok(TargetVerificationWindowInputs { token_count, signed_token_ids, completed_prefix_rows })
}

/// Generated-token law: a generated token is accepted exactly when it is one token
/// (shape `[1, 1]`), the decoder state has one entry per decoder layer, and its
/// position is still below the model's position count.
pub proof fn lemma_generated_token_needs_one_token_and_a_free_position(
    generated_token_shape: Seq<i32>,
    starting_position_tokens: u32,
    layer_model_state_count: usize,
    expected_decoder_layer_count: usize,
    maximum_position_count: u32,
)
    ensures
        (generated_token_forward_outcome(
            generated_token_shape,
            starting_position_tokens,
            layer_model_state_count,
            expected_decoder_layer_count,
            maximum_position_count,
        ) is Ok) <==> (generated_token_shape.len() == 2 && generated_token_shape[0] == 1
            && generated_token_shape[1] == 1 && layer_model_state_count == expected_decoder_layer_count
            && starting_position_tokens < maximum_position_count),
{
    if generated_token_shape.len() == 2 && generated_token_shape[0] == 1 && generated_token_shape[1] == 1 {
        assert(generated_token_shape =~= seq![1i32, 1i32]);
    }
}

/// Fusion-input law: the prediction head fuses `n` tokens exactly when the hidden states
/// have shape `[1, n, hidden_size]` with `n` positive and the next-token indices have
/// shape `[1, n]`; the fused count is `n`.
pub proof fn lemma_fusion_inputs_agree_on_the_token_count(
    hidden_state_shape: Seq<i32>,
    next_token_shape: Seq<i32>,
    hidden_size: i32,
)
    ensures
        (mtp_forward_inputs_outcome(hidden_state_shape, next_token_shape, hidden_size) is Ok) <==> (
        hidden_state_shape.len() == 3 && hidden_state_shape[0] == 1 && hidden_state_shape[1] > 0
            && hidden_state_shape[2] == hidden_size && next_token_shape.len() == 2 && next_token_shape[0] == 1
            && next_token_shape[1] == hidden_state_shape[1]),
        mtp_forward_inputs_outcome(hidden_state_shape, next_token_shape, hidden_size) matches Ok(count) ==> count
            == hidden_state_shape[1] && count == next_token_shape[1],
{
    if hidden_state_shape.len() == 3 && next_token_shape.len() == 2 && next_token_shape[0] == 1
        && next_token_shape[1] == hidden_state_shape[1] {
        assert(next_token_shape =~= seq![1i32, hidden_state_shape[1]]);
    }
}

/// Verification-window law: a window is accepted only with two through four tokens that
/// all lie in the vocabulary and fit MLX `Int32`, a decoder state with one entry per
/// layer, and room for every token before the last model position; its count is its
/// length.
pub proof fn lemma_verification_window_accepts_only_short_valid_windows(
    token_ids: Seq<u32>,
    starting_position_tokens: u32,
    layer_model_state_count: usize,
    expected_decoder_layer_count: usize,
    vocabulary_size: u32,
    maximum_position_count: u32,
)
    ensures
        target_verification_window_outcome(
            token_ids,
            starting_position_tokens,
            layer_model_state_count,
            expected_decoder_layer_count,
            vocabulary_size,
            maximum_position_count,
        ) matches Ok(count) ==> {
            &&& count == token_ids.len()
            &&& 2 <= token_ids.len() <= 4
            &&& layer_model_state_count == expected_decoder_layer_count
            &&& forall|i: int| 0 <= i < token_ids.len() ==> #[trigger] token_ids[i] < vocabulary_size
                && token_ids[i] <= i32::MAX
            &&& starting_position_tokens + token_ids.len() <= maximum_position_count
        },
        (token_ids.len() < 2 || token_ids.len() > 4) ==> target_verification_window_outcome(
            token_ids,
            starting_position_tokens,
            layer_model_state_count,
            expected_decoder_layer_count,
            vocabulary_size,
            maximum_position_count,
        ) == Err::<i32, Qwen3_5ExecutionError>(
            Qwen3_5ExecutionError::InvalidInput { reason: InvalidInputReason::VerificationWindowLength },
        ),
{
    lemma_forward_chunk_accepts_only_in_vocabulary_tokens(
        token_ids,
        starting_position_tokens,
        layer_model_state_count,
        expected_decoder_layer_count,
        vocabulary_size,
        maximum_position_count,
        0,
    );
}

} // verus!
