//! Errors of the model-serving contracts.

use vstd::prelude::*;

verus! {

/// Why a model input was rejected.
#[derive(Clone, Copy, Debug, PartialEq, Eq, Structural)]
pub enum InvalidInputReason {
    EmptyForwardChunk,
    OutOfVocabularyToken,
    ForwardChunkExceedsU32Range,
    ForwardChunkExceedsModelPositions,
    ForwardChunkExceedsMlxIntegerRange,
    GeneratedTokenShape,
    GeneratedTokenExceedsModelPositions,
    NonPositiveDraftForwardTokens,
    NonPositiveKeyValueGrowthTokens,
    KeyValueGrowthTokensExceedInt32Range,
    SelectionAmountExceedsMlxRange,
    SparseDtypeFlowRequiresExpertPager,
    MissingExpertLayerPlan,
    MissingExpertAffineParameterDtype,
    NonFloatingExpertAffineParameter,
    UnsupportedDecoderDtype,
    UnsupportedDecoderCacheDtype,
    MtpFusionHiddenStateShape,
    MtpFusionShapeMismatch,
    VerificationWindowLength,
    TokenIdExceedsMlxInt32,
    ImportanceScoresNotNonEmptyVector,
    ImportanceScoresNotFloat32,
    KeepPercentageOutOfRange,
    NonPositiveSelectionCounts,
    SelectionChunkCountOverflow,
    QueryTokenCountExceedsHostCapacity,
}

/// What a rejected input reason says.
pub open spec fn invalid_input_text(value: InvalidInputReason) -> Seq<char> {
    match value {
        InvalidInputReason::EmptyForwardChunk => "forward chunk must contain at least one token"@,
        InvalidInputReason::OutOfVocabularyToken => "forward chunk contains an out-of-vocabulary token ID"@,
        InvalidInputReason::ForwardChunkExceedsU32Range => "forward chunk token count exceeds the u32 range"@,
        InvalidInputReason::ForwardChunkExceedsModelPositions => "forward chunk exceeds certified model positions"@,
        InvalidInputReason::ForwardChunkExceedsMlxIntegerRange => "forward chunk token count exceeds the MLX integer range"@,
        InvalidInputReason::GeneratedTokenShape => "generated token array must have shape [1, 1]"@,
        InvalidInputReason::GeneratedTokenExceedsModelPositions => "forward chunk exceeds the certified maximum position count"@,
        InvalidInputReason::NonPositiveDraftForwardTokens => "speculative-prefill draft forward tokens must be positive"@,
        InvalidInputReason::NonPositiveKeyValueGrowthTokens => "full-attention key/value growth tokens must be positive"@,
        InvalidInputReason::KeyValueGrowthTokensExceedInt32Range => "full-attention key/value growth tokens exceed the Int32 range"@,
        InvalidInputReason::SelectionAmountExceedsMlxRange => "selection amount exceeds MLX range"@,
        InvalidInputReason::SparseDtypeFlowRequiresExpertPager => "sparse decoder-cache dtype derivation requires an expert pager"@,
        InvalidInputReason::MissingExpertLayerPlan => "expert pager has no plan for a sparse decoder layer"@,
        InvalidInputReason::MissingExpertAffineParameterDtype => "expert layer plan is missing an affine parameter dtype"@,
        InvalidInputReason::NonFloatingExpertAffineParameter => "expert affine parameter has a non-floating dtype"@,
        InvalidInputReason::UnsupportedDecoderDtype => "decoder dtype flow encountered an unsupported MLX dtype"@,
        InvalidInputReason::UnsupportedDecoderCacheDtype => "decoder cache state has an unsupported MLX dtype"@,
        InvalidInputReason::MtpFusionHiddenStateShape => "MTP fusion hidden states must have shape [1, tokens, hidden_size]"@,
        InvalidInputReason::MtpFusionShapeMismatch => "MTP fusion hidden states and next-token indices have incompatible shapes"@,
        InvalidInputReason::VerificationWindowLength => "target verification window requires two through four target tokens"@,
        InvalidInputReason::TokenIdExceedsMlxInt32 => "token ID exceeds the MLX int32 range"@,
        InvalidInputReason::ImportanceScoresNotNonEmptyVector => "importance scores must be a non-empty vector"@,
        InvalidInputReason::ImportanceScoresNotFloat32 => "importance scores must use float32"@,
        InvalidInputReason::KeepPercentageOutOfRange => "keep percentage must be between 1 and 100"@,
        InvalidInputReason::NonPositiveSelectionCounts => "selection and mandatory trailing token counts must be positive"@,
        InvalidInputReason::SelectionChunkCountOverflow => "selection chunk count overflowed"@,
        InvalidInputReason::QueryTokenCountExceedsHostCapacity => "query token count exceeded host capacity"@,
    }
}

impl InvalidInputReason {
    /// Human-readable explanation.
    pub fn description(&self) -> (text: &'static str)
        ensures
            text@ == invalid_input_text(*self),
    {
        match self {
            InvalidInputReason::EmptyForwardChunk => "forward chunk must contain at least one token",
            InvalidInputReason::OutOfVocabularyToken => "forward chunk contains an out-of-vocabulary token ID",
            InvalidInputReason::ForwardChunkExceedsU32Range => "forward chunk token count exceeds the u32 range",
            InvalidInputReason::ForwardChunkExceedsModelPositions => "forward chunk exceeds certified model positions",
            InvalidInputReason::ForwardChunkExceedsMlxIntegerRange => "forward chunk token count exceeds the MLX integer range",
            InvalidInputReason::GeneratedTokenShape => "generated token array must have shape [1, 1]",
            InvalidInputReason::GeneratedTokenExceedsModelPositions => "forward chunk exceeds the certified maximum position count",
            InvalidInputReason::NonPositiveDraftForwardTokens => "speculative-prefill draft forward tokens must be positive",
            InvalidInputReason::NonPositiveKeyValueGrowthTokens => "full-attention key/value growth tokens must be positive",
            InvalidInputReason::KeyValueGrowthTokensExceedInt32Range => "full-attention key/value growth tokens exceed the Int32 range",
            InvalidInputReason::SelectionAmountExceedsMlxRange => "selection amount exceeds MLX range",
            InvalidInputReason::SparseDtypeFlowRequiresExpertPager => "sparse decoder-cache dtype derivation requires an expert pager",
            InvalidInputReason::MissingExpertLayerPlan => "expert pager has no plan for a sparse decoder layer",
            InvalidInputReason::MissingExpertAffineParameterDtype => "expert layer plan is missing an affine parameter dtype",
            InvalidInputReason::NonFloatingExpertAffineParameter => "expert affine parameter has a non-floating dtype",
            InvalidInputReason::UnsupportedDecoderDtype => "decoder dtype flow encountered an unsupported MLX dtype",
            InvalidInputReason::UnsupportedDecoderCacheDtype => "decoder cache state has an unsupported MLX dtype",
            InvalidInputReason::MtpFusionHiddenStateShape => "MTP fusion hidden states must have shape [1, tokens, hidden_size]",
            InvalidInputReason::MtpFusionShapeMismatch => "MTP fusion hidden states and next-token indices have incompatible shapes",
            InvalidInputReason::VerificationWindowLength => "target verification window requires two through four target tokens",
            InvalidInputReason::TokenIdExceedsMlxInt32 => "token ID exceeds the MLX int32 range",
            InvalidInputReason::ImportanceScoresNotNonEmptyVector => "importance scores must be a non-empty vector",
            InvalidInputReason::ImportanceScoresNotFloat32 => "importance scores must use float32",
            InvalidInputReason::KeepPercentageOutOfRange => "keep percentage must be between 1 and 100",
            InvalidInputReason::NonPositiveSelectionCounts => "selection and mandatory trailing token counts must be positive",
            InvalidInputReason::SelectionChunkCountOverflow => "selection chunk count overflowed",
            InvalidInputReason::QueryTokenCountExceedsHostCapacity => "query token count exceeded host capacity",
        }
    }
}

/// Why a bound tensor was rejected.
#[derive(Clone, Copy, Debug, PartialEq, Eq, Structural)]
pub enum InvalidTensorProblem {
    DtypeDiffersFromProfile,
    DimensionExceedsMlxIntegerRange,
    ShapeDiffersFromProfile,
    UnsupportedQuantizedBitWidth,
}

/// What a rejected tensor problem says.
pub open spec fn invalid_tensor_text(value: InvalidTensorProblem) -> Seq<char> {
    match value {
        InvalidTensorProblem::DtypeDiffersFromProfile => "tensor dtype differs from the config-derived profile"@,
        InvalidTensorProblem::DimensionExceedsMlxIntegerRange => "tensor dimension exceeds the MLX integer range"@,
        InvalidTensorProblem::ShapeDiffersFromProfile => "tensor shape differs from the config-derived profile"@,
        InvalidTensorProblem::UnsupportedQuantizedBitWidth => "quantized tensor bit width must be supported by MLX affine quantization"@,
    }
}

impl InvalidTensorProblem {
    /// Human-readable explanation.
    pub fn description(&self) -> (text: &'static str)
        ensures
            text@ == invalid_tensor_text(*self),
    {
        match self {
            InvalidTensorProblem::DtypeDiffersFromProfile => "tensor dtype differs from the config-derived profile",
            InvalidTensorProblem::DimensionExceedsMlxIntegerRange => "tensor dimension exceeds the MLX integer range",
            InvalidTensorProblem::ShapeDiffersFromProfile => "tensor shape differs from the config-derived profile",
            InvalidTensorProblem::UnsupportedQuantizedBitWidth => "quantized tensor bit width must be supported by MLX affine quantization",
        }
    }
}

/// A failure while validating or preparing native Qwen3.5 model execution.
#[derive(Clone, Debug, PartialEq, Eq)]
pub enum Qwen3_5ExecutionError {
    InvalidTensor { tensor_name: String, problem: InvalidTensorProblem },
    InvalidInput { reason: InvalidInputReason },
    DecoderLayerCountMismatch { actual_decoder_layer_count: usize, expected_decoder_layer_count: usize },
    /// The forward left this decoder layer without both of its required state arrays.
    InvalidRequestDecoderState { layer_index: usize },
}

} // verus!
