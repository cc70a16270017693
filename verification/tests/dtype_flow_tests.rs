use model_serving::error::{InvalidInputReason, Qwen3_5ExecutionError};
use model_serving::model::dtype_flow::{
    derive_decoder_layer_cache_dtypes, AffineWeightDtypes, AttentionWeightDtypes,
    DecoderCacheTensorDtype, DecoderLayerWeightDtypes, ExpertLayerDtypePlan,
    ExpertProjectionDtypes, FeedForwardWeightDtypes, MlxDtype, Qwen3_5DecoderLayerCacheDtypes,
    SafetensorsDtype,
};

const NATIVE: AffineWeightDtypes = AffineWeightDtypes::NativeBfloat16;

fn linear_attention() -> AttentionWeightDtypes {
    AttentionWeightDtypes::Linear {
        input_queries_keys_values_projection: NATIVE,
        convolution_weight: MlxDtype::BFloat16,
        normalization_weight: MlxDtype::BFloat16,
        output_gate_projection: NATIVE,
        output_projection: NATIVE,
    }
}

fn full_attention() -> AttentionWeightDtypes {
    AttentionWeightDtypes::Full {
        query_projection: NATIVE,
        query_normalization_weight: MlxDtype::BFloat16,
        key_projection: NATIVE,
        key_normalization_weight: MlxDtype::BFloat16,
        value_projection: NATIVE,
        output_projection: NATIVE,
    }
}

fn dense() -> FeedForwardWeightDtypes {
    FeedForwardWeightDtypes::Dense {
        gate_projection: NATIVE,
        up_projection: NATIVE,
        down_projection: NATIVE,
    }
}

fn sparse() -> FeedForwardWeightDtypes {
    FeedForwardWeightDtypes::MixtureOfExperts {
        shared_expert_gate_projection: NATIVE,
        shared_expert_up_projection: NATIVE,
        shared_expert_down_projection: NATIVE,
        shared_expert_output_gate_projection: NATIVE,
    }
}

fn layer(
    normalization: MlxDtype,
    attention: AttentionWeightDtypes,
    feed_forward: FeedForwardWeightDtypes,
) -> DecoderLayerWeightDtypes {
    DecoderLayerWeightDtypes {
        input_normalization_weight: normalization,
        attention,
        post_attention_normalization_weight: normalization,
        feed_forward,
    }
}

fn native_plan() -> ExpertLayerDtypePlan {
    ExpertLayerDtypePlan {
        gate_projection: ExpertProjectionDtypes::NativeBfloat16,
        up_projection: ExpertProjectionDtypes::NativeBfloat16,
        down_projection: ExpertProjectionDtypes::NativeBfloat16,
    }
}

fn invalid(reason: InvalidInputReason) -> Qwen3_5ExecutionError {
    Qwen3_5ExecutionError::InvalidInput { reason }
}

#[test]
fn bfloat16_model_keeps_bfloat16_cache_state() {
    let layers = [
        layer(MlxDtype::BFloat16, linear_attention(), dense()),
        layer(MlxDtype::BFloat16, full_attention(), dense()),
    ];
    assert_eq!(
        derive_decoder_layer_cache_dtypes(NATIVE, &layers, None),
        Ok(vec![
            Qwen3_5DecoderLayerCacheDtypes::LinearAttention {
                convolution: DecoderCacheTensorDtype::BFloat16
            },
            Qwen3_5DecoderLayerCacheDtypes::FullAttention {
                keys: DecoderCacheTensorDtype::BFloat16,
                values: DecoderCacheTensorDtype::BFloat16,
            },
        ])
    );
}

#[test]
fn mixed_sixteen_bit_formats_promote_cache_state_to_float32() {
    let embedding = AffineWeightDtypes::Quantized { scales: MlxDtype::Float16, biases: MlxDtype::Float16 };
    let layers = [layer(MlxDtype::BFloat16, full_attention(), dense())];
    assert_eq!(
        derive_decoder_layer_cache_dtypes(embedding, &layers, None),
        Ok(vec![Qwen3_5DecoderLayerCacheDtypes::FullAttention {
            keys: DecoderCacheTensorDtype::Float32,
            values: DecoderCacheTensorDtype::Float32,
        }])
    );
}

#[test]
fn float16_model_keeps_float16_convolution_state() {
    let embedding = AffineWeightDtypes::Quantized { scales: MlxDtype::Float16, biases: MlxDtype::Float16 };
    let float16 = AffineWeightDtypes::Quantized { scales: MlxDtype::Float16, biases: MlxDtype::Float16 };
    let attention = AttentionWeightDtypes::Linear {
        input_queries_keys_values_projection: float16,
        convolution_weight: MlxDtype::Float16,
        normalization_weight: MlxDtype::Float16,
        output_gate_projection: float16,
        output_projection: float16,
    };
    let layers = [layer(MlxDtype::Float16, attention, dense())];
    assert_eq!(
        derive_decoder_layer_cache_dtypes(embedding, &layers, None),
        Ok(vec![Qwen3_5DecoderLayerCacheDtypes::LinearAttention {
            convolution: DecoderCacheTensorDtype::Float16
        }])
    );
}

#[test]
fn no_layers_give_no_cache_state() {
    assert_eq!(derive_decoder_layer_cache_dtypes(NATIVE, &[], None), Ok(vec![]));
}

#[test]
fn sparse_layers_need_an_expert_pager_and_a_plan() {
    let layers = [layer(MlxDtype::BFloat16, full_attention(), sparse())];
    assert_eq!(
        derive_decoder_layer_cache_dtypes(NATIVE, &layers, None),
        Err(invalid(InvalidInputReason::SparseDtypeFlowRequiresExpertPager))
    );
    assert_eq!(
        derive_decoder_layer_cache_dtypes(NATIVE, &layers, Some(&[])),
        Err(invalid(InvalidInputReason::MissingExpertLayerPlan))
    );
    assert_eq!(
        derive_decoder_layer_cache_dtypes(NATIVE, &layers, Some(&[native_plan()])),
        Ok(vec![Qwen3_5DecoderLayerCacheDtypes::FullAttention {
            keys: DecoderCacheTensorDtype::BFloat16,
            values: DecoderCacheTensorDtype::BFloat16,
        }])
    );
}

#[test]
fn expert_affine_parameters_must_be_present_and_floating() {
    let layers = [layer(MlxDtype::BFloat16, linear_attention(), sparse())];
    let mut missing = native_plan();
    missing.up_projection = ExpertProjectionDtypes::Quantized { scales: Some(SafetensorsDtype::BFloat16), biases: None };
    assert_eq!(
        derive_decoder_layer_cache_dtypes(NATIVE, &layers, Some(&[missing])),
        Err(invalid(InvalidInputReason::MissingExpertAffineParameterDtype))
    );
    let mut integer = native_plan();
    integer.gate_projection = ExpertProjectionDtypes::Quantized {
        scales: Some(SafetensorsDtype::UInt8),
        biases: Some(SafetensorsDtype::BFloat16),
    };
    assert_eq!(
        derive_decoder_layer_cache_dtypes(NATIVE, &layers, Some(&[integer])),
        Err(invalid(InvalidInputReason::NonFloatingExpertAffineParameter))
    );
}

#[test]
fn non_floating_weights_are_unsupported() {
    let layers = [layer(MlxDtype::Int32, full_attention(), dense())];
    assert_eq!(
        derive_decoder_layer_cache_dtypes(NATIVE, &layers, None),
        Err(invalid(InvalidInputReason::UnsupportedDecoderDtype))
    );
}
