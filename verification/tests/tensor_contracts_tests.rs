use model_serving::error::{InvalidInputReason, Qwen3_5ExecutionError};
use model_serving::model::dtype_flow::MlxDtype;
use model_serving::model::tensor_contracts::{
    four_row_split_k_is_eligible, four_row_split_k_launch_geometry,
    target_verification_projection_dispatch, validate_full_attention_arguments,
    validate_gated_delta_sequence_shapes, validate_gated_delta_shapes,
    validate_target_verification_projection, FullAttentionContractError, FullAttentionShape,
    GatedDeltaSequenceContractError, GatedDeltaSequenceShape, GatedDeltaStepContractError,
    Qwen3_5TargetVerificationProjectionDispatch, TargetVerificationProjectionError,
    TensorLayout,
};

fn layout(shape: &[i32], dtype: MlxDtype) -> TensorLayout {
    TensorLayout { shape: shape.to_vec(), dtype }
}

struct SequenceInputs {
    queries: TensorLayout,
    keys: TensorLayout,
    values: TensorLayout,
    decays: TensorLayout,
    update_rates: TensorLayout,
    recurrent_state: TensorLayout,
}

fn valid_sequence_inputs() -> SequenceInputs {
    SequenceInputs {
        queries: layout(&[1, 5, 2, 128], MlxDtype::BFloat16),
        keys: layout(&[1, 5, 2, 128], MlxDtype::BFloat16),
        values: layout(&[1, 5, 4, 64], MlxDtype::BFloat16),
        decays: layout(&[1, 5, 4], MlxDtype::Float32),
        update_rates: layout(&[1, 5, 4], MlxDtype::Float16),
        recurrent_state: layout(&[1, 4, 64, 128], MlxDtype::Float32),
    }
}

fn validate_sequence(
    inputs: &SequenceInputs,
) -> Result<GatedDeltaSequenceShape, GatedDeltaSequenceContractError> {
    validate_gated_delta_sequence_shapes(
        &inputs.queries,
        &inputs.keys,
        &inputs.values,
        &inputs.decays,
        &inputs.update_rates,
        &inputs.recurrent_state,
    )
}

#[test]
fn gated_delta_sequence_returns_its_geometry() {
    assert_eq!(
        validate_sequence(&valid_sequence_inputs()),
        Ok(GatedDeltaSequenceShape {
            batch_size: 1,
            token_count: 5,
            key_head_count: 2,
            value_head_count: 4,
            key_head_dimension: 128,
            value_head_dimension: 64,
        })
    );
}

#[test]
fn gated_delta_sequence_rejects_each_problem() {
    let mut inputs = valid_sequence_inputs();
    inputs.decays = layout(&[1, 5], MlxDtype::Float32);
    assert_eq!(validate_sequence(&inputs), Err(GatedDeltaSequenceContractError::InvalidRanks));

    let mut inputs = valid_sequence_inputs();
    inputs.keys = layout(&[1, 5, 1, 128], MlxDtype::BFloat16);
    assert_eq!(validate_sequence(&inputs), Err(GatedDeltaSequenceContractError::QueryKeyShapeMismatch));

    let mut inputs = valid_sequence_inputs();
    inputs.queries = layout(&[1, 5, 2, 64], MlxDtype::BFloat16);
    inputs.keys = layout(&[1, 5, 2, 64], MlxDtype::BFloat16);
    assert_eq!(
        validate_sequence(&inputs),
        Err(GatedDeltaSequenceContractError::UnsupportedBlockedDimensions)
    );

    let mut inputs = valid_sequence_inputs();
    inputs.values = layout(&[1, 5, 3, 64], MlxDtype::BFloat16);
    assert_eq!(
        validate_sequence(&inputs),
        Err(GatedDeltaSequenceContractError::UnsupportedBlockedDimensions)
    );

    let mut inputs = valid_sequence_inputs();
    inputs.recurrent_state = layout(&[1, 4, 128, 64], MlxDtype::Float32);
    assert_eq!(validate_sequence(&inputs), Err(GatedDeltaSequenceContractError::IncompatibleShapes));

    let mut inputs = valid_sequence_inputs();
    inputs.recurrent_state = layout(&[1, 4, 64, 128], MlxDtype::BFloat16);
    assert_eq!(
        validate_sequence(&inputs),
        Err(GatedDeltaSequenceContractError::RecurrentStateNotFloat32)
    );

    let mut inputs = valid_sequence_inputs();
    inputs.values = layout(&[1, 5, 4, 64], MlxDtype::Int32);
    assert_eq!(validate_sequence(&inputs), Err(GatedDeltaSequenceContractError::UnsupportedInputDtype));
}

#[test]
fn gated_delta_step_returns_the_head_repeat_factor() {
    let queries = layout(&[2, 2, 16], MlxDtype::Float16);
    let values = layout(&[2, 6, 8], MlxDtype::Float16);
    let decays = layout(&[2, 6], MlxDtype::Float32);
    let state = layout(&[2, 6, 8, 16], MlxDtype::Float32);
    assert_eq!(
        validate_gated_delta_shapes(&queries, &queries, &values, &decays, &decays, &state),
        Ok(3)
    );
}

#[test]
fn gated_delta_step_rejects_each_problem() {
    let queries = layout(&[2, 2, 16], MlxDtype::Float16);
    let values = layout(&[2, 6, 8], MlxDtype::Float16);
    let decays = layout(&[2, 6], MlxDtype::Float32);
    let state = layout(&[2, 6, 8, 16], MlxDtype::Float32);
    let step = |q: &TensorLayout, k: &TensorLayout, v: &TensorLayout, d: &TensorLayout, u: &TensorLayout, s: &TensorLayout| {
        validate_gated_delta_shapes(q, k, v, d, u, s)
    };
    assert_eq!(
        step(&queries, &queries, &values, &decays, &decays, &layout(&[2, 6, 8], MlxDtype::Float32)),
        Err(GatedDeltaStepContractError::InvalidRanks)
    );
    assert_eq!(
        step(&queries, &layout(&[2, 2, 8], MlxDtype::Float16), &values, &decays, &decays, &state),
        Err(GatedDeltaStepContractError::QueryKeyShapeMismatch)
    );
    assert_eq!(
        step(&queries, &queries, &values, &decays, &layout(&[2, 3], MlxDtype::Float32), &state),
        Err(GatedDeltaStepContractError::UpdateRateDecayShapeMismatch)
    );
    let five_heads = layout(&[2, 5, 8], MlxDtype::Float16);
    let five_decays = layout(&[2, 5], MlxDtype::Float32);
    assert_eq!(
        step(&queries, &queries, &five_heads, &five_decays, &five_decays, &state),
        Err(GatedDeltaStepContractError::InvalidDimensions)
    );
    assert_eq!(
        step(&queries, &queries, &values, &decays, &decays, &layout(&[2, 6, 16, 8], MlxDtype::Float32)),
        Err(GatedDeltaStepContractError::IncompatibleShapes)
    );
    assert_eq!(
        step(&queries, &queries, &values, &decays, &decays, &layout(&[2, 6, 8, 16], MlxDtype::Float16)),
        Err(GatedDeltaStepContractError::RecurrentStateNotFloat32)
    );
    assert_eq!(
        step(&queries, &queries, &values, &layout(&[2, 6], MlxDtype::UInt8), &layout(&[2, 6], MlxDtype::UInt8), &state),
        Err(GatedDeltaStepContractError::UnsupportedInputDtype)
    );
}

#[test]
fn full_attention_returns_its_geometry() {
    assert_eq!(
        validate_full_attention_arguments(&[1, 8, 3, 64], &[1, 2, 10, 64], &[1, 2, 10, 64], &[1, 3, 512], true),
        Ok(FullAttentionShape {
            batch_size: 1,
            query_token_count: 3,
            active_key_value_token_count: 10,
            output_dimension: 512,
        })
    );
}

#[test]
fn full_attention_rejects_each_problem() {
    assert_eq!(
        validate_full_attention_arguments(&[1, 8, 3], &[1, 2, 10, 64], &[1, 2, 10, 64], &[1, 3, 512], true),
        Err(FullAttentionContractError::InvalidRanks)
    );
    assert_eq!(
        validate_full_attention_arguments(&[1, 8, 3, 64], &[1, 2, 10, 64], &[1, 2, 11, 64], &[1, 3, 512], true),
        Err(FullAttentionContractError::KeyValueShapeMismatch)
    );
    assert_eq!(
        validate_full_attention_arguments(&[1, 8, 3, 64], &[1, 3, 10, 64], &[1, 3, 10, 64], &[1, 3, 512], true),
        Err(FullAttentionContractError::InvalidDimensions)
    );
    assert_eq!(
        validate_full_attention_arguments(&[1, 8, 11, 64], &[1, 2, 10, 64], &[1, 2, 10, 64], &[1, 11, 512], true),
        Err(FullAttentionContractError::InvalidDimensions)
    );
    assert_eq!(
        validate_full_attention_arguments(
            &[1, 65536, 3, 65536],
            &[1, 1, 10, 65536],
            &[1, 1, 10, 65536],
            &[1, 3, 0],
            true
        ),
        Err(FullAttentionContractError::OutputDimensionOverflow)
    );
    assert_eq!(
        validate_full_attention_arguments(&[1, 8, 3, 64], &[1, 2, 10, 64], &[1, 2, 10, 64], &[1, 3, 256], true),
        Err(FullAttentionContractError::OutputGateShapeMismatch)
    );
    assert_eq!(
        validate_full_attention_arguments(&[1, 8, 3, 64], &[1, 2, 10, 64], &[1, 2, 10, 64], &[1, 3, 512], false),
        Err(FullAttentionContractError::InvalidScale)
    );
}

#[test]
fn target_verification_projection_accepts_matching_affine_arrays() {
    let weight = layout(&[256, 512], MlxDtype::UInt32);
    assert_eq!(
        validate_target_verification_projection(&weight, &[256, 64], &[256, 64], 64, 4, &[1, 4, 4096]),
        Ok(())
    );
}

#[test]
fn target_verification_projection_rejects_each_problem() {
    let weight = layout(&[256, 512], MlxDtype::UInt32);
    assert_eq!(
        validate_target_verification_projection(&weight, &[256, 64], &[256, 64], 64, 4, &[1, 0, 4096]),
        Err(TargetVerificationProjectionError::InvalidGeometry)
    );
    assert_eq!(
        validate_target_verification_projection(
            &layout(&[256, 512], MlxDtype::UInt8),
            &[256, 64],
            &[256, 64],
            64,
            4,
            &[1, 4, 4096]
        ),
        Err(TargetVerificationProjectionError::UnsupportedAffineMetadata)
    );
    assert_eq!(
        validate_target_verification_projection(&weight, &[256, 64], &[256, 64], 64, 7, &[1, 4, 4096]),
        Err(TargetVerificationProjectionError::UnsupportedAffineMetadata)
    );
    assert_eq!(
        validate_target_verification_projection(&weight, &[256, 64], &[256, 64], 64, 4, &[1, 4, 2048]),
        Err(TargetVerificationProjectionError::IncompatibleAffineArrays)
    );
    assert_eq!(
        validate_target_verification_projection(&weight, &[256, 64], &[256, 32], 64, 4, &[1, 4, 4096]),
        Err(TargetVerificationProjectionError::IncompatibleAffineArrays)
    );
}

#[test]
fn target_verification_dispatch_prefers_the_metal_kernel_when_it_applies() {
    assert_eq!(
        target_verification_projection_dispatch(
            MlxDtype::BFloat16,
            MlxDtype::BFloat16,
            MlxDtype::BFloat16,
            64,
            4,
            4096,
            1024
        ),
        Qwen3_5TargetVerificationProjectionDispatch::OptimizedMetal
    );
    assert_eq!(
        target_verification_projection_dispatch(
            MlxDtype::BFloat16,
            MlxDtype::BFloat16,
            MlxDtype::BFloat16,
            64,
            8,
            4096,
            1024
        ),
        Qwen3_5TargetVerificationProjectionDispatch::TokenLocalMlxFallback
    );
    assert_eq!(
        target_verification_projection_dispatch(
            MlxDtype::Float32,
            MlxDtype::Float32,
            MlxDtype::Float32,
            64,
            4,
            4096,
            1024
        ),
        Qwen3_5TargetVerificationProjectionDispatch::TokenLocalMlxFallback
    );
    assert_eq!(
        target_verification_projection_dispatch(
            MlxDtype::Float16,
            MlxDtype::Float16,
            MlxDtype::Float16,
            32,
            5,
            1000,
            1024
        ),
        Qwen3_5TargetVerificationProjectionDispatch::TokenLocalMlxFallback
    );
}

#[test]
fn four_row_split_k_eligibility_and_geometry() {
    let activation = layout(&[1, 4, 4096], MlxDtype::BFloat16);
    assert!(four_row_split_k_is_eligible(&activation, 4, 64, 4096, 4096));
    assert!(!four_row_split_k_is_eligible(&activation, 5, 64, 4096, 4096));
    assert!(!four_row_split_k_is_eligible(&layout(&[1, 3, 4096], MlxDtype::BFloat16), 4, 64, 4096, 4096));
    assert!(!four_row_split_k_is_eligible(&activation, 4, 64, 4000, 4096));
    assert_eq!(four_row_split_k_launch_geometry(4096), (2, [64, 1024, 1], [64, 1, 1]));
    assert_eq!(four_row_split_k_launch_geometry(1024), (4, [128, 256, 1], [128, 1, 1]));
}

use model_serving::model::tensor_contracts::{
    gated_delta_template_arguments, sequential_attention_key_value_ends, KernelTemplateValue,
};

#[test]
fn gated_delta_template_arguments_name_dtypes_and_geometry() {
    let shape = GatedDeltaSequenceShape {
        batch_size: 1,
        token_count: 5,
        key_head_count: 2,
        value_head_count: 4,
        key_head_dimension: 128,
        value_head_dimension: 64,
    };
    assert_eq!(
        gated_delta_template_arguments(shape, MlxDtype::BFloat16, MlxDtype::Float32),
        [
            ("InT", KernelTemplateValue::Dtype(MlxDtype::BFloat16)),
            ("StT", KernelTemplateValue::Dtype(MlxDtype::Float32)),
            ("Dk", KernelTemplateValue::Integer(128)),
            ("Dv", KernelTemplateValue::Integer(64)),
            ("Hk", KernelTemplateValue::Integer(2)),
            ("Hv", KernelTemplateValue::Integer(4)),
        ]
    );
}

#[test]
fn sequential_attention_rows_see_the_prefix_and_earlier_rows() {
    assert_eq!(sequential_attention_key_value_ends(3, 10), Ok(vec![8, 9, 10]));
    assert_eq!(sequential_attention_key_value_ends(1, 1), Ok(vec![1]));
    assert_eq!(sequential_attention_key_value_ends(0, 4), Ok(vec![]));
    assert_eq!(sequential_attention_key_value_ends(2, 1), Ok(vec![0, 1]));
    assert_eq!(
        sequential_attention_key_value_ends(-1, 4),
        Err(Qwen3_5ExecutionError::InvalidInput {
            reason: InvalidInputReason::QueryTokenCountExceedsHostCapacity
        })
    );
}
