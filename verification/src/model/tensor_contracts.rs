//! Shape and dtype contracts checked before MLX compiles or submits native work.

use vstd::prelude::*;

use crate::model::dtype_flow::MlxDtype;
use crate::error::{InvalidInputReason, Qwen3_5ExecutionError};

verus! {

/// What a contract reads of an MLX array: its shape and element type.
#[derive(Clone, Debug, PartialEq, Eq)]
pub struct TensorLayout {
    pub shape: Vec<i32>,
    pub dtype: MlxDtype,
}

pub open spec fn is_activation_dtype(dtype: MlxDtype) -> bool {
    dtype == MlxDtype::Float16 || dtype == MlxDtype::BFloat16 || dtype == MlxDtype::Float32
}

fn is_supported_activation_dtype(dtype: MlxDtype) -> (supported: bool)
    ensures
        supported == is_activation_dtype(dtype),
{
    match dtype {
        MlxDtype::Float16 | MlxDtype::BFloat16 | MlxDtype::Float32 => true,
        _ => false,
    }
}

fn shapes_equal(left: &[i32], right: &[i32]) -> (equal: bool)
    ensures
        equal == (left@ == right@),
{
    if left.len() != right.len() {
        return false;
    }
    let mut index: usize = 0;
    while index < left.len()
        invariant
            left@.len() == right@.len(),
            index <= left@.len(),
            forall|j: int| 0 <= j < index ==> left@[j] == right@[j],
        decreases left.len() - index,
    {
        if left[index] != right[index] {
            return false;
        }
        index += 1;
    }
    assert(left@ =~= right@);
    true
}

/// Geometry shared by ordinary and checkpointing gated-delta sequence kernels.
#[derive(Clone, Copy, Debug, PartialEq, Eq, Structural)]
pub struct GatedDeltaSequenceShape {
    pub batch_size: i32,
    pub token_count: i32,
    pub key_head_count: i32,
    pub value_head_count: i32,
    pub key_head_dimension: i32,
    pub value_head_dimension: i32,
}

/// Why fused gated-delta sequence inputs were rejected.
#[derive(Clone, Copy, Debug, PartialEq, Eq, Structural)]
pub enum GatedDeltaSequenceContractError {
    /// Sequence inputs have invalid ranks.
    InvalidRanks,
    /// Queries and keys must have identical shapes.
    QueryKeyShapeMismatch,
    /// Dimensions must be positive, value heads a multiple of key heads, key dimension
    /// 128, and value dimension divisible by 32.
    UnsupportedBlockedDimensions,
    /// Sequence shapes are incompatible.
    IncompatibleShapes,
    /// The recurrent state must use float32.
    RecurrentStateNotFloat32,
    /// Inputs must use float16, bfloat16, or float32.
    UnsupportedInputDtype,
}

/// Outcome of validating fused gated-delta sequence inputs.
pub open spec fn gated_delta_sequence_outcome(
    queries: TensorLayout,
    keys: TensorLayout,
    values: TensorLayout,
    decays: TensorLayout,
    update_rates: TensorLayout,
    recurrent_state: TensorLayout,
) -> Result<GatedDeltaSequenceShape, GatedDeltaSequenceContractError> {
    let q = queries.shape@;
    let v = values.shape@;
    if q.len() != 4 || keys.shape@.len() != 4 || v.len() != 4 || decays.shape@.len() != 3
        || update_rates.shape@.len() != 3 || recurrent_state.shape@.len() != 4 {
        Err(GatedDeltaSequenceContractError::InvalidRanks)
    } else if q != keys.shape@ {
        Err(GatedDeltaSequenceContractError::QueryKeyShapeMismatch)
    } else if q[0] <= 0 || q[1] <= 0 || q[2] <= 0 || v[2] <= 0 || q[3] <= 0 || v[3] <= 0 || v[2] % q[2] != 0
        || q[3] != 128 || v[3] % 32 != 0 {
        Err(GatedDeltaSequenceContractError::UnsupportedBlockedDimensions)
    } else if v[0] != q[0] || v[1] != q[1] || decays.shape@ != seq![q[0], q[1], v[2]] || update_rates.shape@
        != decays.shape@ || recurrent_state.shape@ != seq![q[0], v[2], v[3], q[3]] {
        Err(GatedDeltaSequenceContractError::IncompatibleShapes)
    } else if recurrent_state.dtype != MlxDtype::Float32 {
        Err(GatedDeltaSequenceContractError::RecurrentStateNotFloat32)
    } else if !is_activation_dtype(queries.dtype) || !is_activation_dtype(keys.dtype) || !is_activation_dtype(
        values.dtype,
    ) || !is_activation_dtype(decays.dtype) || !is_activation_dtype(update_rates.dtype) {
        Err(GatedDeltaSequenceContractError::UnsupportedInputDtype)
    } else {
        Ok(
            GatedDeltaSequenceShape {
                batch_size: q[0],
                token_count: q[1],
                key_head_count: q[2],
                value_head_count: v[2],
                key_head_dimension: q[3],
                value_head_dimension: v[3],
            },
        )
    }
}

/// Validates fused gated-delta sequence inputs; both the ordinary and the checkpointing
/// kernel reject exactly the same inputs.
pub fn validate_gated_delta_sequence_shapes(
    queries: &TensorLayout,
    keys: &TensorLayout,
    values: &TensorLayout,
    decays: &TensorLayout,
    update_rates: &TensorLayout,
    recurrent_state: &TensorLayout,
) -> (result: Result<GatedDeltaSequenceShape, GatedDeltaSequenceContractError>)
    ensures
        result == gated_delta_sequence_outcome(*queries, *keys, *values, *decays, *update_rates, *recurrent_state),
{
    let query_shape = &queries.shape;
    let value_shape = &values.shape;
    if query_shape.len() != 4 || keys.shape.len() != 4 || value_shape.len() != 4 || decays.shape.len() != 3
        || update_rates.shape.len() != 3 || recurrent_state.shape.len() != 4 {
        return Err(GatedDeltaSequenceContractError::InvalidRanks);
    }
    if !shapes_equal(query_shape, &keys.shape) {
        return Err(GatedDeltaSequenceContractError::QueryKeyShapeMismatch);
    }
    let batch_size = query_shape[0];
    let token_count = query_shape[1];
    let key_head_count = query_shape[2];
    let key_head_dimension = query_shape[3];
    let value_head_count = value_shape[2];
    let value_head_dimension = value_shape[3];
    if batch_size <= 0 || token_count <= 0 || key_head_count <= 0 || value_head_count <= 0 || key_head_dimension
        <= 0 || value_head_dimension <= 0 || value_head_count % key_head_count != 0 || key_head_dimension != 128
        || value_head_dimension % 32 != 0 {
        return Err(GatedDeltaSequenceContractError::UnsupportedBlockedDimensions);
    }
    let expected_decay_shape = vec![batch_size, token_count, value_head_count];
    let expected_state_shape = vec![batch_size, value_head_count, value_head_dimension, key_head_dimension];
    assert(expected_decay_shape@ =~= seq![batch_size, token_count, value_head_count]);
    assert(expected_state_shape@ =~= seq![batch_size, value_head_count, value_head_dimension, key_head_dimension]);
    if value_shape[0] != batch_size || value_shape[1] != token_count || !shapes_equal(
        &decays.shape,
        &expected_decay_shape,
    ) || !shapes_equal(&update_rates.shape, &decays.shape) || !shapes_equal(
        &recurrent_state.shape,
        &expected_state_shape,
    ) {
        return Err(GatedDeltaSequenceContractError::IncompatibleShapes);
    }
    if recurrent_state.dtype != MlxDtype::Float32 {
        return Err(GatedDeltaSequenceContractError::RecurrentStateNotFloat32);
    }
    if !is_supported_activation_dtype(queries.dtype) || !is_supported_activation_dtype(keys.dtype)
        || !is_supported_activation_dtype(values.dtype) || !is_supported_activation_dtype(decays.dtype)
        || !is_supported_activation_dtype(update_rates.dtype) {
        return Err(GatedDeltaSequenceContractError::UnsupportedInputDtype);
    }
    Ok(
        GatedDeltaSequenceShape {
            batch_size,
            token_count,
            key_head_count,
            value_head_count,
            key_head_dimension,
            value_head_dimension,
        },
    )
}

/// Why one-step gated-delta inputs were rejected.
#[derive(Clone, Copy, Debug, PartialEq, Eq, Structural)]
pub enum GatedDeltaStepContractError {
    /// Queries, values, decays and recurrent state must have ranks three, three, two and four.
    InvalidRanks,
    /// Queries and keys must have identical shapes.
    QueryKeyShapeMismatch,
    /// Update rates and decays must have identical shapes.
    UpdateRateDecayShapeMismatch,
    /// Dimensions must be positive and value heads must divide evenly by key heads.
    InvalidDimensions,
    /// Value, decay and recurrent-state dimensions are incompatible.
    IncompatibleShapes,
    /// The recurrent state must use float32.
    RecurrentStateNotFloat32,
    /// Inputs must use float16, bfloat16, or float32.
    UnsupportedInputDtype,
}

/// Outcome of validating one gated-delta step: the query-head repeat factor, or the
/// first violated condition.
pub open spec fn gated_delta_step_outcome(
    queries: TensorLayout,
    keys: TensorLayout,
    values: TensorLayout,
    decays: TensorLayout,
    update_rates: TensorLayout,
    recurrent_state: TensorLayout,
) -> Result<i32, GatedDeltaStepContractError> {
    let q = queries.shape@;
    let v = values.shape@;
    if q.len() != 3 || v.len() != 3 || decays.shape@.len() != 2 || recurrent_state.shape@.len() != 4 {
        Err(GatedDeltaStepContractError::InvalidRanks)
    } else if keys.shape@ != q {
        Err(GatedDeltaStepContractError::QueryKeyShapeMismatch)
    } else if update_rates.shape@ != decays.shape@ {
        Err(GatedDeltaStepContractError::UpdateRateDecayShapeMismatch)
    } else if q[0] <= 0 || q[1] <= 0 || q[2] <= 0 || v[1] <= 0 || v[2] <= 0 || v[1] % q[1] != 0 {
        Err(GatedDeltaStepContractError::InvalidDimensions)
    } else if v[0] != q[0] || decays.shape@ != seq![q[0], v[1]] || recurrent_state.shape@ != seq![
        q[0],
        v[1],
        v[2],
        q[2],
    ] {
        Err(GatedDeltaStepContractError::IncompatibleShapes)
    } else if recurrent_state.dtype != MlxDtype::Float32 {
        Err(GatedDeltaStepContractError::RecurrentStateNotFloat32)
    } else if !is_activation_dtype(queries.dtype) || !is_activation_dtype(keys.dtype) || !is_activation_dtype(
        values.dtype,
    ) || !is_activation_dtype(decays.dtype) || !is_activation_dtype(update_rates.dtype) {
        Err(GatedDeltaStepContractError::UnsupportedInputDtype)
    } else {
        Ok((v[1] / q[1]) as i32)
    }
}

/// Validates one ops-based gated-delta step and returns how often each key head is
/// repeated to cover the value heads.
pub fn validate_gated_delta_shapes(
    queries: &TensorLayout,
    keys: &TensorLayout,
    values: &TensorLayout,
    decays: &TensorLayout,
    update_rates: &TensorLayout,
    recurrent_state: &TensorLayout,
) -> (result: Result<i32, GatedDeltaStepContractError>)
    ensures
        result == gated_delta_step_outcome(*queries, *keys, *values, *decays, *update_rates, *recurrent_state),
{
    let query_shape = &queries.shape;
    let value_shape = &values.shape;
    if query_shape.len() != 3 || value_shape.len() != 3 || decays.shape.len() != 2 || recurrent_state.shape.len()
        != 4 {
        return Err(GatedDeltaStepContractError::InvalidRanks);
    }
    if !shapes_equal(&keys.shape, query_shape) {
        return Err(GatedDeltaStepContractError::QueryKeyShapeMismatch);
    }
    if !shapes_equal(&update_rates.shape, &decays.shape) {
        return Err(GatedDeltaStepContractError::UpdateRateDecayShapeMismatch);
    }
    let batch_size = query_shape[0];
    let key_head_count = query_shape[1];
    let key_dimension = query_shape[2];
    let value_head_count = value_shape[1];
    let value_dimension = value_shape[2];
    if batch_size <= 0 || key_head_count <= 0 || key_dimension <= 0 || value_head_count <= 0 || value_dimension
        <= 0 || value_head_count % key_head_count != 0 {
        return Err(GatedDeltaStepContractError::InvalidDimensions);
    }
    let expected_decay_shape = vec![batch_size, value_head_count];
    let expected_state_shape = vec![batch_size, value_head_count, value_dimension, key_dimension];
    assert(expected_decay_shape@ =~= seq![batch_size, value_head_count]);
    assert(expected_state_shape@ =~= seq![batch_size, value_head_count, value_dimension, key_dimension]);
    if value_shape[0] != batch_size || !shapes_equal(&decays.shape, &expected_decay_shape) || !shapes_equal(
        &recurrent_state.shape,
        &expected_state_shape,
    ) {
        return Err(GatedDeltaStepContractError::IncompatibleShapes);
    }
    if recurrent_state.dtype != MlxDtype::Float32 {
        return Err(GatedDeltaStepContractError::RecurrentStateNotFloat32);
    }
    if !is_supported_activation_dtype(queries.dtype) || !is_supported_activation_dtype(keys.dtype)
        || !is_supported_activation_dtype(values.dtype) || !is_supported_activation_dtype(decays.dtype)
        || !is_supported_activation_dtype(update_rates.dtype) {
        return Err(GatedDeltaStepContractError::UnsupportedInputDtype);
    }
    Ok(value_head_count / key_head_count)
}


/// Attention geometry derived from validated full-attention arguments.
#[derive(Clone, Copy, Debug, PartialEq, Eq, Structural)]
pub struct FullAttentionShape {
    /// Independent examples processed together.
    pub batch_size: i32,
    /// New query tokens in this forward.
    pub query_token_count: i32,
    /// Key/value positions visible to the forward, including the new query positions.
    pub active_key_value_token_count: i32,
    /// Query heads times features per head; matches the output gate.
    pub output_dimension: i32,
}

/// Why full-attention arguments were rejected.
#[derive(Clone, Copy, Debug, PartialEq, Eq, Structural)]
pub enum FullAttentionContractError {
    /// Rotated queries, active keys and active values must have rank four.
    InvalidRanks,
    /// Active keys and values must have identical shapes.
    KeyValueShapeMismatch,
    /// Dimensions must be positive, grouped-query heads must divide evenly, and the
    /// active KV view must cover the new query tokens.
    InvalidDimensions,
    /// Query heads times head dimension overflows `Int32`.
    OutputDimensionOverflow,
    /// The output gate does not match the joined attention output.
    OutputGateShapeMismatch,
    /// The attention scale is not a finite positive number.
    InvalidScale,
}

/// Outcome of validating full-attention arguments; `attention_scale_is_finite_and_positive`
/// states the one floating-point condition.
pub open spec fn full_attention_outcome(
    rotated_queries_shape: Seq<i32>,
    active_keys_shape: Seq<i32>,
    active_values_shape: Seq<i32>,
    output_gate_shape: Seq<i32>,
    attention_scale_is_finite_and_positive: bool,
) -> Result<FullAttentionShape, FullAttentionContractError> {
    let q = rotated_queries_shape;
    let k = active_keys_shape;
    if q.len() != 4 || k.len() != 4 || active_values_shape.len() != 4 {
        Err(FullAttentionContractError::InvalidRanks)
    } else if k != active_values_shape {
        Err(FullAttentionContractError::KeyValueShapeMismatch)
    } else if q[0] <= 0 || q[2] <= 0 || q[1] <= 0 || q[3] <= 0 || k[1] <= 0 || k[0] != q[0] || k[3] != q[3]
        || q[1] % k[1] != 0 || k[2] < q[2] {
        Err(FullAttentionContractError::InvalidDimensions)
    } else if q[1] * q[3] > i32::MAX {
        Err(FullAttentionContractError::OutputDimensionOverflow)
    } else if output_gate_shape != seq![q[0], q[2], (q[1] * q[3]) as i32] {
        Err(FullAttentionContractError::OutputGateShapeMismatch)
    } else if !attention_scale_is_finite_and_positive {
        Err(FullAttentionContractError::InvalidScale)
    } else {
        Ok(
            FullAttentionShape {
                batch_size: q[0],
                query_token_count: q[2],
                active_key_value_token_count: k[2],
                output_dimension: (q[1] * q[3]) as i32,
            },
        )
    }
}

/// Validates full-attention arguments ([batch, heads, tokens, features] layouts) before
/// the scaled dot-product attention is built.
pub fn validate_full_attention_arguments(
    rotated_queries_shape: &[i32],
    active_keys_shape: &[i32],
    active_values_shape: &[i32],
    output_gate_shape: &[i32],
    attention_scale_is_finite_and_positive: bool,
) -> (result: Result<FullAttentionShape, FullAttentionContractError>)
    ensures
        result == full_attention_outcome(
            rotated_queries_shape@,
            active_keys_shape@,
            active_values_shape@,
            output_gate_shape@,
            attention_scale_is_finite_and_positive,
        ),
{
    if rotated_queries_shape.len() != 4 || active_keys_shape.len() != 4 || active_values_shape.len() != 4 {
        return Err(FullAttentionContractError::InvalidRanks);
    }
    if !shapes_equal(active_keys_shape, active_values_shape) {
        return Err(FullAttentionContractError::KeyValueShapeMismatch);
    }
    let batch_size = rotated_queries_shape[0];
    let query_head_count = rotated_queries_shape[1];
    let query_token_count = rotated_queries_shape[2];
    let head_dimension = rotated_queries_shape[3];
    let key_value_head_count = active_keys_shape[1];
    let active_key_value_token_count = active_keys_shape[2];
    if batch_size <= 0 || query_token_count <= 0 || query_head_count <= 0 || head_dimension <= 0
        || key_value_head_count <= 0 || active_keys_shape[0] != batch_size || active_keys_shape[3] != head_dimension
        || query_head_count % key_value_head_count != 0 || active_key_value_token_count < query_token_count {
        return Err(FullAttentionContractError::InvalidDimensions);
    }
    let output_dimension = match query_head_count.checked_mul(head_dimension) {
        Some(dimension) => dimension,
        None => {
            return Err(FullAttentionContractError::OutputDimensionOverflow);
        },
    };
    let expected_gate_shape = vec![batch_size, query_token_count, output_dimension];
    assert(expected_gate_shape@ =~= seq![batch_size, query_token_count, output_dimension]);
    if !shapes_equal(output_gate_shape, &expected_gate_shape) {
        return Err(FullAttentionContractError::OutputGateShapeMismatch);
    }
    if !attention_scale_is_finite_and_positive {
        return Err(FullAttentionContractError::InvalidScale);
    }
    Ok(FullAttentionShape { batch_size, query_token_count, active_key_value_token_count, output_dimension })
}

/// Whether the target-verification projection uses the specialized Metal kernel or the
/// token-local MLX reference path.
#[derive(Clone, Copy, Debug, PartialEq, Eq, Structural)]
pub enum Qwen3_5TargetVerificationProjectionDispatch {
    OptimizedMetal,
    TokenLocalMlxFallback,
}

/// Why a target-verification projection was rejected.
#[derive(Clone, Copy, Debug, PartialEq, Eq, Structural)]
pub enum TargetVerificationProjectionError {
    /// Activations must be positive rank-three arrays and weights positive rank-two arrays.
    InvalidGeometry,
    /// The affine metadata is not supported by MLX.
    UnsupportedAffineMetadata,
    /// Affine arrays do not match activation and weight geometry.
    IncompatibleAffineArrays,
}

pub open spec fn all_positive(shape: Seq<i32>) -> bool {
    forall|i: int| 0 <= i < shape.len() ==> shape[i] > 0
}

fn shape_is_positive(shape: &[i32]) -> (positive: bool)
    ensures
        positive == all_positive(shape@),
{
    let mut index: usize = 0;
    while index < shape.len()
        invariant
            index <= shape@.len(),
            forall|j: int| 0 <= j < index ==> shape@[j] > 0,
        decreases shape.len() - index,
    {
        if shape[index] <= 0 {
            return false;
        }
        index += 1;
    }
    true
}

/// Outcome of validating a target-verification affine projection.
pub open spec fn target_verification_projection_outcome(
    activation_shape: Seq<i32>,
    packed_weight: TensorLayout,
    quantization_scales_shape: Seq<i32>,
    quantization_biases_shape: Seq<i32>,
    quantization_group_size: i32,
    quantization_bits: i32,
) -> Result<(), TargetVerificationProjectionError> {
    let w = packed_weight.shape@;
    if !(activation_shape.len() == 3 && all_positive(activation_shape)) || !(w.len() == 2 && all_positive(w)) {
        Err(TargetVerificationProjectionError::InvalidGeometry)
    } else if packed_weight.dtype != MlxDtype::UInt32 || !(quantization_group_size == 32 || quantization_group_size
        == 64 || quantization_group_size == 128) || !(quantization_bits == 2 || quantization_bits == 3
        || quantization_bits == 4 || quantization_bits == 5 || quantization_bits == 6 || quantization_bits == 8) {
        Err(TargetVerificationProjectionError::UnsupportedAffineMetadata)
    } else {
        let input_dimension = activation_shape[2];
        let packed_bit_count = w[1] * 32;
        let expanded_matches = packed_bit_count <= i32::MAX && packed_bit_count % (quantization_bits as int) == 0
            && packed_bit_count / (quantization_bits as int) == input_dimension;
        let expected_affine_shape = seq![w[0], (input_dimension / quantization_group_size) as i32];
        if !expanded_matches || input_dimension % quantization_group_size != 0 || quantization_scales_shape
            != expected_affine_shape || quantization_biases_shape != expected_affine_shape {
            Err(TargetVerificationProjectionError::IncompatibleAffineArrays)
        } else {
            Ok(())
        }
    }
}

/// Validates a multi-token target-verification affine projection.
pub fn validate_target_verification_projection(
    packed_weight: &TensorLayout,
    quantization_scales_shape: &[i32],
    quantization_biases_shape: &[i32],
    quantization_group_size: i32,
    quantization_bits: i32,
    activation_shape: &[i32],
) -> (result: Result<(), TargetVerificationProjectionError>)
    ensures
        result == target_verification_projection_outcome(
            activation_shape@,
            *packed_weight,
            quantization_scales_shape@,
            quantization_biases_shape@,
            quantization_group_size,
            quantization_bits,
        ),
{
    let packed_weight_shape = &packed_weight.shape;
    let has_positive_activation_geometry = activation_shape.len() == 3 && shape_is_positive(activation_shape);
    let has_positive_weight_geometry = packed_weight_shape.len() == 2 && shape_is_positive(packed_weight_shape);
    if !has_positive_activation_geometry || !has_positive_weight_geometry {
        return Err(TargetVerificationProjectionError::InvalidGeometry);
    }
    if packed_weight.dtype != MlxDtype::UInt32 || !(quantization_group_size == 32 || quantization_group_size == 64
        || quantization_group_size == 128) || !(quantization_bits == 2 || quantization_bits == 3
        || quantization_bits == 4 || quantization_bits == 5 || quantization_bits == 6 || quantization_bits == 8) {
        return Err(TargetVerificationProjectionError::UnsupportedAffineMetadata);
    }
    let input_dimension = activation_shape[2];
    let expanded_matches = match packed_weight_shape[1].checked_mul(32) {
        Some(packed_bit_count) => packed_bit_count % quantization_bits == 0 && packed_bit_count / quantization_bits
            == input_dimension,
        None => false,
    };
    let expected_affine_shape = vec![packed_weight_shape[0], input_dimension / quantization_group_size];
    assert(expected_affine_shape@ =~= seq![packed_weight_shape@[0], (input_dimension / quantization_group_size) as i32]);
    if !expanded_matches || input_dimension % quantization_group_size != 0 || !shapes_equal(
        quantization_scales_shape,
        &expected_affine_shape,
    ) || !shapes_equal(quantization_biases_shape, &expected_affine_shape) {
        return Err(TargetVerificationProjectionError::IncompatibleAffineArrays);
    }
    Ok(())
}

/// Whether the geometry and dtypes qualify for MLX's wide quantized matrix route.
pub open spec fn optimized_dispatch_applies(
    activation_dtype: MlxDtype,
    quantization_scales_dtype: MlxDtype,
    quantization_biases_dtype: MlxDtype,
    quantization_group_size: i32,
    quantization_bits: i32,
    input_dimension: i32,
    output_dimension: i32,
) -> bool {
    (quantization_bits == 4 || quantization_bits == 5) && (quantization_group_size == 32 || quantization_group_size
        == 64 || quantization_group_size == 128) && input_dimension > 0 && input_dimension % 512 == 0
        && output_dimension > 0 && output_dimension % 8 == 0 && activation_dtype == quantization_scales_dtype
        && quantization_biases_dtype == quantization_scales_dtype && (activation_dtype == MlxDtype::BFloat16
        || activation_dtype == MlxDtype::Float16)
}

/// Selects how a validated target-verification projection is computed.
pub fn target_verification_projection_dispatch(
    activation_dtype: MlxDtype,
    quantization_scales_dtype: MlxDtype,
    quantization_biases_dtype: MlxDtype,
    quantization_group_size: i32,
    quantization_bits: i32,
    input_dimension: i32,
    output_dimension: i32,
) -> (dispatch: Qwen3_5TargetVerificationProjectionDispatch)
    ensures
        dispatch == (if optimized_dispatch_applies(
            activation_dtype,
            quantization_scales_dtype,
            quantization_biases_dtype,
            quantization_group_size,
            quantization_bits,
            input_dimension,
            output_dimension,
        ) {
            Qwen3_5TargetVerificationProjectionDispatch::OptimizedMetal
        } else {
            Qwen3_5TargetVerificationProjectionDispatch::TokenLocalMlxFallback
        }),
{
    let tile_count_fits = output_dimension > 0 && (output_dimension / 8).checked_mul(2).is_some();
    if (quantization_bits == 4 || quantization_bits == 5) && (quantization_group_size == 32
        || quantization_group_size == 64 || quantization_group_size == 128) && input_dimension > 0
        && input_dimension % 512 == 0 && output_dimension > 0 && output_dimension % 8 == 0 && tile_count_fits
        && activation_dtype == quantization_scales_dtype && quantization_biases_dtype == quantization_scales_dtype
        && (activation_dtype == MlxDtype::BFloat16 || activation_dtype == MlxDtype::Float16) {
        Qwen3_5TargetVerificationProjectionDispatch::OptimizedMetal
    } else {
        Qwen3_5TargetVerificationProjectionDispatch::TokenLocalMlxFallback
    }
}

/// Whether a four-row window qualifies for the split-K four-row kernel: 4-bit weights,
/// a supported group size, 16-bit activations of shape [1, 4, K] with K a positive
/// multiple of 64, and a positive output dimension divisible by the column tile (4).
pub fn four_row_split_k_is_eligible(
    activation: &TensorLayout,
    quantization_bits: i32,
    quantization_group_size: i32,
    input_dimension: i32,
    output_dimension: i32,
) -> (eligible: bool)
    ensures
        eligible == (quantization_bits == 4 && (quantization_group_size == 32 || quantization_group_size == 64
            || quantization_group_size == 128) && (activation.dtype == MlxDtype::BFloat16 || activation.dtype
            == MlxDtype::Float16) && activation.shape@.len() == 3 && activation.shape@[0] == 1
            && activation.shape@[1] == 4 && input_dimension > 0 && input_dimension % 64 == 0 && output_dimension > 0
            && output_dimension % 4 == 0),
{
    quantization_bits == 4 && (quantization_group_size == 32 || quantization_group_size == 64
        || quantization_group_size == 128) && (activation.dtype == MlxDtype::BFloat16 || activation.dtype
        == MlxDtype::Float16) && activation.shape.len() == 3 && activation.shape[0] == 1 && activation.shape[1] == 4
        && input_dimension > 0 && input_dimension % 64 == 0 && output_dimension > 0 && output_dimension % 4 == 0
}

/// Launch geometry of the four-row split-K kernel: the K split count (two parts from an
/// output dimension of 4096, else four), the grid and the threadgroup.
pub fn four_row_split_k_launch_geometry(output_dimension: i32) -> (geometry: (i32, [i32; 3], [i32; 3]))
    requires
        output_dimension > 0,
    ensures
        geometry.0 == (if output_dimension >= 4096 {
            2i32
        } else {
            4i32
        }),
        geometry.1@ == seq![(32 * geometry.0) as i32, (output_dimension / 4) as i32, 1i32],
        geometry.2@ == seq![(32 * geometry.0) as i32, 1i32, 1i32],
{
    let split_part_count: i32 = if output_dimension >= 4096 {
        2
    } else {
        4
    };
    let grid = [32 * split_part_count, output_dimension / 4, 1];
    let threadgroup = [32 * split_part_count, 1, 1];
    assert(grid@ =~= seq![(32 * split_part_count) as i32, (output_dimension / 4) as i32, 1i32]);
    assert(threadgroup@ =~= seq![(32 * split_part_count) as i32, 1i32, 1i32]);
    (split_part_count, grid, threadgroup)
}

/// A value handed to a Metal kernel template parameter.
#[derive(Clone, Copy, Debug, PartialEq, Eq, Structural)]
pub enum KernelTemplateValue {
    Dtype(MlxDtype),
    Integer(i32),
}

/// Template arguments of the fused gated-delta sequence kernels: input and state
/// dtypes, key and value head dimensions, key and value head counts.
pub fn gated_delta_template_arguments(
    sequence_shape: GatedDeltaSequenceShape,
    input_dtype: MlxDtype,
    state_dtype: MlxDtype,
) -> (arguments: [(&'static str, KernelTemplateValue); 6])
    ensures
        arguments@.len() == 6,
        arguments@[0].0@ == "InT"@ && arguments@[0].1 == KernelTemplateValue::Dtype(input_dtype),
        arguments@[1].0@ == "StT"@ && arguments@[1].1 == KernelTemplateValue::Dtype(state_dtype),
        arguments@[2].0@ == "Dk"@ && arguments@[2].1 == KernelTemplateValue::Integer(sequence_shape.key_head_dimension),
        arguments@[3].0@ == "Dv"@ && arguments@[3].1 == KernelTemplateValue::Integer(sequence_shape.value_head_dimension),
        arguments@[4].0@ == "Hk"@ && arguments@[4].1 == KernelTemplateValue::Integer(sequence_shape.key_head_count),
        arguments@[5].0@ == "Hv"@ && arguments@[5].1 == KernelTemplateValue::Integer(sequence_shape.value_head_count),
{
    [
        ("InT", KernelTemplateValue::Dtype(input_dtype)),
        ("StT", KernelTemplateValue::Dtype(state_dtype)),
        ("Dk", KernelTemplateValue::Integer(sequence_shape.key_head_dimension)),
        ("Dv", KernelTemplateValue::Integer(sequence_shape.value_head_dimension)),
        ("Hk", KernelTemplateValue::Integer(sequence_shape.key_head_count)),
        ("Hv", KernelTemplateValue::Integer(sequence_shape.value_head_count)),
    ]
}

/// For sequential one-query attention over a verification window: each query row
/// `i` attends to the key/value prefix before the window plus rows `0..=i`, so its
/// visible key/value end is `active_key_value_token_count - query_token_count + i + 1`.
///
/// A negative query token count cannot size the per-row list and is rejected.
pub fn sequential_attention_key_value_ends(
    query_token_count: i32,
    active_key_value_token_count: i32,
) -> (result: Result<Vec<i32>, Qwen3_5ExecutionError>)
    requires
        i32::MIN <= active_key_value_token_count - query_token_count <= i32::MAX,
    ensures
        query_token_count < 0 ==> result == Err::<Vec<i32>, Qwen3_5ExecutionError>(
            Qwen3_5ExecutionError::InvalidInput {
                reason: InvalidInputReason::QueryTokenCountExceedsHostCapacity,
            },
        ),
        query_token_count >= 0 ==> (result matches Ok(ends) && ends@.len() == query_token_count && forall|row: int|
            0 <= row < query_token_count ==> #[trigger] ends@[row] == active_key_value_token_count
                - query_token_count + row + 1),
{
    let query_prefix_token_count = active_key_value_token_count - query_token_count;
    if query_token_count < 0 {
        return Err(
            Qwen3_5ExecutionError::InvalidInput {
                reason: InvalidInputReason::QueryTokenCountExceedsHostCapacity,
            },
        );
    }
    let mut ends: Vec<i32> = Vec::new();
    let mut row: i32 = 0;
    while row < query_token_count
        invariant
            0 <= row <= query_token_count,
            query_prefix_token_count == active_key_value_token_count - query_token_count,
            ends@.len() == row,
            forall|r: int| 0 <= r < row ==> #[trigger] ends@[r] == query_prefix_token_count + r + 1,
        decreases query_token_count - row,
    {
        ends.push(query_prefix_token_count + row + 1);
        row += 1;
    }
    Ok(ends)
}

/// Sequence-kernel law: accepted inputs are queries and keys `[batch, tokens, key
/// heads, 128]`, values `[batch, tokens, value heads, value dim]`, decays and update
/// rates `[batch, tokens, value heads]` and a float32 recurrent state `[batch, value
/// heads, value dim, 128]`, with every dimension positive, value heads a multiple of
/// key heads, the value dimension a multiple of 32, and floating activations; the
/// returned geometry is read from those shapes.
pub proof fn lemma_gated_delta_sequence_accepts_blocked_geometry(
    queries: TensorLayout,
    keys: TensorLayout,
    values: TensorLayout,
    decays: TensorLayout,
    update_rates: TensorLayout,
    recurrent_state: TensorLayout,
)
    ensures
        gated_delta_sequence_outcome(queries, keys, values, decays, update_rates, recurrent_state) matches Ok(
            shape,
        ) ==> {
            &&& queries.shape@ == seq![
                shape.batch_size,
                shape.token_count,
                shape.key_head_count,
                shape.key_head_dimension,
            ]
            &&& keys.shape@ == queries.shape@
            &&& values.shape@ == seq![
                shape.batch_size,
                shape.token_count,
                shape.value_head_count,
                shape.value_head_dimension,
            ]
            &&& decays.shape@ == seq![shape.batch_size, shape.token_count, shape.value_head_count]
            &&& update_rates.shape@ == decays.shape@
            &&& recurrent_state.shape@ == seq![
                shape.batch_size,
                shape.value_head_count,
                shape.value_head_dimension,
                shape.key_head_dimension,
            ]
            &&& shape.batch_size > 0 && shape.token_count > 0 && shape.key_head_count > 0
                && shape.value_head_count > 0 && shape.value_head_dimension > 0
            &&& shape.key_head_dimension == 128
            &&& shape.value_head_dimension % 32 == 0
            &&& shape.value_head_count % shape.key_head_count == 0
            &&& recurrent_state.dtype == MlxDtype::Float32
            &&& is_activation_dtype(queries.dtype) && is_activation_dtype(keys.dtype) && is_activation_dtype(
                values.dtype,
            ) && is_activation_dtype(decays.dtype) && is_activation_dtype(update_rates.dtype)
        },
{
    if gated_delta_sequence_outcome(queries, keys, values, decays, update_rates, recurrent_state) is Ok {
        assert(queries.shape@ =~= seq![
            queries.shape@[0],
            queries.shape@[1],
            queries.shape@[2],
            queries.shape@[3],
        ]);
        assert(values.shape@ =~= seq![values.shape@[0], values.shape@[1], values.shape@[2], values.shape@[3]]);
    }
}

/// One-step law: accepted inputs are queries and keys `[batch, key heads, key dim]`,
/// values `[batch, value heads, value dim]`, decays and update rates `[batch, value
/// heads]` and a float32 recurrent state `[batch, value heads, value dim, key dim]`,
/// with positive dimensions and floating activations; the returned repeat factor times
/// the key heads is the value heads.
pub proof fn lemma_gated_delta_step_repeats_key_heads_to_value_heads(
    queries: TensorLayout,
    keys: TensorLayout,
    values: TensorLayout,
    decays: TensorLayout,
    update_rates: TensorLayout,
    recurrent_state: TensorLayout,
)
    ensures
        gated_delta_step_outcome(queries, keys, values, decays, update_rates, recurrent_state) matches Ok(repeat)
            ==> {
            let q = queries.shape@;
            let v = values.shape@;
            &&& q.len() == 3 && v.len() == 3
            &&& keys.shape@ == q
            &&& q[0] > 0 && q[1] > 0 && q[2] > 0 && v[1] > 0 && v[2] > 0
            &&& v[0] == q[0]
            &&& repeat * q[1] == v[1]
            &&& repeat >= 1
            &&& decays.shape@ == seq![q[0], v[1]]
            &&& update_rates.shape@ == decays.shape@
            &&& recurrent_state.shape@ == seq![q[0], v[1], v[2], q[2]]
            &&& recurrent_state.dtype == MlxDtype::Float32
            &&& is_activation_dtype(queries.dtype) && is_activation_dtype(keys.dtype) && is_activation_dtype(
                values.dtype,
            ) && is_activation_dtype(decays.dtype) && is_activation_dtype(update_rates.dtype)
        },
{
    if gated_delta_step_outcome(queries, keys, values, decays, update_rates, recurrent_state) is Ok {
        let q = queries.shape@;
        let v = values.shape@;
        assert((v[1] / q[1]) * q[1] == v[1]) by (nonlinear_arith)
            requires
                q[1] > 0,
                v[1] > 0,
                v[1] % q[1] == 0,
        ;
        assert(v[1] / q[1] >= 1) by (nonlinear_arith)
            requires
                q[1] > 0,
                v[1] > 0,
                v[1] % q[1] == 0,
        ;
    }
}

/// Full-attention law: accepted arguments have rank-four queries, keys and values with
/// identical key and value shapes, the same batch and head dimension, query heads a
/// multiple of key/value heads, and at least as many active key/value tokens as query
/// tokens; the output gate is `[batch, query tokens, query heads x head dim]` and the
/// scale is finite and positive. The returned geometry is read from those shapes.
pub proof fn lemma_full_attention_accepts_grouped_query_geometry(
    rotated_queries_shape: Seq<i32>,
    active_keys_shape: Seq<i32>,
    active_values_shape: Seq<i32>,
    output_gate_shape: Seq<i32>,
    attention_scale_is_finite_and_positive: bool,
)
    ensures
        full_attention_outcome(
            rotated_queries_shape,
            active_keys_shape,
            active_values_shape,
            output_gate_shape,
            attention_scale_is_finite_and_positive,
        ) matches Ok(shape) ==> {
            let q = rotated_queries_shape;
            let k = active_keys_shape;
            &&& q.len() == 4 && k.len() == 4
            &&& active_values_shape == k
            &&& shape.batch_size == q[0] && q[0] == k[0] && q[0] > 0
            &&& shape.query_token_count == q[2] && q[2] > 0
            &&& shape.active_key_value_token_count == k[2] && k[2] >= q[2]
            &&& q[1] > 0 && k[1] > 0 && q[1] % k[1] == 0
            &&& q[3] > 0 && k[3] == q[3]
            &&& shape.output_dimension == q[1] * q[3]
            &&& output_gate_shape == seq![q[0], q[2], shape.output_dimension]
            &&& attention_scale_is_finite_and_positive
        },
{
}

} // verus!
