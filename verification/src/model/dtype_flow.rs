//! Exact decoder-state dtype derivation from bound model weights.
//!
//! MLX promotes each operation from live activation, normalization, affine-scale and
//! affine-bias dtypes. This module replays only that type flow, without evaluating
//! arrays, so cache serialization and memory admission describe the tensors the
//! production graph actually creates.

use vstd::prelude::*;

use crate::error::{InvalidInputReason, Qwen3_5ExecutionError};

verus! {

/// Element type of an MLX array.
#[derive(Clone, Copy, Debug, PartialEq, Eq, Structural)]
pub enum MlxDtype {
    Bool,
    UInt8,
    UInt16,
    UInt32,
    UInt64,
    Int8,
    Int16,
    Int32,
    Int64,
    Float16,
    Float32,
    Float64,
    BFloat16,
    Complex64,
}

/// Element type recorded in a safetensors header.
#[derive(Clone, Copy, Debug, PartialEq, Eq, Structural)]
pub enum SafetensorsDtype {
    Bool,
    UInt8,
    Int8,
    UInt16,
    Int16,
    UInt32,
    Int32,
    UInt64,
    Int64,
    Float16,
    BFloat16,
    Float32,
    Float64,
}

/// Element type of persisted decoder-cache state.
#[derive(Clone, Copy, Debug, PartialEq, Eq, Structural)]
pub enum DecoderCacheTensorDtype {
    Float16,
    BFloat16,
    Float32,
}

/// Dtypes of an affine (possibly quantized) linear layer's parameters.
#[derive(Clone, Copy, Debug, PartialEq, Eq, Structural)]
pub enum AffineWeightDtypes {
    /// Unquantized bfloat16 weight.
    NativeBfloat16,
    /// Affine-quantized weight with its scale and bias dtypes.
    Quantized { scales: MlxDtype, biases: MlxDtype },
}

/// Parameter dtypes of one decoder layer's attention block.
#[derive(Clone, Copy, Debug, PartialEq, Eq, Structural)]
pub enum AttentionWeightDtypes {
    Linear {
        input_queries_keys_values_projection: AffineWeightDtypes,
        convolution_weight: MlxDtype,
        normalization_weight: MlxDtype,
        output_gate_projection: AffineWeightDtypes,
        output_projection: AffineWeightDtypes,
    },
    Full {
        query_projection: AffineWeightDtypes,
        query_normalization_weight: MlxDtype,
        key_projection: AffineWeightDtypes,
        key_normalization_weight: MlxDtype,
        value_projection: AffineWeightDtypes,
        output_projection: AffineWeightDtypes,
    },
}

/// Parameter dtypes of one decoder layer's feed-forward block. The routed experts of
/// a mixture-of-experts layer are described by the expert pager's layer plan.
#[derive(Clone, Copy, Debug, PartialEq, Eq, Structural)]
pub enum FeedForwardWeightDtypes {
    Dense {
        gate_projection: AffineWeightDtypes,
        up_projection: AffineWeightDtypes,
        down_projection: AffineWeightDtypes,
    },
    MixtureOfExperts {
        shared_expert_gate_projection: AffineWeightDtypes,
        shared_expert_up_projection: AffineWeightDtypes,
        shared_expert_down_projection: AffineWeightDtypes,
        shared_expert_output_gate_projection: AffineWeightDtypes,
    },
}

/// Parameter dtypes of one decoder layer.
#[derive(Clone, Copy, Debug, PartialEq, Eq, Structural)]
pub struct DecoderLayerWeightDtypes {
    pub input_normalization_weight: MlxDtype,
    pub attention: AttentionWeightDtypes,
    pub post_attention_normalization_weight: MlxDtype,
    pub feed_forward: FeedForwardWeightDtypes,
}

/// How one routed-expert projection is stored according to the expert layer plan:
/// native bfloat16, or affine-quantized with the safetensors dtypes of its scales and
/// biases (`None` when the plan has no such tensor source).
#[derive(Clone, Copy, Debug, PartialEq, Eq, Structural)]
pub enum ExpertProjectionDtypes {
    NativeBfloat16,
    Quantized { scales: Option<SafetensorsDtype>, biases: Option<SafetensorsDtype> },
}

/// Routed-expert projection dtypes of one sparse decoder layer.
#[derive(Clone, Copy, Debug, PartialEq, Eq, Structural)]
pub struct ExpertLayerDtypePlan {
    pub gate_projection: ExpertProjectionDtypes,
    pub up_projection: ExpertProjectionDtypes,
    pub down_projection: ExpertProjectionDtypes,
}

/// Persistent-state dtypes of one decoder layer.
#[derive(Clone, Copy, Debug, PartialEq, Eq, Structural)]
pub enum Qwen3_5DecoderLayerCacheDtypes {
    LinearAttention { convolution: DecoderCacheTensorDtype },
    FullAttention { keys: DecoderCacheTensorDtype, values: DecoderCacheTensorDtype },
}

pub open spec fn is_floating(dtype: MlxDtype) -> bool {
    dtype == MlxDtype::Float16 || dtype == MlxDtype::BFloat16 || dtype == MlxDtype::Float32
}

/// MLX's floating promotion: float32 absorbs everything, mixed float16/bfloat16 becomes
/// float32, equal 16-bit formats stay; any other pair is unsupported.
pub open spec fn promoted_dtype(left: MlxDtype, right: MlxDtype) -> Result<MlxDtype, InvalidInputReason> {
    if left == MlxDtype::Float32 || right == MlxDtype::Float32 {
        Ok(MlxDtype::Float32)
    } else if (left == MlxDtype::Float16 && right == MlxDtype::BFloat16) || (left == MlxDtype::BFloat16
        && right == MlxDtype::Float16) {
        Ok(MlxDtype::Float32)
    } else if left == MlxDtype::Float16 && right == MlxDtype::Float16 {
        Ok(MlxDtype::Float16)
    } else if left == MlxDtype::BFloat16 && right == MlxDtype::BFloat16 {
        Ok(MlxDtype::BFloat16)
    } else {
        Err(InvalidInputReason::UnsupportedDecoderDtype)
    }
}

/// Promotes `left` with a fallible `right`.
pub open spec fn promoted_with(left: MlxDtype, right: Result<MlxDtype, InvalidInputReason>) -> Result<
    MlxDtype,
    InvalidInputReason,
> {
    match right {
        Ok(r) => promoted_dtype(left, r),
        Err(e) => Err(e),
    }
}

/// Promotes a fallible `left` with `right`.
pub open spec fn promoted_after(left: Result<MlxDtype, InvalidInputReason>, right: MlxDtype) -> Result<
    MlxDtype,
    InvalidInputReason,
> {
    match left {
        Ok(l) => promoted_dtype(l, right),
        Err(e) => Err(e),
    }
}

/// Promotes two fallible dtypes, left first.
pub open spec fn promoted_both(
    left: Result<MlxDtype, InvalidInputReason>,
    right: Result<MlxDtype, InvalidInputReason>,
) -> Result<MlxDtype, InvalidInputReason> {
    match left {
        Ok(l) => promoted_with(l, right),
        Err(e) => Err(e),
    }
}

/// Output dtype of the embedding lookup.
pub open spec fn embedding_dtype(embedding: AffineWeightDtypes) -> MlxDtype {
    match embedding {
        AffineWeightDtypes::NativeBfloat16 => MlxDtype::BFloat16,
        AffineWeightDtypes::Quantized { scales, .. } => scales,
    }
}

/// Output dtype of an affine layer applied to `activation`.
pub open spec fn affine_dtype(activation: MlxDtype, weights: AffineWeightDtypes) -> Result<MlxDtype, InvalidInputReason> {
    match weights {
        AffineWeightDtypes::NativeBfloat16 => promoted_dtype(activation, MlxDtype::BFloat16),
        AffineWeightDtypes::Quantized { scales, biases } => promoted_with(activation, promoted_dtype(scales, biases)),
    }
}

/// Affine output dtype of a fallible activation.
pub open spec fn affine_dtype_after(
    activation: Result<MlxDtype, InvalidInputReason>,
    weights: AffineWeightDtypes,
) -> Result<MlxDtype, InvalidInputReason> {
    match activation {
        Ok(a) => affine_dtype(a, weights),
        Err(e) => Err(e),
    }
}

pub open spec fn floating_safetensors_dtype(dtype: Option<SafetensorsDtype>) -> Result<MlxDtype, InvalidInputReason> {
    match dtype {
        None => Err(InvalidInputReason::MissingExpertAffineParameterDtype),
        Some(SafetensorsDtype::Float16) => Ok(MlxDtype::Float16),
        Some(SafetensorsDtype::BFloat16) => Ok(MlxDtype::BFloat16),
        Some(SafetensorsDtype::Float32) => Ok(MlxDtype::Float32),
        Some(_) => Err(InvalidInputReason::NonFloatingExpertAffineParameter),
    }
}

/// Output dtype of a routed-expert projection applied to `activation`.
pub open spec fn expert_projection_dtype(
    activation: MlxDtype,
    projection: ExpertProjectionDtypes,
) -> Result<MlxDtype, InvalidInputReason> {
    match projection {
        ExpertProjectionDtypes::NativeBfloat16 => promoted_dtype(activation, MlxDtype::BFloat16),
        ExpertProjectionDtypes::Quantized { scales, biases } => match floating_safetensors_dtype(scales) {
            Err(e) => Err(e),
            Ok(scale_dtype) => match floating_safetensors_dtype(biases) {
                Err(e) => Err(e),
                Ok(bias_dtype) => promoted_with(activation, promoted_dtype(scale_dtype, bias_dtype)),
            },
        },
    }
}

pub open spec fn cache_dtype(dtype: MlxDtype) -> Result<DecoderCacheTensorDtype, InvalidInputReason> {
    if dtype == MlxDtype::Float16 {
        Ok(DecoderCacheTensorDtype::Float16)
    } else if dtype == MlxDtype::BFloat16 {
        Ok(DecoderCacheTensorDtype::BFloat16)
    } else if dtype == MlxDtype::Float32 {
        Ok(DecoderCacheTensorDtype::Float32)
    } else {
        Err(InvalidInputReason::UnsupportedDecoderCacheDtype)
    }
}


/// Cache dtypes and output dtype of one attention block applied to `normalized_input`.
pub open spec fn attention_flow(normalized_input: MlxDtype, attention: AttentionWeightDtypes) -> Result<
    (Qwen3_5DecoderLayerCacheDtypes, MlxDtype),
    InvalidInputReason,
> {
    match attention {
        AttentionWeightDtypes::Linear {
            input_queries_keys_values_projection,
            convolution_weight,
            normalization_weight,
            output_gate_projection,
            output_projection,
        } => {
            let convolution_state = affine_dtype(normalized_input, input_queries_keys_values_projection);
            let convolution_output = promoted_after(convolution_state, convolution_weight);
            // Qwen multiplies normalized linear-attention queries and keys by retained BF16
            // scales before the gated-delta kernel.
            let recurrent_output = promoted_after(convolution_output, MlxDtype::BFloat16);
            let normalized_recurrent_output = promoted_after(recurrent_output, normalization_weight);
            let output_gate = promoted_both(
                normalized_recurrent_output,
                affine_dtype(normalized_input, output_gate_projection),
            );
            match output_gate {
                Err(e) => Err(e),
                Ok(gated_output) => match cache_dtype(convolution_state->Ok_0) {
                    Err(e) => Err(e),
                    Ok(convolution) => match affine_dtype(gated_output, output_projection) {
                        Err(e) => Err(e),
                        Ok(output) => Ok((Qwen3_5DecoderLayerCacheDtypes::LinearAttention { convolution }, output)),
                    },
                },
            }
        },
        AttentionWeightDtypes::Full {
            query_projection,
            query_normalization_weight,
            key_projection,
            key_normalization_weight,
            value_projection,
            output_projection,
        } => {
            let query = affine_dtype(normalized_input, query_projection);
            let normalized_query = promoted_after(query, query_normalization_weight);
            let key = match normalized_query {
                Err(e) => Err(e),
                Ok(_) => affine_dtype(normalized_input, key_projection),
            };
            let normalized_key = promoted_after(key, key_normalization_weight);
            let value = match normalized_key {
                Err(e) => Err(e),
                Ok(_) => affine_dtype(normalized_input, value_projection),
            };
            let attention_dtype = match value {
                Err(e) => Err(e),
                Ok(v) => promoted_after(promoted_both(normalized_query, normalized_key), v),
            };
            let gated_attention = match attention_dtype {
                Err(e) => Err(e),
                Ok(a) => promoted_with(a, query),
            };
            match gated_attention {
                Err(e) => Err(e),
                Ok(gated) => match cache_dtype(normalized_key->Ok_0) {
                    Err(e) => Err(e),
                    Ok(keys) => match cache_dtype(value->Ok_0) {
                        Err(e) => Err(e),
                        Ok(values) => match affine_dtype(gated, output_projection) {
                            Err(e) => Err(e),
                            Ok(output) => Ok((Qwen3_5DecoderLayerCacheDtypes::FullAttention { keys, values }, output)),
                        },
                    },
                },
            }
        },
    }
}

/// Output dtype of one feed-forward block applied to `normalized_attention`.
pub open spec fn feed_forward_flow(
    normalized_attention: MlxDtype,
    feed_forward: FeedForwardWeightDtypes,
    expert_plan: Result<ExpertLayerDtypePlan, InvalidInputReason>,
) -> Result<MlxDtype, InvalidInputReason> {
    match feed_forward {
        FeedForwardWeightDtypes::Dense { gate_projection, up_projection, down_projection } => {
            let activated = promoted_both(
                affine_dtype(normalized_attention, gate_projection),
                affine_dtype(normalized_attention, up_projection),
            );
            affine_dtype_after(activated, down_projection)
        },
        FeedForwardWeightDtypes::MixtureOfExperts {
            shared_expert_gate_projection,
            shared_expert_up_projection,
            shared_expert_down_projection,
            shared_expert_output_gate_projection,
        } => match expert_plan {
            Err(e) => Err(e),
            Ok(plan) => {
                let sparse_activated = promoted_both(
                    expert_projection_dtype(normalized_attention, plan.gate_projection),
                    expert_projection_dtype(normalized_attention, plan.up_projection),
                );
                let sparse_output = match sparse_activated {
                    Err(e) => Err(e),
                    Ok(a) => expert_projection_dtype(a, plan.down_projection),
                };
                let shared_output = match sparse_output {
                    Err(e) => Err(e),
                    Ok(_) => affine_dtype_after(
                        promoted_both(
                            affine_dtype(normalized_attention, shared_expert_gate_projection),
                            affine_dtype(normalized_attention, shared_expert_up_projection),
                        ),
                        shared_expert_down_projection,
                    ),
                };
                let shared_gate = match shared_output {
                    Err(e) => Err(e),
                    Ok(_) => affine_dtype(normalized_attention, shared_expert_output_gate_projection),
                };
                match shared_gate {
                    Err(e) => Err(e),
                    Ok(_) => promoted_both(sparse_output, promoted_both(shared_output, shared_gate)),
                }
            },
        },
    }
}

/// The expert plan of sparse decoder layer `index`.
pub open spec fn expert_plan_for(
    expert_layer_plans: Option<Seq<ExpertLayerDtypePlan>>,
    index: int,
) -> Result<ExpertLayerDtypePlan, InvalidInputReason> {
    match expert_layer_plans {
        None => Err(InvalidInputReason::SparseDtypeFlowRequiresExpertPager),
        Some(plans) => if 0 <= index < plans.len() {
            Ok(plans[index])
        } else {
            Err(InvalidInputReason::MissingExpertLayerPlan)
        },
    }
}

/// Cache dtypes of decoder layer `index` and the hidden dtype it hands to the next layer.
#[verifier::opaque]
pub open spec fn layer_flow(
    hidden: MlxDtype,
    layer: DecoderLayerWeightDtypes,
    index: int,
    expert_layer_plans: Option<Seq<ExpertLayerDtypePlan>>,
) -> Result<(Qwen3_5DecoderLayerCacheDtypes, MlxDtype), InvalidInputReason> {
    match promoted_dtype(hidden, layer.input_normalization_weight) {
        Err(e) => Err(e),
        Ok(normalized_input) => match attention_flow(normalized_input, layer.attention) {
            Err(e) => Err(e),
            Ok((cache, attention_output)) => match promoted_dtype(hidden, attention_output) {
                Err(e) => Err(e),
                Ok(residual) => match promoted_dtype(residual, layer.post_attention_normalization_weight) {
                    Err(e) => Err(e),
                    Ok(normalized_attention) => {
                        let plan = match layer.feed_forward {
                            FeedForwardWeightDtypes::Dense { .. } => Err(InvalidInputReason::MissingExpertLayerPlan),
                            FeedForwardWeightDtypes::MixtureOfExperts { .. } => expert_plan_for(expert_layer_plans, index),
                        };
                        match feed_forward_flow(normalized_attention, layer.feed_forward, plan) {
                            Err(e) => Err(e),
                            Ok(feed_forward_output) => match promoted_dtype(residual, feed_forward_output) {
                                Err(e) => Err(e),
                                Ok(next_hidden) => Ok((cache, next_hidden)),
                            },
                        }
                    },
                },
            },
        },
    }
}

/// Cache dtypes of decoder layers `from..`, entering layer `from` with `hidden`.
pub open spec fn layers_flow_from(
    hidden: MlxDtype,
    layers: Seq<DecoderLayerWeightDtypes>,
    expert_layer_plans: Option<Seq<ExpertLayerDtypePlan>>,
    from: int,
) -> Result<Seq<Qwen3_5DecoderLayerCacheDtypes>, InvalidInputReason>
    decreases layers.len() - from,
{
    if from < 0 || from >= layers.len() {
        Ok(Seq::empty())
    } else {
        match layer_flow(hidden, layers[from], from, expert_layer_plans) {
            Err(e) => Err(e),
            Ok((cache, next_hidden)) => match layers_flow_from(next_hidden, layers, expert_layer_plans, from + 1) {
                Err(e) => Err(e),
                Ok(rest) => Ok(seq![cache] + rest),
            },
        }
    }
}

/// Decoder-cache dtypes of every layer of the model.
pub open spec fn decoder_layer_cache_dtypes(
    embedding: AffineWeightDtypes,
    layers: Seq<DecoderLayerWeightDtypes>,
    expert_layer_plans: Option<Seq<ExpertLayerDtypePlan>>,
) -> Result<Seq<Qwen3_5DecoderLayerCacheDtypes>, InvalidInputReason> {
    layers_flow_from(embedding_dtype(embedding), layers, expert_layer_plans, 0)
}


fn promote_floating_dtypes(left: MlxDtype, right: MlxDtype) -> (promoted: Result<MlxDtype, InvalidInputReason>)
    ensures
        promoted == promoted_dtype(left, right),
{
    // MLX promotes mixed FP16/BF16 to FP32 because neither 16-bit format can represent
    // the other's complete range and precision contract.
    match (left, right) {
        (MlxDtype::Float32, _) | (_, MlxDtype::Float32) => Ok(MlxDtype::Float32),
        (MlxDtype::Float16, MlxDtype::BFloat16) | (MlxDtype::BFloat16, MlxDtype::Float16) => Ok(MlxDtype::Float32),
        (MlxDtype::Float16, MlxDtype::Float16) => Ok(MlxDtype::Float16),
        (MlxDtype::BFloat16, MlxDtype::BFloat16) => Ok(MlxDtype::BFloat16),
        _ => Err(InvalidInputReason::UnsupportedDecoderDtype),
    }
}

fn embedding_output_dtype(embedding: AffineWeightDtypes) -> (dtype: MlxDtype)
    ensures
        dtype == embedding_dtype(embedding),
{
    match embedding {
        AffineWeightDtypes::NativeBfloat16 => MlxDtype::BFloat16,
        // MLX's affine dequantize primitive declares its output with the scale dtype.
        AffineWeightDtypes::Quantized { scales, .. } => scales,
    }
}

fn affine_output_dtype(activation: MlxDtype, weights: AffineWeightDtypes) -> (dtype: Result<MlxDtype, InvalidInputReason>)
    ensures
        dtype == affine_dtype(activation, weights),
{
    let parameter_dtype = match weights {
        AffineWeightDtypes::NativeBfloat16 => MlxDtype::BFloat16,
        AffineWeightDtypes::Quantized { scales, biases } => promote_floating_dtypes(scales, biases)?,
    };
    promote_floating_dtypes(activation, parameter_dtype)
}

fn expert_parameter_dtype(dtype: Option<SafetensorsDtype>) -> (result: Result<MlxDtype, InvalidInputReason>)
    ensures
        result == floating_safetensors_dtype(dtype),
{
    match dtype {
        None => Err(InvalidInputReason::MissingExpertAffineParameterDtype),
        Some(SafetensorsDtype::Float16) => Ok(MlxDtype::Float16),
        Some(SafetensorsDtype::BFloat16) => Ok(MlxDtype::BFloat16),
        Some(SafetensorsDtype::Float32) => Ok(MlxDtype::Float32),
        Some(_) => Err(InvalidInputReason::NonFloatingExpertAffineParameter),
    }
}

fn expert_projection_output_dtype(activation: MlxDtype, projection: ExpertProjectionDtypes) -> (dtype: Result<
    MlxDtype,
    InvalidInputReason,
>)
    ensures
        dtype == expert_projection_dtype(activation, projection),
{
    match projection {
        ExpertProjectionDtypes::NativeBfloat16 => promote_floating_dtypes(activation, MlxDtype::BFloat16),
        ExpertProjectionDtypes::Quantized { scales, biases } => {
            let scale_dtype = expert_parameter_dtype(scales)?;
            let bias_dtype = expert_parameter_dtype(biases)?;
            let parameter_dtype = promote_floating_dtypes(scale_dtype, bias_dtype)?;
            promote_floating_dtypes(activation, parameter_dtype)
        },
    }
}

fn decoder_cache_tensor_dtype(dtype: MlxDtype) -> (result: Result<DecoderCacheTensorDtype, InvalidInputReason>)
    ensures
        result == cache_dtype(dtype),
{
    match dtype {
        MlxDtype::Float16 => Ok(DecoderCacheTensorDtype::Float16),
        MlxDtype::BFloat16 => Ok(DecoderCacheTensorDtype::BFloat16),
        MlxDtype::Float32 => Ok(DecoderCacheTensorDtype::Float32),
        _ => Err(InvalidInputReason::UnsupportedDecoderCacheDtype),
    }
}

fn attention_output_dtypes(normalized_input: MlxDtype, attention: AttentionWeightDtypes) -> (result: Result<
    (Qwen3_5DecoderLayerCacheDtypes, MlxDtype),
    InvalidInputReason,
>)
    ensures
        result == attention_flow(normalized_input, attention),
{
    match attention {
        AttentionWeightDtypes::Linear {
            input_queries_keys_values_projection,
            convolution_weight,
            normalization_weight,
            output_gate_projection,
            output_projection,
        } => {
            let convolution_state = affine_output_dtype(normalized_input, input_queries_keys_values_projection)?;
            let convolution_output = promote_floating_dtypes(convolution_state, convolution_weight)?;
            let recurrent_output = promote_floating_dtypes(convolution_output, MlxDtype::BFloat16)?;
            let normalized_recurrent_output = promote_floating_dtypes(recurrent_output, normalization_weight)?;
            let output_gate = affine_output_dtype(normalized_input, output_gate_projection)?;
            let gated_output = promote_floating_dtypes(normalized_recurrent_output, output_gate)?;
            let convolution = decoder_cache_tensor_dtype(convolution_state)?;
            let output = affine_output_dtype(gated_output, output_projection)?;
            Ok((Qwen3_5DecoderLayerCacheDtypes::LinearAttention { convolution }, output))
        },
        AttentionWeightDtypes::Full {
            query_projection,
            query_normalization_weight,
            key_projection,
            key_normalization_weight,
            value_projection,
            output_projection,
        } => {
            let query = affine_output_dtype(normalized_input, query_projection)?;
            let normalized_query = promote_floating_dtypes(query, query_normalization_weight)?;
            let key = affine_output_dtype(normalized_input, key_projection)?;
            let normalized_key = promote_floating_dtypes(key, key_normalization_weight)?;
            let value = affine_output_dtype(normalized_input, value_projection)?;
            let query_key = promote_floating_dtypes(normalized_query, normalized_key)?;
            let attention_dtype = promote_floating_dtypes(query_key, value)?;
            let gated_attention = promote_floating_dtypes(attention_dtype, query)?;
            let keys = decoder_cache_tensor_dtype(normalized_key)?;
            let values = decoder_cache_tensor_dtype(value)?;
            let output = affine_output_dtype(gated_attention, output_projection)?;
            Ok((Qwen3_5DecoderLayerCacheDtypes::FullAttention { keys, values }, output))
        },
    }
}

fn feed_forward_output_dtype(
    normalized_attention: MlxDtype,
    feed_forward: FeedForwardWeightDtypes,
    expert_plan: Result<ExpertLayerDtypePlan, InvalidInputReason>,
) -> (result: Result<MlxDtype, InvalidInputReason>)
    ensures
        result == feed_forward_flow(normalized_attention, feed_forward, expert_plan),
{
    match feed_forward {
        FeedForwardWeightDtypes::Dense { gate_projection, up_projection, down_projection } => {
            let gate = affine_output_dtype(normalized_attention, gate_projection)?;
            let up = affine_output_dtype(normalized_attention, up_projection)?;
            let activated = promote_floating_dtypes(gate, up)?;
            affine_output_dtype(activated, down_projection)
        },
        FeedForwardWeightDtypes::MixtureOfExperts {
            shared_expert_gate_projection,
            shared_expert_up_projection,
            shared_expert_down_projection,
            shared_expert_output_gate_projection,
        } => {
            let plan = expert_plan?;
            let sparse_gate = expert_projection_output_dtype(normalized_attention, plan.gate_projection)?;
            let sparse_up = expert_projection_output_dtype(normalized_attention, plan.up_projection)?;
            let sparse_activated = promote_floating_dtypes(sparse_gate, sparse_up)?;
            let sparse_output = expert_projection_output_dtype(sparse_activated, plan.down_projection)?;
            let shared_gate = affine_output_dtype(normalized_attention, shared_expert_gate_projection)?;
            let shared_up = affine_output_dtype(normalized_attention, shared_expert_up_projection)?;
            let shared_activated = promote_floating_dtypes(shared_gate, shared_up)?;
            let shared_output = affine_output_dtype(shared_activated, shared_expert_down_projection)?;
            let shared_output_gate = affine_output_dtype(normalized_attention, shared_expert_output_gate_projection)?;
            let shared = promote_floating_dtypes(shared_output, shared_output_gate)?;
            promote_floating_dtypes(sparse_output, shared)
        },
    }
}

fn layer_output_dtypes(
    hidden: MlxDtype,
    layer: DecoderLayerWeightDtypes,
    index: usize,
    expert_layer_plans: Option<&[ExpertLayerDtypePlan]>,
) -> (result: Result<(Qwen3_5DecoderLayerCacheDtypes, MlxDtype), InvalidInputReason>)
    ensures
        result == layer_flow(hidden, layer, index as int, optional_plans_view(expert_layer_plans)),
{
    proof {
        reveal(layer_flow);
    }
    let normalized_input = promote_floating_dtypes(hidden, layer.input_normalization_weight)?;
    let (cache, attention_output) = attention_output_dtypes(normalized_input, layer.attention)?;
    // Residual promotion becomes the input dtype for the following MLP and ultimately for
    // the next decoder layer.
    let residual = promote_floating_dtypes(hidden, attention_output)?;
    let normalized_attention = promote_floating_dtypes(residual, layer.post_attention_normalization_weight)?;
    let plan = match layer.feed_forward {
        FeedForwardWeightDtypes::Dense { .. } => Err(InvalidInputReason::MissingExpertLayerPlan),
        FeedForwardWeightDtypes::MixtureOfExperts { .. } => match expert_layer_plans {
            None => Err(InvalidInputReason::SparseDtypeFlowRequiresExpertPager),
            Some(plans) => if index < plans.len() {
                Ok(plans[index])
            } else {
                Err(InvalidInputReason::MissingExpertLayerPlan)
            },
        },
    };
    let feed_forward_output = feed_forward_output_dtype(normalized_attention, layer.feed_forward, plan)?;
    let next_hidden = promote_floating_dtypes(residual, feed_forward_output)?;
    Ok((cache, next_hidden))
}

pub open spec fn optional_plans_view(expert_layer_plans: Option<&[ExpertLayerDtypePlan]>) -> Option<Seq<ExpertLayerDtypePlan>> {
    match expert_layer_plans {
        Some(plans) => Some(plans@),
        None => None,
    }
}

/// Replays MLX's floating dtype propagation over the bound decoder graph without
/// evaluating model tensors, and returns the persistent-state dtypes of every layer.
pub fn derive_decoder_layer_cache_dtypes(
    embedding: AffineWeightDtypes,
    decoder_layers: &[DecoderLayerWeightDtypes],
    expert_layer_plans: Option<&[ExpertLayerDtypePlan]>,
) -> (result: Result<Vec<Qwen3_5DecoderLayerCacheDtypes>, Qwen3_5ExecutionError>)
    ensures
        match decoder_layer_cache_dtypes(embedding, decoder_layers@, optional_plans_view(expert_layer_plans)) {
            Ok(dtypes) => result matches Ok(v) && v@ == dtypes,
            Err(reason) => result == Err::<Vec<Qwen3_5DecoderLayerCacheDtypes>, Qwen3_5ExecutionError>(
                Qwen3_5ExecutionError::InvalidInput { reason },
            ),
        },
{
    let ghost plans = optional_plans_view(expert_layer_plans);
    let ghost initial = embedding_dtype(embedding);
    let mut hidden = embedding_output_dtype(embedding);
    let mut cache_dtypes: Vec<Qwen3_5DecoderLayerCacheDtypes> = Vec::new();
    let mut index: usize = 0;
    while index < decoder_layers.len()
        invariant
            index <= decoder_layers@.len(),
            plans == optional_plans_view(expert_layer_plans),
            initial == embedding_dtype(embedding),
            layers_flow_from(initial, decoder_layers@, plans, 0) == match layers_flow_from(
                hidden,
                decoder_layers@,
                plans,
                index as int,
            ) {
                Ok(rest) => Ok(cache_dtypes@ + rest),
                Err(e) => Err(e),
            },
        decreases decoder_layers.len() - index,
    {
        match layer_output_dtypes(hidden, decoder_layers[index], index, expert_layer_plans) {
            Err(reason) => {
                assert(layers_flow_from(hidden, decoder_layers@, plans, index as int) == Err::<
                    Seq<Qwen3_5DecoderLayerCacheDtypes>,
                    InvalidInputReason,
                >(reason));
                return Err(Qwen3_5ExecutionError::InvalidInput { reason });
            },
            Ok((cache, next_hidden)) => {
                let ghost before = cache_dtypes@;
                cache_dtypes.push(cache);
                proof {
                    match layers_flow_from(next_hidden, decoder_layers@, plans, index + 1) {
                        Ok(rest) => {
                            assert(before + (seq![cache] + rest) =~= cache_dtypes@ + rest);
                        },
                        Err(_) => {},
                    }
                }
                hidden = next_hidden;
            },
        }
        index += 1;
    }
    assert(cache_dtypes@ + Seq::<Qwen3_5DecoderLayerCacheDtypes>::empty() =~= cache_dtypes@);
    Ok(cache_dtypes)
}


proof fn lemma_layer_cache_kind_follows_attention(
    hidden: MlxDtype,
    layer: DecoderLayerWeightDtypes,
    index: int,
    expert_layer_plans: Option<Seq<ExpertLayerDtypePlan>>,
)
    ensures
        layer_flow(hidden, layer, index, expert_layer_plans) matches Ok((cache, _)) ==> ((layer.attention is Linear)
            <==> (cache is LinearAttention)),
{
    reveal(layer_flow);
}

proof fn lemma_layers_flow_cache_per_layer(
    hidden: MlxDtype,
    layers: Seq<DecoderLayerWeightDtypes>,
    expert_layer_plans: Option<Seq<ExpertLayerDtypePlan>>,
    from: int,
)
    requires
        0 <= from <= layers.len(),
    ensures
        layers_flow_from(hidden, layers, expert_layer_plans, from) matches Ok(caches) ==> {
            &&& caches.len() == layers.len() - from
            &&& forall|i: int|
                0 <= i < caches.len() ==> ((layers[from + i].attention is Linear) <==> (
                #[trigger] caches[i] is LinearAttention))
        },
    decreases layers.len() - from,
{
    if from < layers.len() {
        lemma_layer_cache_kind_follows_attention(hidden, layers[from], from, expert_layer_plans);
        match layer_flow(hidden, layers[from], from, expert_layer_plans) {
            Err(_) => {},
            Ok((cache, next_hidden)) => {
                lemma_layers_flow_cache_per_layer(next_hidden, layers, expert_layer_plans, from + 1);
                match layers_flow_from(next_hidden, layers, expert_layer_plans, from + 1) {
                    Err(_) => {},
                    Ok(rest) => {
                        let caches = seq![cache] + rest;
                        assert forall|i: int| 0 <= i < caches.len() implies ((layers[from + i].attention is Linear)
                            <==> (#[trigger] caches[i] is LinearAttention)) by {
                            if i > 0 {
                                assert(caches[i] == rest[i - 1]);
                                assert(from + i == (from + 1) + (i - 1));
                            }
                        }
                    },
                }
            },
        }
    }
}

/// Cache-layout law: a successful derivation yields exactly one cache entry per decoder
/// layer, in layer order, and each entry has the layer's attention kind: convolution
/// state for a linear-attention layer, keys and values for a full-attention layer.
pub proof fn lemma_one_cache_entry_per_layer_of_its_attention_kind(
    embedding: AffineWeightDtypes,
    layers: Seq<DecoderLayerWeightDtypes>,
    expert_layer_plans: Option<Seq<ExpertLayerDtypePlan>>,
)
    ensures
        decoder_layer_cache_dtypes(embedding, layers, expert_layer_plans) matches Ok(caches) ==> {
            &&& caches.len() == layers.len()
            &&& forall|i: int|
                0 <= i < layers.len() ==> ((layers[i].attention is Linear) <==> (
                #[trigger] caches[i] is LinearAttention))
        },
{
    lemma_layers_flow_cache_per_layer(embedding_dtype(embedding), layers, expert_layer_plans, 0);
    if decoder_layer_cache_dtypes(embedding, layers, expert_layer_plans) is Ok {
        let caches = decoder_layer_cache_dtypes(embedding, layers, expert_layer_plans)->Ok_0;
        assert forall|i: int| 0 <= i < layers.len() implies ((layers[i].attention is Linear) <==> (
            #[trigger] caches[i] is LinearAttention)) by {
            assert(layers[0 + i] == layers[i]);
        }
    }
}

/// Precision law: promotion never loses precision. Float16 with bfloat16 (which
/// neither holds exactly) becomes float32; a 16-bit format with itself stays; any
/// non-floating operand is an unsupported decoder dtype.
pub proof fn lemma_promotion_widens_mixed_half_precision(left: MlxDtype, right: MlxDtype)
    ensures
        promoted_dtype(MlxDtype::Float16, MlxDtype::BFloat16) == Ok::<MlxDtype, InvalidInputReason>(
            MlxDtype::Float32,
        ),
        promoted_dtype(MlxDtype::Float16, MlxDtype::Float16) == Ok::<MlxDtype, InvalidInputReason>(
            MlxDtype::Float16,
        ),
        promoted_dtype(MlxDtype::BFloat16, MlxDtype::BFloat16) == Ok::<MlxDtype, InvalidInputReason>(
            MlxDtype::BFloat16,
        ),
        (is_floating(left) && is_floating(right) && left != right) ==> promoted_dtype(left, right) == Ok::<
            MlxDtype,
            InvalidInputReason,
        >(MlxDtype::Float32),
        (!is_floating(left) || !is_floating(right)) && left != MlxDtype::Float32 && right != MlxDtype::Float32
            ==> promoted_dtype(left, right) == Err::<MlxDtype, InvalidInputReason>(
            InvalidInputReason::UnsupportedDecoderDtype,
        ),
{
}

/// Promotion law: promotion is symmetric, float32 absorbs every dtype, promoting a
/// floating dtype with itself keeps it, and a successful promotion is always floating.
pub proof fn lemma_promotion_is_symmetric_and_absorbing(left: MlxDtype, right: MlxDtype)
    ensures
        promoted_dtype(left, right) == promoted_dtype(right, left),
        promoted_dtype(left, MlxDtype::Float32) == Ok::<MlxDtype, InvalidInputReason>(MlxDtype::Float32),
        is_floating(left) ==> promoted_dtype(left, left) == Ok::<MlxDtype, InvalidInputReason>(left),
        promoted_dtype(left, right) matches Ok(d) ==> is_floating(d),
        (is_floating(left) && is_floating(right)) ==> promoted_dtype(left, right) is Ok,
{
}

/// Promotion law: over floating dtypes promotion is associative, so the order in which
/// a chain of operations joins its operands does not change the resulting dtype.
pub proof fn lemma_promotion_is_associative(first: MlxDtype, second: MlxDtype, third: MlxDtype)
    requires
        is_floating(first),
        is_floating(second),
        is_floating(third),
    ensures
        promoted_after(promoted_dtype(first, second), third) == promoted_with(first, promoted_dtype(second, third)),
{
}

} // verus!
