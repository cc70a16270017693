//! Validation of bound weights against their config-derived tensor profiles.

use vstd::prelude::*;

use crate::error::{InvalidTensorProblem, Qwen3_5ExecutionError};
use crate::model::dtype_flow::MlxDtype;
use crate::model::tensor_contracts::TensorLayout;
use crate::quantization::{OptiQQuantizationProfile, supported_bit_width};
use crate::text::{has_suffix, str_has_suffix};

verus! {

/// Element type a tensor profile requires.
#[derive(Clone, Copy, Debug, PartialEq, Eq, Structural)]
pub enum TensorDtype {
    /// Any floating type, used for affine scales and biases.
    AffineQuantizationFloat,
    /// Any floating type, used for model activations and weights.
    ModelFloat,
    BFloat16,
    Float32,
    UInt32,
}

/// Config-derived expectation for one named tensor.
#[derive(Clone, Debug, PartialEq, Eq)]
pub struct TensorProfile {
    pub name: String,
    pub shape: Vec<usize>,
    pub dtype: TensorDtype,
}

pub open spec fn dtype_matches_profile(required: TensorDtype, actual: MlxDtype) -> bool {
    match required {
        TensorDtype::AffineQuantizationFloat | TensorDtype::ModelFloat => actual == MlxDtype::Float16 || actual
            == MlxDtype::BFloat16 || actual == MlxDtype::Float32,
        TensorDtype::BFloat16 => actual == MlxDtype::BFloat16,
        TensorDtype::Float32 => actual == MlxDtype::Float32,
        TensorDtype::UInt32 => actual == MlxDtype::UInt32,
    }
}

/// Outcome of validating a bound tensor against its profile.
pub open spec fn bound_tensor_outcome(profile: TensorProfile, bound: TensorLayout) -> Result<(), Qwen3_5ExecutionError> {
    if !dtype_matches_profile(profile.dtype, bound.dtype) {
        Err(
            Qwen3_5ExecutionError::InvalidTensor {
                tensor_name: profile.name,
                problem: InvalidTensorProblem::DtypeDiffersFromProfile,
            },
        )
    } else if exists|i: int| 0 <= i < profile.shape@.len() && profile.shape@[i] > i32::MAX {
        Err(
            Qwen3_5ExecutionError::InvalidTensor {
                tensor_name: profile.name,
                problem: InvalidTensorProblem::DimensionExceedsMlxIntegerRange,
            },
        )
    } else if bound.shape@ != profile.shape@.map_values(|dimension: usize| dimension as i32) {
        Err(
            Qwen3_5ExecutionError::InvalidTensor {
                tensor_name: profile.name,
                problem: InvalidTensorProblem::ShapeDiffersFromProfile,
            },
        )
    } else {
        Ok(())
    }
}

/// Validates one bound MLX tensor against its config-derived tensor profile.
pub fn validate_bound_tensor(tensor_profile: &TensorProfile, bound_tensor: &TensorLayout) -> (result: Result<
    (),
    Qwen3_5ExecutionError,
>)
    ensures
        result == bound_tensor_outcome(*tensor_profile, *bound_tensor),
{
    let dtype_matches = match tensor_profile.dtype {
        TensorDtype::AffineQuantizationFloat | TensorDtype::ModelFloat => match bound_tensor.dtype {
            MlxDtype::Float16 | MlxDtype::BFloat16 | MlxDtype::Float32 => true,
            _ => false,
        },
        TensorDtype::BFloat16 => bound_tensor.dtype == MlxDtype::BFloat16,
        TensorDtype::Float32 => bound_tensor.dtype == MlxDtype::Float32,
        TensorDtype::UInt32 => bound_tensor.dtype == MlxDtype::UInt32,
    };
    if !dtype_matches {
        return Err(
            Qwen3_5ExecutionError::InvalidTensor {
                tensor_name: tensor_profile.name.clone(),
                problem: InvalidTensorProblem::DtypeDiffersFromProfile,
            },
        );
    }
    let mut expected_shape: Vec<i32> = Vec::new();
    let mut index: usize = 0;
    while index < tensor_profile.shape.len()
        invariant
            index <= tensor_profile.shape@.len(),
            dtype_matches_profile(tensor_profile.dtype, bound_tensor.dtype),
            expected_shape@ == tensor_profile.shape@.subrange(0, index as int).map_values(
                |dimension: usize| dimension as i32,
            ),
            forall|i: int| 0 <= i < index ==> tensor_profile.shape@[i] <= i32::MAX,
        decreases tensor_profile.shape.len() - index,
    {
        let dimension = tensor_profile.shape[index];
        if dimension > i32::MAX as usize {
            return Err(
                Qwen3_5ExecutionError::InvalidTensor {
                    tensor_name: tensor_profile.name.clone(),
                    problem: InvalidTensorProblem::DimensionExceedsMlxIntegerRange,
                },
            );
        }
        expected_shape.push(dimension as i32);
        assert(expected_shape@ =~= tensor_profile.shape@.subrange(0, index + 1).map_values(
            |dimension: usize| dimension as i32,
        ));
        index += 1;
    }
    assert(tensor_profile.shape@.subrange(0, index as int) =~= tensor_profile.shape@);
    let mut same = bound_tensor.shape.len() == expected_shape.len();
    if same {
        let mut position: usize = 0;
        while position < expected_shape.len()
            invariant
                position <= expected_shape@.len(),
                bound_tensor.shape@.len() == expected_shape@.len(),
                same == forall|j: int| 0 <= j < position ==> bound_tensor.shape@[j] == expected_shape@[j],
            decreases expected_shape.len() - position,
        {
            if bound_tensor.shape[position] != expected_shape[position] {
                same = false;
            }
            position += 1;
        }
        if same {
            assert(bound_tensor.shape@ =~= expected_shape@);
        }
    }
    if !same {
        return Err(
            Qwen3_5ExecutionError::InvalidTensor {
                tensor_name: tensor_profile.name.clone(),
                problem: InvalidTensorProblem::ShapeDiffersFromProfile,
            },
        );
    }
    Ok(())
}

/// Bound-tensor law: a tensor is accepted only with the element type its profile names
/// (exactly `BFloat16`, `Float32` or `UInt32` when the profile names one, and one of the
/// floating types `Float16`, `BFloat16`, `Float32` for a floating profile) and with the
/// profile's shape, dimension by dimension. A wrong element type is always reported as
/// such, for the profile's tensor name, before the shape is looked at; and every tensor
/// with the named element type and the profile's shape is accepted.
pub proof fn lemma_bound_tensor_has_the_profile_dtype_and_shape(profile: TensorProfile, bound: TensorLayout)
    ensures
        ({
            let outcome = bound_tensor_outcome(profile, bound);
            let floating = bound.dtype == MlxDtype::Float16 || bound.dtype == MlxDtype::BFloat16 || bound.dtype
                == MlxDtype::Float32;
            let dtype_error = Err::<(), Qwen3_5ExecutionError>(
                Qwen3_5ExecutionError::InvalidTensor {
                    tensor_name: profile.name,
                    problem: InvalidTensorProblem::DtypeDiffersFromProfile,
                },
            );
            &&& (profile.dtype == TensorDtype::Float32 && bound.dtype != MlxDtype::Float32) ==> outcome
                == dtype_error
            &&& (profile.dtype == TensorDtype::BFloat16 && bound.dtype != MlxDtype::BFloat16) ==> outcome
                == dtype_error
            &&& (profile.dtype == TensorDtype::UInt32 && bound.dtype != MlxDtype::UInt32) ==> outcome
                == dtype_error
            &&& ((profile.dtype == TensorDtype::ModelFloat || profile.dtype == TensorDtype::AffineQuantizationFloat)
                && !floating) ==> outcome == dtype_error
            &&& outcome is Ok ==> {
                &&& profile.dtype == TensorDtype::Float32 ==> bound.dtype == MlxDtype::Float32
                &&& profile.dtype == TensorDtype::BFloat16 ==> bound.dtype == MlxDtype::BFloat16
                &&& profile.dtype == TensorDtype::UInt32 ==> bound.dtype == MlxDtype::UInt32
                &&& (profile.dtype == TensorDtype::ModelFloat || profile.dtype
                    == TensorDtype::AffineQuantizationFloat) ==> floating
                &&& bound.shape@.len() == profile.shape@.len()
                &&& forall|i: int| 0 <= i < bound.shape@.len() ==> #[trigger] bound.shape@[i] == profile.shape@[i]
            }
            &&& ({
                &&& profile.dtype == TensorDtype::Float32 ==> bound.dtype == MlxDtype::Float32
                &&& profile.dtype == TensorDtype::BFloat16 ==> bound.dtype == MlxDtype::BFloat16
                &&& profile.dtype == TensorDtype::UInt32 ==> bound.dtype == MlxDtype::UInt32
                &&& (profile.dtype == TensorDtype::ModelFloat || profile.dtype
                    == TensorDtype::AffineQuantizationFloat) ==> floating
                &&& bound.shape@.len() == profile.shape@.len()
                &&& forall|i: int| 0 <= i < bound.shape@.len() ==> #[trigger] bound.shape@[i] == profile.shape@[i]
            }) ==> outcome == Ok::<(), Qwen3_5ExecutionError>(())
            &&& (outcome is Err && !(outcome == dtype_error)) ==> (outcome matches Err(
                Qwen3_5ExecutionError::InvalidTensor { tensor_name, problem },
            ) && tensor_name == profile.name && (problem == InvalidTensorProblem::ShapeDiffersFromProfile
                || problem == InvalidTensorProblem::DimensionExceedsMlxIntegerRange))
        }),
{
    let outcome = bound_tensor_outcome(profile, bound);
    if bound.shape@.len() == profile.shape@.len() && (forall|i: int|
        0 <= i < bound.shape@.len() ==> #[trigger] bound.shape@[i] == profile.shape@[i]) {
        assert forall|i: int| 0 <= i < profile.shape@.len() implies profile.shape@[i] <= i32::MAX by {
            assert(bound.shape@[i] == profile.shape@[i]);
        }
        assert(bound.shape@ =~= profile.shape@.map_values(|dimension: usize| dimension as i32));
    }
    if outcome is Ok {
        let expected = profile.shape@.map_values(|dimension: usize| dimension as i32);
        assert(bound.shape@ == expected);
        assert forall|i: int| 0 <= i < bound.shape@.len() implies #[trigger] bound.shape@[i] == profile.shape@[i] by {
            assert(profile.shape@[i] <= i32::MAX);
            assert(bound.shape@[i] == expected[i]);
        }
    }
}

/// Validates that the scales tensor of a quantized module uses an MLX-supported bit
/// width. `module_quantization_profile` is the profile configured for the module that
/// owns the tensor; tensors other than `<module>.scales` and unquantized modules pass.
pub fn validate_quantized_tensor_bits(tensor_name: &str, module_quantization_profile: OptiQQuantizationProfile) -> (result: Result<
    (),
    Qwen3_5ExecutionError,
>)
    ensures
        (has_suffix(tensor_name@, ".scales"@) && module_quantization_profile.bits != 0 && !supported_bit_width(
            module_quantization_profile.bits,
        )) ==> (result matches Err(Qwen3_5ExecutionError::InvalidTensor { tensor_name: name, problem })
            && name@ == tensor_name@ && problem == InvalidTensorProblem::UnsupportedQuantizedBitWidth),
        !(has_suffix(tensor_name@, ".scales"@) && module_quantization_profile.bits != 0 && !supported_bit_width(
            module_quantization_profile.bits,
        )) ==> result == Ok::<(), Qwen3_5ExecutionError>(()),
{
    if !str_has_suffix(tensor_name, ".scales") {
        return Ok(());
    }
    if module_quantization_profile.is_unquantized() {
        return Ok(());
    }
    let bits = module_quantization_profile.bits;
    if !(bits == 2 || bits == 3 || bits == 4 || bits == 5 || bits == 6 || bits == 8) {
        return Err(
            Qwen3_5ExecutionError::InvalidTensor {
                tensor_name: tensor_name.to_owned(),
                problem: InvalidTensorProblem::UnsupportedQuantizedBitWidth,
            },
        );
    }
    Ok(())
}

} // verus!
