use model_serving::error::{InvalidTensorProblem, Qwen3_5ExecutionError};
use model_serving::model::dtype_flow::MlxDtype;
use model_serving::model::tensor_contracts::TensorLayout;
use model_serving::model::weights_validation::{
    validate_bound_tensor, validate_quantized_tensor_bits, TensorDtype, TensorProfile,
};
use model_serving::quantization::OptiQQuantizationProfile;

fn profile(shape: &[usize], dtype: TensorDtype) -> TensorProfile {
    TensorProfile { name: "layers.0.mlp.up_proj.weight".to_string(), shape: shape.to_vec(), dtype }
}

fn invalid(problem: InvalidTensorProblem) -> Qwen3_5ExecutionError {
    Qwen3_5ExecutionError::InvalidTensor {
        tensor_name: "layers.0.mlp.up_proj.weight".to_string(),
        problem,
    }
}

#[test]
fn bound_tensor_matching_its_profile_is_accepted() {
    let bound = TensorLayout { shape: vec![512, 64], dtype: MlxDtype::UInt32 };
    assert_eq!(validate_bound_tensor(&profile(&[512, 64], TensorDtype::UInt32), &bound), Ok(()));
    let floating = TensorLayout { shape: vec![512], dtype: MlxDtype::Float16 };
    assert_eq!(validate_bound_tensor(&profile(&[512], TensorDtype::ModelFloat), &floating), Ok(()));
    assert_eq!(
        validate_bound_tensor(&profile(&[512], TensorDtype::AffineQuantizationFloat), &floating),
        Ok(())
    );
}

#[test]
fn bound_tensor_with_another_dtype_is_rejected_first() {
    let bound = TensorLayout { shape: vec![1], dtype: MlxDtype::Float16 };
    assert_eq!(
        validate_bound_tensor(&profile(&[512], TensorDtype::BFloat16), &bound),
        Err(invalid(InvalidTensorProblem::DtypeDiffersFromProfile))
    );
    let integer = TensorLayout { shape: vec![512], dtype: MlxDtype::Int32 };
    assert_eq!(
        validate_bound_tensor(&profile(&[512], TensorDtype::ModelFloat), &integer),
        Err(invalid(InvalidTensorProblem::DtypeDiffersFromProfile))
    );
}

#[test]
fn profile_dimensions_must_fit_mlx_integers() {
    let bound = TensorLayout { shape: vec![1], dtype: MlxDtype::Float32 };
    assert_eq!(
        validate_bound_tensor(&profile(&[i32::MAX as usize + 1], TensorDtype::Float32), &bound),
        Err(invalid(InvalidTensorProblem::DimensionExceedsMlxIntegerRange))
    );
}

#[test]
fn bound_tensor_with_another_shape_is_rejected() {
    let bound = TensorLayout { shape: vec![512, 32], dtype: MlxDtype::Float32 };
    assert_eq!(
        validate_bound_tensor(&profile(&[512, 64], TensorDtype::Float32), &bound),
        Err(invalid(InvalidTensorProblem::ShapeDiffersFromProfile))
    );
    let rank_three = TensorLayout { shape: vec![512, 64, 1], dtype: MlxDtype::Float32 };
    assert_eq!(
        validate_bound_tensor(&profile(&[512, 64], TensorDtype::Float32), &rank_three),
        Err(invalid(InvalidTensorProblem::ShapeDiffersFromProfile))
    );
}

#[test]
fn quantized_scales_need_a_supported_bit_width() {
    let seven_bits = OptiQQuantizationProfile { bits: 7, group_size: 64 };
    assert_eq!(
        validate_quantized_tensor_bits("model.layers.0.mlp.up_proj.scales", seven_bits),
        Err(Qwen3_5ExecutionError::InvalidTensor {
            tensor_name: "model.layers.0.mlp.up_proj.scales".to_string(),
            problem: InvalidTensorProblem::UnsupportedQuantizedBitWidth,
        })
    );
    assert_eq!(validate_quantized_tensor_bits("model.layers.0.mlp.up_proj.weight", seven_bits), Ok(()));
    assert_eq!(
        validate_quantized_tensor_bits(
            "model.layers.0.mlp.up_proj.scales",
            OptiQQuantizationProfile::unquantized()
        ),
        Ok(())
    );
    assert_eq!(
        validate_quantized_tensor_bits(
            "model.layers.0.mlp.up_proj.scales",
            OptiQQuantizationProfile { bits: 8, group_size: 64 }
        ),
        Ok(())
    );
}

#[test]
fn tensor_problems_describe_themselves() {
    assert_eq!(
        InvalidTensorProblem::ShapeDiffersFromProfile.description(),
        "tensor shape differs from the config-derived profile"
    );
}
