use model_serving::quantization::{
    expected_quantized_module_names_for_layers, is_mlx_affine_quantization_bit_width_supported,
    is_mlx_affine_quantization_group_size_supported, OptiQQuantizationConfig,
    OptiQQuantizationOverride, OptiQQuantizationProfile, QuantizationConfigSource,
    Qwen3_5ConfigError, Qwen3_5FeedForwardArchitecture,
};

fn config(
    group_size: u32,
    bits: u32,
    mode: &str,
    overrides: Vec<(&str, u32, u32)>,
) -> OptiQQuantizationConfig {
    OptiQQuantizationConfig::new(
        group_size,
        bits,
        mode.to_string(),
        overrides
            .into_iter()
            .map(|(name, group_size, bits)| {
                (name.to_string(), OptiQQuantizationOverride { group_size, bits })
            })
            .collect(),
    )
}

struct OneFullAttentionLayerText;

impl QuantizationConfigSource for OneFullAttentionLayerText {
    fn spec_layer_count(&self) -> u32 {
        1
    }

    fn spec_decoder_layer_is_full_attention(&self, _decoder_layer_index: usize) -> bool {
        true
    }

    fn layer_count(&self) -> u32 {
        1
    }

    fn decoder_layer_is_full_attention(&self, _decoder_layer_index: usize) -> bool {
        true
    }
}

struct TwoLayerText;

impl QuantizationConfigSource for TwoLayerText {
    fn spec_layer_count(&self) -> u32 {
        2
    }

    fn spec_decoder_layer_is_full_attention(&self, decoder_layer_index: usize) -> bool {
        decoder_layer_index == 1
    }

    fn layer_count(&self) -> u32 {
        2
    }

    fn decoder_layer_is_full_attention(&self, decoder_layer_index: usize) -> bool {
        decoder_layer_index == 1
    }
}

#[test]
fn supported_bit_widths_are_exactly_the_mlx_affine_widths() {
    let supported: Vec<u32> = (0..=16)
        .filter(|bits| is_mlx_affine_quantization_bit_width_supported(*bits))
        .collect();
    assert_eq!(supported, vec![2, 3, 4, 5, 6, 8]);
}

#[test]
fn supported_group_sizes_are_exactly_the_mlx_affine_sizes() {
    let supported: Vec<u32> = (0..=256)
        .filter(|size| is_mlx_affine_quantization_group_size_supported(*size))
        .collect();
    assert_eq!(supported, vec![32, 64, 128]);
}

#[test]
fn unquantized_profile_is_bits_zero() {
    let profile = OptiQQuantizationProfile::unquantized();
    assert_eq!(profile, OptiQQuantizationProfile { bits: 0, group_size: 0 });
    assert!(profile.is_unquantized());
    assert!(!OptiQQuantizationProfile { bits: 4, group_size: 64 }.is_unquantized());
}

#[test]
fn defaults_are_read_back() {
    let quantization = config(64, 4, "affine", vec![]);
    assert_eq!(quantization.default_group_size(), 64);
    assert_eq!(quantization.default_bits(), 4);
}

#[test]
fn expected_module_names_cover_both_attention_kinds_and_dense_feed_forward() {
    let names = expected_quantized_module_names_for_layers(
        &[false, true],
        Qwen3_5FeedForwardArchitecture::Dense,
    );
    let expected: Vec<String> = [
        "language_model.model.layers.0.linear_attn.in_proj_qkv",
        "language_model.model.layers.0.linear_attn.in_proj_z",
        "language_model.model.layers.0.linear_attn.in_proj_b",
        "language_model.model.layers.0.linear_attn.in_proj_a",
        "language_model.model.layers.0.linear_attn.out_proj",
        "language_model.model.layers.0.mlp.gate_proj",
        "language_model.model.layers.0.mlp.up_proj",
        "language_model.model.layers.0.mlp.down_proj",
        "language_model.model.layers.1.self_attn.q_proj",
        "language_model.model.layers.1.self_attn.k_proj",
        "language_model.model.layers.1.self_attn.v_proj",
        "language_model.model.layers.1.self_attn.o_proj",
        "language_model.model.layers.1.mlp.gate_proj",
        "language_model.model.layers.1.mlp.up_proj",
        "language_model.model.layers.1.mlp.down_proj",
        "language_model.model.embed_tokens",
        "language_model.lm_head",
    ]
    .iter()
    .map(|name| name.to_string())
    .collect();
    assert_eq!(names, expected);
}

#[test]
fn expected_module_names_use_multi_digit_layer_indices() {
    let layers = vec![true; 12];
    let names = expected_quantized_module_names_for_layers(
        &layers,
        Qwen3_5FeedForwardArchitecture::MixtureOfExperts,
    );
    assert_eq!(names.len(), 12 * (4 + 8) + 2);
    assert_eq!(names[11 * 12], "language_model.model.layers.11.self_attn.q_proj");
    assert_eq!(names[10 * 12 + 11], "language_model.model.layers.10.mlp.shared_expert_gate");
    assert_eq!(names[4], "language_model.model.layers.0.mlp.gate");
    assert_eq!(names[5], "language_model.model.layers.0.mlp.switch_mlp.gate_proj");
}

#[test]
fn expected_module_names_without_layers_are_embedding_and_head() {
    let names = expected_quantized_module_names_for_layers(&[], Qwen3_5FeedForwardArchitecture::Dense);
    assert_eq!(
        names,
        vec!["language_model.model.embed_tokens".to_string(), "language_model.lm_head".to_string()]
    );
}

#[test]
fn validation_rejects_non_affine_mode_first() {
    let quantization = config(7, 7, "mxfp4", vec![]);
    assert_eq!(
        quantization.validate_for_layers(&[true], Qwen3_5FeedForwardArchitecture::Dense),
        Err(Qwen3_5ConfigError::UnexpectedValue {
            field_name: "quantization.mode",
            expected_value: "affine",
            actual_value: "mxfp4".to_string(),
        })
    );
}

#[test]
fn validation_rejects_unsupported_default_bits() {
    let quantization = config(7, 7, "affine", vec![]);
    assert_eq!(
        quantization.validate_for_layers(&[true], Qwen3_5FeedForwardArchitecture::Dense),
        Err(Qwen3_5ConfigError::InvalidConfigValueDynamic {
            description: "quantization.bits must be supported by MLX affine quantization, got 7"
                .to_string(),
        })
    );
}

#[test]
fn validation_rejects_unsupported_default_group_size() {
    let quantization = config(48, 4, "affine", vec![]);
    assert_eq!(
        quantization.validate_for_layers(&[true], Qwen3_5FeedForwardArchitecture::Dense),
        Err(Qwen3_5ConfigError::InvalidConfigValueDynamic {
            description:
                "quantization.group_size must be supported by MLX affine quantization, got 48"
                    .to_string(),
        })
    );
}

#[test]
fn validation_rejects_the_first_unsupported_override() {
    let quantization = config(
        64,
        4,
        "affine",
        vec![
            ("language_model.lm_head", 64, 8),
            ("language_model.model.layers.0.mlp.down_proj", 64, 1),
            ("language_model.model.layers.0.mlp.up_proj", 16, 4),
        ],
    );
    assert_eq!(
        quantization.validate_for_layers(&[true], Qwen3_5FeedForwardArchitecture::Dense),
        Err(Qwen3_5ConfigError::UnsupportedQuantizationOverrideBits {
            module_name: "language_model.model.layers.0.mlp.down_proj".to_string(),
            actual_value: 1,
        })
    );
    let group_size_first = config(
        64,
        4,
        "affine",
        vec![("language_model.model.layers.0.mlp.up_proj", 16, 4)],
    );
    assert_eq!(
        group_size_first.validate_for_layers(&[true], Qwen3_5FeedForwardArchitecture::Dense),
        Err(Qwen3_5ConfigError::InvalidConfigValueDynamic {
            description: "quantization module override 'language_model.model.layers.0.mlp.up_proj' group_size is not supported by MLX affine quantization: 16".to_string(),
        })
    );
}

#[test]
fn validation_resolves_overrides_and_defaults() {
    let quantization = config(
        64,
        4,
        "affine",
        vec![
            ("language_model.lm_head", 128, 8),
            ("language_model.model.layers.0.self_attn.k_proj", 64, 2),
            ("language_model.model.layers.0.self_attn.q_proj", 32, 6),
        ],
    );
    let profiles = quantization
        .validate_for_layers(&[true], Qwen3_5FeedForwardArchitecture::Dense)
        .expect("supported config");
    assert_eq!(profiles.len(), 4 + 3 + 2);
    assert_eq!(
        profiles[0],
        (
            "language_model.model.layers.0.self_attn.q_proj".to_string(),
            OptiQQuantizationProfile { bits: 6, group_size: 32 }
        )
    );
    assert_eq!(
        profiles[1],
        (
            "language_model.model.layers.0.self_attn.k_proj".to_string(),
            OptiQQuantizationProfile { bits: 2, group_size: 64 }
        )
    );
    assert_eq!(
        profiles[8],
        ("language_model.lm_head".to_string(), OptiQQuantizationProfile { bits: 8, group_size: 128 })
    );
}

#[test]
fn validation_through_a_config_source_reads_its_layers() {
    let quantization = config(64, 4, "affine", vec![]);
    let through_source = quantization.validate(&TwoLayerText, Qwen3_5FeedForwardArchitecture::Dense);
    let direct =
        quantization.validate_for_layers(&[false, true], Qwen3_5FeedForwardArchitecture::Dense);
    assert_eq!(through_source, direct);
    assert_eq!(through_source.expect("supported config").len(), 17);
}

#[test]
fn mtp_profiles_are_the_mtp_overrides_in_order() {
    let quantization = config(
        64,
        4,
        "affine",
        vec![
            ("language_model.lm_head", 64, 8),
            ("language_model.mtp.fc", 128, 6),
            ("language_model.mtp.layers.0.mlp.up_proj", 32, 8),
            ("model.mtp.fc", 128, 6),
        ],
    );
    assert_eq!(
        quantization.mtp_quantized_module_profiles(),
        vec![
            ("language_model.mtp.fc".to_string(), OptiQQuantizationProfile { bits: 6, group_size: 128 }),
            (
                "language_model.mtp.layers.0.mlp.up_proj".to_string(),
                OptiQQuantizationProfile { bits: 8, group_size: 32 }
            ),
        ]
    );
    assert!(config(64, 4, "affine", vec![]).mtp_quantized_module_profiles().is_empty());
}

#[test]
fn mode_and_overrides_are_read_back_in_order() {
    let quantization = config(64, 4, "affine", vec![("a", 64, 2), ("b", 32, 8)]);
    assert_eq!(quantization.mode(), "affine");
    assert_eq!(
        quantization.module_overrides(),
        &vec![
            ("a".to_string(), OptiQQuantizationOverride { group_size: 64, bits: 2 }),
            ("b".to_string(), OptiQQuantizationOverride { group_size: 32, bits: 8 }),
        ]
    );
}

#[test]
fn validation_of_a_one_layer_source_resolves_all_nine_modules() {
    let quantization = config(
        64,
        6,
        "affine",
        vec![("language_model.model.layers.0.self_attn.q_proj", 32, 4)],
    );
    let profiles = quantization
        .validate(&OneFullAttentionLayerText, Qwen3_5FeedForwardArchitecture::Dense)
        .expect("supported config");
    let default_profile = OptiQQuantizationProfile { bits: 6, group_size: 64 };
    let expected: Vec<(String, OptiQQuantizationProfile)> = vec![
        (
            "language_model.model.layers.0.self_attn.q_proj".to_string(),
            OptiQQuantizationProfile { bits: 4, group_size: 32 },
        ),
        ("language_model.model.layers.0.self_attn.k_proj".to_string(), default_profile),
        ("language_model.model.layers.0.self_attn.v_proj".to_string(), default_profile),
        ("language_model.model.layers.0.self_attn.o_proj".to_string(), default_profile),
        ("language_model.model.layers.0.mlp.gate_proj".to_string(), default_profile),
        ("language_model.model.layers.0.mlp.up_proj".to_string(), default_profile),
        ("language_model.model.layers.0.mlp.down_proj".to_string(), default_profile),
        ("language_model.model.embed_tokens".to_string(), default_profile),
        ("language_model.lm_head".to_string(), default_profile),
    ];
    assert_eq!(profiles, expected);
}

#[test]
fn validation_ignores_overrides_of_modules_the_source_lacks() {
    let quantization = config(
        64,
        4,
        "affine",
        vec![("language_model.model.layers.5.self_attn.q_proj", 32, 8)],
    );
    let profiles = quantization
        .validate(&OneFullAttentionLayerText, Qwen3_5FeedForwardArchitecture::Dense)
        .expect("supported config");
    assert_eq!(profiles.len(), 9);
    assert!(profiles
        .iter()
        .all(|(_, profile)| *profile == OptiQQuantizationProfile { bits: 4, group_size: 64 }));
}
