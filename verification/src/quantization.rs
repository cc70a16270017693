//! OptiQ affine quantization config: validation and per-module profile resolution.

use vstd::prelude::*;
use vstd::string::StringExecFns;

use crate::text::{decimal_digits, decimal_string, has_prefix, has_suffix, str_has_prefix, str_has_suffix};

verus! {

/// Whether MLX supports the affine quantization bit width.
pub open spec fn supported_bit_width(bit_width: u32) -> bool {
    bit_width == 2 || bit_width == 3 || bit_width == 4 || bit_width == 5 || bit_width == 6
        || bit_width == 8
}

/// Whether MLX supports the affine quantization group size.
pub open spec fn supported_group_size(group_size: u32) -> bool {
    group_size == 32 || group_size == 64 || group_size == 128
}

/// Returns whether MLX supports the affine quantization bit width.
pub fn is_mlx_affine_quantization_bit_width_supported(bit_width: u32) -> (supported: bool)
    ensures
        supported == supported_bit_width(bit_width),
{
    bit_width == 2 || bit_width == 3 || bit_width == 4 || bit_width == 5 || bit_width == 6
        || bit_width == 8
}

/// Returns whether MLX supports the affine quantization group size.
pub fn is_mlx_affine_quantization_group_size_supported(group_size: u32) -> (supported: bool)
    ensures
        supported == supported_group_size(group_size),
{
    group_size == 32 || group_size == 64 || group_size == 128
}

/// Per-module quantization profile carrying both bit width and group size.
///
/// A profile with `bits = 0` indicates an unquantized module stored as bfloat16
/// (no scales/biases tensors on disk).
#[derive(Clone, Copy, Debug, PartialEq, Eq, Structural)]
pub struct OptiQQuantizationProfile {
    pub bits: u32,
    pub group_size: u32,
}

impl OptiQQuantizationProfile {
    /// Returns true when the module is stored as plain bfloat16 (no quantization).
    pub fn is_unquantized(&self) -> (unquantized: bool)
        ensures
            unquantized == (self.bits == 0),
    {
        self.bits == 0
    }

    /// Creates an unquantized profile (bits=0, group_size=0) indicating bfloat16 storage.
    pub fn unquantized() -> (profile: Self)
        ensures
            profile == (OptiQQuantizationProfile { bits: 0, group_size: 0 }),
    {
        OptiQQuantizationProfile { bits: 0, group_size: 0 }
    }
}

/// One module's explicit override of the default quantization.
#[derive(Clone, Copy, Debug, PartialEq, Eq, Structural)]
pub struct OptiQQuantizationOverride {
    pub group_size: u32,
    pub bits: u32,
}

/// Feed-forward family of the decoder layers.
#[derive(Clone, Copy, Debug, PartialEq, Eq, Structural)]
pub enum Qwen3_5FeedForwardArchitecture {
    Dense,
    MixtureOfExperts,
}

/// Text config fields needed by the quantization validator.
///
/// An implementation reports a fixed decoder layout: each method returns what its
/// `spec_` counterpart says.
pub trait QuantizationConfigSource {
    /// The number of decoder layers.
    spec fn spec_layer_count(&self) -> u32;

    /// Whether decoder layer `decoder_layer_index` uses full attention.
    spec fn spec_decoder_layer_is_full_attention(&self, decoder_layer_index: usize) -> bool;

    fn layer_count(&self) -> (count: u32)
        ensures
            count == self.spec_layer_count(),
    ;

    fn decoder_layer_is_full_attention(&self, decoder_layer_index: usize) -> (full_attention: bool)
        ensures
            full_attention == self.spec_decoder_layer_is_full_attention(decoder_layer_index),
    ;
}

/// The decoder layout a config source reports, layer by layer.
pub open spec fn source_layer_layout<S: QuantizationConfigSource>(config_source: S) -> Seq<bool> {
    Seq::new(
        config_source.spec_layer_count() as nat,
        |index: int| config_source.spec_decoder_layer_is_full_attention(index as usize),
    )
}

/// Rejected quantization config.
#[allow(inconsistent_fields)]
#[derive(Clone, Debug, PartialEq, Eq)]
pub enum Qwen3_5ConfigError {
    /// A config field that must hold one exact value holds another (`quantization.mode`
    /// must be `affine`).
    UnexpectedValue { field_name: &'static str, expected_value: &'static str, actual_value: String },
    /// A default bit width or group size, or an override's group size, that MLX affine
    /// quantization does not support, with a description naming the value.
    InvalidConfigValueDynamic { description: String },
    /// A module override's bit width is not supported by MLX affine quantization.
    UnsupportedQuantizationOverrideBits { module_name: String, actual_value: u32 },
}

/// The two identical quantization documents embedded in the Qwen3.5 config.
///
/// Modules not listed in the overrides use the default `(bits, group_size)`.
///
/// The overrides are kept as a list sorted by module name, as the document's map holds
/// them.
#[derive(Clone, Debug)]
pub struct OptiQQuantizationConfig {
    group_size: u32,
    bits: u32,
    mode: String,
    module_overrides: Vec<(String, OptiQQuantizationOverride)>,
}

/// Mathematical content of an [`OptiQQuantizationConfig`]; the overrides keep their order.
pub struct OptiQQuantizationConfigView {
    pub group_size: u32,
    pub bits: u32,
    pub mode: String,
    pub module_overrides: Seq<(String, OptiQQuantizationOverride)>,
}

impl View for OptiQQuantizationConfig {
    type V = OptiQQuantizationConfigView;

    closed spec fn view(&self) -> OptiQQuantizationConfigView {
        OptiQQuantizationConfigView {
            group_size: self.group_size,
            bits: self.bits,
            mode: self.mode,
            module_overrides: self.module_overrides@,
        }
    }
}

/// Whether text `a` sorts strictly before text `b`, comparing characters by code point
/// (the order of `String` keys in a sorted map).
pub open spec fn text_precedes(a: Seq<char>, b: Seq<char>) -> bool
    decreases a.len(),
{
    if a.len() == 0 {
        b.len() > 0
    } else if b.len() == 0 {
        false
    } else if a[0] != b[0] {
        (a[0] as u32) < (b[0] as u32)
    } else {
        text_precedes(a.drop_first(), b.drop_first())
    }
}

/// The override names are in strictly ascending order, so no module name occurs twice.
pub open spec fn override_names_ascending(overrides: Seq<(String, OptiQQuantizationOverride)>) -> bool {
    forall|i: int, j: int| 0 <= i < j < overrides.len() ==> text_precedes(overrides[i].0@, overrides[j].0@)
}

/// The first override for `name` at index `from` or later.
pub open spec fn override_from(
    overrides: Seq<(String, OptiQQuantizationOverride)>,
    name: Seq<char>,
    from: int,
) -> Option<OptiQQuantizationOverride>
    decreases overrides.len() - from,
{
    if from < 0 || from >= overrides.len() {
        None
    } else if overrides[from].0@ == name {
        Some(overrides[from].1)
    } else {
        override_from(overrides, name, from + 1)
    }
}

/// The profile a module resolves to: its (first) override, else the default.
pub open spec fn resolved_profile(config: OptiQQuantizationConfigView, name: Seq<char>) -> OptiQQuantizationProfile {
    match override_from(config.module_overrides, name, 0) {
        Some(o) => OptiQQuantizationProfile { bits: o.bits, group_size: o.group_size },
        None => OptiQQuantizationProfile { bits: config.bits, group_size: config.group_size },
    }
}

/// Index of the first unsupported override at index `from` or later.
pub open spec fn first_invalid_override_from(
    overrides: Seq<(String, OptiQQuantizationOverride)>,
    from: int,
) -> Option<int>
    decreases overrides.len() - from,
{
    if from < 0 || from >= overrides.len() {
        None
    } else if !supported_bit_width(overrides[from].1.bits) || !supported_group_size(overrides[from].1.group_size) {
        Some(from)
    } else {
        first_invalid_override_from(overrides, from + 1)
    }
}

/// Description of an unsupported default bit width.
pub open spec fn unsupported_bits_text(bits: u32) -> Seq<char> {
    "quantization.bits must be supported by MLX affine quantization, got "@ + decimal_digits(bits as nat)
}

/// Description of an unsupported default group size.
pub open spec fn unsupported_group_size_text(group_size: u32) -> Seq<char> {
    "quantization.group_size must be supported by MLX affine quantization, got "@ + decimal_digits(
        group_size as nat,
    )
}

/// Description of an override's unsupported group size.
pub open spec fn unsupported_override_group_size_text(module_name: Seq<char>, group_size: u32) -> Seq<char> {
    "quantization module override '"@ + module_name
        + "' group_size is not supported by MLX affine quantization: "@ + decimal_digits(group_size as nat)
}

/// Whether validation rejects the config, whatever the layers.
pub open spec fn config_is_rejected(config: OptiQQuantizationConfigView) -> bool {
    config.mode@ != "affine"@ || !supported_bit_width(config.bits) || !supported_group_size(config.group_size)
        || first_invalid_override_from(config.module_overrides, 0) is Some
}

/// The error of a rejected config: the mode first, then the default bits, the default
/// group size, and the first unsupported override (its bits before its group size).
pub open spec fn config_error_is(error: Qwen3_5ConfigError, config: OptiQQuantizationConfigView) -> bool {
    if config.mode@ != "affine"@ {
        error == Qwen3_5ConfigError::UnexpectedValue {
            field_name: "quantization.mode",
            expected_value: "affine",
            actual_value: config.mode,
        }
    } else if !supported_bit_width(config.bits) {
        error matches Qwen3_5ConfigError::InvalidConfigValueDynamic { description }
            && description@ == unsupported_bits_text(config.bits)
    } else if !supported_group_size(config.group_size) {
        error matches Qwen3_5ConfigError::InvalidConfigValueDynamic { description }
            && description@ == unsupported_group_size_text(config.group_size)
    } else {
        match first_invalid_override_from(config.module_overrides, 0) {
            Some(index) => {
                let (module_name, module_override) = config.module_overrides[index];
                if !supported_bit_width(module_override.bits) {
                    error == Qwen3_5ConfigError::UnsupportedQuantizationOverrideBits {
                        module_name,
                        actual_value: module_override.bits,
                    }
                } else {
                    error matches Qwen3_5ConfigError::InvalidConfigValueDynamic { description }
                        && description@ == unsupported_override_group_size_text(
                        module_name@,
                        module_override.group_size,
                    )
                }
            },
            None => false,
        }
    }
}

/// `language_model.model.layers.{index}`.
pub open spec fn layer_prefix(index: nat) -> Seq<char> {
    "language_model.model.layers."@ + decimal_digits(index)
}

/// Attention projection suffixes of one decoder layer.
pub open spec fn attention_module_suffixes(is_full_attention: bool) -> Seq<Seq<char>> {
    if is_full_attention {
        seq![".self_attn.q_proj"@, ".self_attn.k_proj"@, ".self_attn.v_proj"@, ".self_attn.o_proj"@]
    } else {
        seq![
            ".linear_attn.in_proj_qkv"@,
            ".linear_attn.in_proj_z"@,
            ".linear_attn.in_proj_b"@,
            ".linear_attn.in_proj_a"@,
            ".linear_attn.out_proj"@,
        ]
    }
}

/// Feed-forward module suffixes of one decoder layer.
pub open spec fn feed_forward_module_suffixes(architecture: Qwen3_5FeedForwardArchitecture) -> Seq<Seq<char>> {
    match architecture {
        Qwen3_5FeedForwardArchitecture::Dense => seq![".mlp.gate_proj"@, ".mlp.up_proj"@, ".mlp.down_proj"@],
        Qwen3_5FeedForwardArchitecture::MixtureOfExperts => seq![
            ".mlp.gate"@,
            ".mlp.switch_mlp.gate_proj"@,
            ".mlp.switch_mlp.up_proj"@,
            ".mlp.switch_mlp.down_proj"@,
            ".mlp.shared_expert.gate_proj"@,
            ".mlp.shared_expert.up_proj"@,
            ".mlp.shared_expert.down_proj"@,
            ".mlp.shared_expert_gate"@,
        ],
    }
}

/// Quantized module names of decoder layer `index`.
pub open spec fn layer_module_names(
    index: nat,
    is_full_attention: bool,
    architecture: Qwen3_5FeedForwardArchitecture,
) -> Seq<Seq<char>> {
    (attention_module_suffixes(is_full_attention) + feed_forward_module_suffixes(architecture)).map_values(
        |suffix: Seq<char>| layer_prefix(index) + suffix,
    )
}

/// Quantized module names of the first `count` decoder layers, layer by layer.
pub open spec fn decoder_module_names(
    layer_is_full_attention: Seq<bool>,
    count: nat,
    architecture: Qwen3_5FeedForwardArchitecture,
) -> Seq<Seq<char>>
    decreases count,
{
    if count == 0 {
        Seq::empty()
    } else {
        decoder_module_names(layer_is_full_attention, (count - 1) as nat, architecture) + layer_module_names(
            (count - 1) as nat,
            layer_is_full_attention[count - 1],
            architecture,
        )
    }
}

/// Every quantized module of the model, in layer order, then the embedding and the head.
pub open spec fn expected_quantized_module_names(
    layer_is_full_attention: Seq<bool>,
    architecture: Qwen3_5FeedForwardArchitecture,
) -> Seq<Seq<char>> {
    decoder_module_names(layer_is_full_attention, layer_is_full_attention.len(), architecture) + seq![
        "language_model.model.embed_tokens"@,
        "language_model.lm_head"@,
    ]
}

/// The views of a resolved profile list.
pub open spec fn profile_views(profiles: Seq<(String, OptiQQuantizationProfile)>) -> Seq<(Seq<char>, OptiQQuantizationProfile)> {
    profiles.map_values(|entry: (String, OptiQQuantizationProfile)| (entry.0@, entry.1))
}

/// What validation returns: the first config error, or every expected module with its
/// resolved profile.
pub open spec fn validation_result_is(
    result: Result<Vec<(String, OptiQQuantizationProfile)>, Qwen3_5ConfigError>,
    config: OptiQQuantizationConfigView,
    layer_is_full_attention: Seq<bool>,
    architecture: Qwen3_5FeedForwardArchitecture,
) -> bool {
    if config_is_rejected(config) {
        result matches Err(error) && config_error_is(error, config)
    } else {
        result matches Ok(profiles) && profile_views(profiles@) == expected_quantized_module_names(
            layer_is_full_attention,
            architecture,
        ).map_values(|name: Seq<char>| (name, resolved_profile(config, name)))
    }
}


proof fn lemma_text_precedes_is_irreflexive(text: Seq<char>)
    ensures
        !text_precedes(text, text),
    decreases text.len(),
{
    if text.len() > 0 {
        lemma_text_precedes_is_irreflexive(text.drop_first());
    }
}

proof fn lemma_override_found(
    overrides: Seq<(String, OptiQQuantizationOverride)>,
    name: Seq<char>,
    from: int,
    found: int,
)
    requires
        0 <= from <= found < overrides.len(),
        overrides[found].0@ == name,
        forall|i: int| from <= i < found ==> #[trigger] overrides[i].0@ != name,
    ensures
        override_from(overrides, name, from) == Some(overrides[found].1),
    decreases found - from,
{
    if from < found {
        lemma_override_found(overrides, name, from + 1, found);
    }
}

proof fn lemma_override_absent(overrides: Seq<(String, OptiQQuantizationOverride)>, name: Seq<char>, from: int)
    requires
        0 <= from,
        forall|i: int| from <= i < overrides.len() ==> #[trigger] overrides[i].0@ != name,
    ensures
        override_from(overrides, name, from) is None,
    decreases overrides.len() - from,
{
    if from < overrides.len() {
        lemma_override_absent(overrides, name, from + 1);
    }
}

proof fn lemma_first_invalid_override_exists(overrides: Seq<(String, OptiQQuantizationOverride)>, from: int)
    requires
        0 <= from,
    ensures
        (first_invalid_override_from(overrides, from) is Some) <==> exists|i: int|
            from <= i < overrides.len() && !(supported_bit_width(#[trigger] overrides[i].1.bits)
                && supported_group_size(overrides[i].1.group_size)),
    decreases overrides.len() - from,
{
    if from < overrides.len() {
        lemma_first_invalid_override_exists(overrides, from + 1);
        if first_invalid_override_from(overrides, from + 1) is Some {
            let i = choose|i: int|
                from + 1 <= i < overrides.len() && !(supported_bit_width(#[trigger] overrides[i].1.bits)
                    && supported_group_size(overrides[i].1.group_size));
            assert(from <= i < overrides.len());
        }
    }
}

/// Resolution law: validation succeeds exactly when the mode is `affine` and the
/// default and every override use a bit width and group size that MLX affine
/// quantization supports. On success each returned module takes the bits and group
/// size of the override that names it, and the defaults when no override does.
pub proof fn lemma_validation_resolves_each_module_by_its_override(
    result: Result<Vec<(String, OptiQQuantizationProfile)>, Qwen3_5ConfigError>,
    config: OptiQQuantizationConfigView,
    layer_is_full_attention: Seq<bool>,
    architecture: Qwen3_5FeedForwardArchitecture,
)
    requires
        validation_result_is(result, config, layer_is_full_attention, architecture),
        override_names_ascending(config.module_overrides),
    ensures
        (result is Ok) <==> (config.mode@ == "affine"@ && supported_bit_width(config.bits) && supported_group_size(
            config.group_size,
        ) && forall|j: int|
            0 <= j < config.module_overrides.len() ==> supported_bit_width(
                (#[trigger] config.module_overrides[j]).1.bits,
            ) && supported_group_size(config.module_overrides[j].1.group_size)),
        result matches Ok(profiles) ==> forall|k: int, j: int|
            0 <= k < profiles@.len() && 0 <= j < config.module_overrides.len() && (#[trigger] profiles@[k]).0@
                == (#[trigger] config.module_overrides[j]).0@ ==> profiles@[k].1 == (OptiQQuantizationProfile {
                bits: config.module_overrides[j].1.bits,
                group_size: config.module_overrides[j].1.group_size,
            }),
        result matches Ok(profiles) ==> forall|k: int|
            0 <= k < profiles@.len() && (forall|j: int|
                0 <= j < config.module_overrides.len() ==> (#[trigger] config.module_overrides[j]).0@
                    != (#[trigger] profiles@[k]).0@) ==> profiles@[k].1 == (OptiQQuantizationProfile {
                bits: config.bits,
                group_size: config.group_size,
            }),
{
    let overrides = config.module_overrides;
    lemma_first_invalid_override_exists(overrides, 0);
    if result is Ok {
        let profiles = result->Ok_0;
        let expected = expected_quantized_module_names(layer_is_full_attention, architecture);
        let resolved = expected.map_values(|name: Seq<char>| (name, resolved_profile(config, name)));
        assert(profile_views(profiles@) == resolved);
        assert forall|k: int, j: int|
            0 <= k < profiles@.len() && 0 <= j < overrides.len() && (#[trigger] profiles@[k]).0@
                == (#[trigger] overrides[j]).0@ implies profiles@[k].1 == (OptiQQuantizationProfile {
            bits: overrides[j].1.bits,
            group_size: overrides[j].1.group_size,
        }) by {
            assert(profile_views(profiles@).len() == profiles@.len());
            assert(profile_views(profiles@)[k] == (profiles@[k].0@, profiles@[k].1));
            assert(resolved[k] == (expected[k], resolved_profile(config, expected[k])));
            let name = profiles@[k].0@;
            assert(name == expected[k]);
            assert forall|i: int| 0 <= i < j implies #[trigger] overrides[i].0@ != name by {
                assert(text_precedes(overrides[i].0@, overrides[j].0@));
                lemma_text_precedes_is_irreflexive(name);
            }
            lemma_override_found(overrides, name, 0, j);
        }
        assert forall|k: int|
            0 <= k < profiles@.len() && (forall|j: int|
                0 <= j < overrides.len() ==> (#[trigger] overrides[j]).0@ != (#[trigger] profiles@[k]).0@)
            implies profiles@[k].1 == (OptiQQuantizationProfile { bits: config.bits, group_size: config.group_size })
        by {
            assert(profile_views(profiles@).len() == profiles@.len());
            assert(profile_views(profiles@)[k] == (profiles@[k].0@, profiles@[k].1));
            assert(resolved[k] == (expected[k], resolved_profile(config, expected[k])));
            let name = profiles@[k].0@;
            assert(name == expected[k]);
            assert forall|i: int| 0 <= i < overrides.len() implies #[trigger] overrides[i].0@ != name by {
                assert(overrides[i].0@ != profiles@[k].0@);
            }
            lemma_override_absent(overrides, name, 0);
        }
    }
}

fn push_with_suffix(names: &mut Vec<String>, prefix: &String, suffix: &str)
    ensures
        name_views(final(names)@) == name_views(old(names)@).push(prefix@ + suffix@),
{
    let name = prefix.clone().concat(suffix);
    names.push(name);
    assert(name_views(names@) =~= name_views(old(names)@).push(prefix@ + suffix@));
}

/// The views of a list of names.
pub open spec fn name_views(names: Seq<String>) -> Seq<Seq<char>> {
    names.map_values(|name: String| name@)
}

fn append_layer_module_names(
    names: &mut Vec<String>,
    index: usize,
    is_full_attention: bool,
    architecture: Qwen3_5FeedForwardArchitecture,
)
    ensures
        name_views(final(names)@) == name_views(old(names)@) + layer_module_names(
            index as nat,
            is_full_attention,
            architecture,
        ),
{
    let prefix = String::from_str("language_model.model.layers.").concat(decimal_string(index).as_str());
    let ghost p = layer_prefix(index as nat);
    assert(prefix@ == p);
    if is_full_attention {
        push_with_suffix(names, &prefix, ".self_attn.q_proj");
        push_with_suffix(names, &prefix, ".self_attn.k_proj");
        push_with_suffix(names, &prefix, ".self_attn.v_proj");
        push_with_suffix(names, &prefix, ".self_attn.o_proj");
    } else {
        push_with_suffix(names, &prefix, ".linear_attn.in_proj_qkv");
        push_with_suffix(names, &prefix, ".linear_attn.in_proj_z");
        push_with_suffix(names, &prefix, ".linear_attn.in_proj_b");
        push_with_suffix(names, &prefix, ".linear_attn.in_proj_a");
        push_with_suffix(names, &prefix, ".linear_attn.out_proj");
    }
    match architecture {
        Qwen3_5FeedForwardArchitecture::Dense => {
            push_with_suffix(names, &prefix, ".mlp.gate_proj");
            push_with_suffix(names, &prefix, ".mlp.up_proj");
            push_with_suffix(names, &prefix, ".mlp.down_proj");
        },
        Qwen3_5FeedForwardArchitecture::MixtureOfExperts => {
            push_with_suffix(names, &prefix, ".mlp.gate");
            push_with_suffix(names, &prefix, ".mlp.switch_mlp.gate_proj");
            push_with_suffix(names, &prefix, ".mlp.switch_mlp.up_proj");
            push_with_suffix(names, &prefix, ".mlp.switch_mlp.down_proj");
            push_with_suffix(names, &prefix, ".mlp.shared_expert.gate_proj");
            push_with_suffix(names, &prefix, ".mlp.shared_expert.up_proj");
            push_with_suffix(names, &prefix, ".mlp.shared_expert.down_proj");
            push_with_suffix(names, &prefix, ".mlp.shared_expert_gate");
        },
    }
    assert(name_views(names@) =~= name_views(old(names)@) + layer_module_names(
        index as nat,
        is_full_attention,
        architecture,
    ));
}

/// Every quantized module name of a model whose decoder layers are full-attention
/// exactly where `layer_is_full_attention` says so.
pub fn expected_quantized_module_names_for_layers(
    layer_is_full_attention: &[bool],
    architecture: Qwen3_5FeedForwardArchitecture,
) -> (names: Vec<String>)
    ensures
        name_views(names@) == expected_quantized_module_names(layer_is_full_attention@, architecture),
{
    let mut names: Vec<String> = Vec::new();
    let mut index: usize = 0;
    while index < layer_is_full_attention.len()
        invariant
            index <= layer_is_full_attention@.len(),
            name_views(names@) == decoder_module_names(layer_is_full_attention@, index as nat, architecture),
        decreases layer_is_full_attention.len() - index,
    {
        append_layer_module_names(&mut names, index, layer_is_full_attention[index], architecture);
        index += 1;
    }
    let embed = String::from_str("language_model.model.embed_tokens");
    let head = String::from_str("language_model.lm_head");
    let ghost before = name_views(names@);
    names.push(embed);
    names.push(head);
    assert(name_views(names@) =~= before + seq!["language_model.model.embed_tokens"@, "language_model.lm_head"@]);
    names
}

impl OptiQQuantizationConfig {
    /// A quantization document with its default `(bits, group_size)`, `mode` and
    /// per-module overrides, sorted by module name.
    pub fn new(
        group_size: u32,
        bits: u32,
        mode: String,
        module_overrides: Vec<(String, OptiQQuantizationOverride)>,
    ) -> (config: Self)
        requires
            override_names_ascending(module_overrides@),
        ensures
            config@.group_size == group_size,
            config@.bits == bits,
            config@.mode == mode,
            config@.module_overrides == module_overrides@,
    {
        OptiQQuantizationConfig { group_size, bits, mode, module_overrides }
    }

    /// The declared quantization mode (`affine` for MLX affine quantization).
    pub fn mode(&self) -> (mode: &String)
        ensures
            *mode == self@.mode,
    {
        &self.mode
    }

    /// The per-module overrides, sorted by module name.
    pub fn module_overrides(&self) -> (overrides: &Vec<(String, OptiQQuantizationOverride)>)
        ensures
            overrides@ == self@.module_overrides,
    {
        &self.module_overrides
    }

    /// Returns the default quantization group size declared by the artifact.
    pub fn default_group_size(&self) -> (group_size: u32)
        ensures
            group_size == self@.group_size,
    {
        self.group_size
    }

    /// Returns the default quantization bit width declared by the artifact.
    pub fn default_bits(&self) -> (bits: u32)
        ensures
            bits == self@.bits,
    {
        self.bits
    }

    fn find_override(&self, name: &String) -> (found: Option<OptiQQuantizationOverride>)
        ensures
            found == override_from(self@.module_overrides, name@, 0),
    {
        let mut index: usize = 0;
        while index < self.module_overrides.len()
            invariant
                index <= self.module_overrides@.len(),
                override_from(self@.module_overrides, name@, 0) == override_from(
                    self@.module_overrides,
                    name@,
                    index as int,
                ),
            decreases self.module_overrides.len() - index,
        {
            if self.module_overrides[index].0 == *name {
                return Some(self.module_overrides[index].1);
            }
            index += 1;
        }
        None
    }

    fn first_invalid_override(&self) -> (invalid: Option<usize>)
        ensures
            match invalid {
                Some(index) => first_invalid_override_from(self@.module_overrides, 0) == Some(index as int)
                    && index < self@.module_overrides.len(),
                None => first_invalid_override_from(self@.module_overrides, 0) is None,
            },
    {
        let mut index: usize = 0;
        while index < self.module_overrides.len()
            invariant
                index <= self.module_overrides@.len(),
                first_invalid_override_from(self@.module_overrides, 0) == first_invalid_override_from(
                    self@.module_overrides,
                    index as int,
                ),
            decreases self.module_overrides.len() - index,
        {
            let module_override = self.module_overrides[index].1;
            if !is_mlx_affine_quantization_bit_width_supported(module_override.bits)
                || !is_mlx_affine_quantization_group_size_supported(module_override.group_size) {
                return Some(index);
            }
            index += 1;
        }
        None
    }

    /// The error for the override at `index`, which MLX affine quantization does not
    /// support: its bit width when that is unsupported, else its group size.
    fn invalid_override_error(&self, index: usize) -> (error: Qwen3_5ConfigError)
        requires
            index < self@.module_overrides.len(),
        ensures
            ({
                let (module_name, module_override) = self@.module_overrides[index as int];
                if !supported_bit_width(module_override.bits) {
                    error == Qwen3_5ConfigError::UnsupportedQuantizationOverrideBits {
                        module_name,
                        actual_value: module_override.bits,
                    }
                } else {
                    error matches Qwen3_5ConfigError::InvalidConfigValueDynamic { description }
                        && description@ == unsupported_override_group_size_text(
                        module_name@,
                        module_override.group_size,
                    )
                }
            }),
    {
        let module_name = &self.module_overrides[index].0;
        let module_override = self.module_overrides[index].1;
        if !is_mlx_affine_quantization_bit_width_supported(module_override.bits) {
            return Qwen3_5ConfigError::UnsupportedQuantizationOverrideBits {
                module_name: module_name.clone(),
                actual_value: module_override.bits,
            };
        }
        let description = String::from_str("quantization module override '").concat(module_name.as_str()).concat(
            "' group_size is not supported by MLX affine quantization: ",
        ).concat(decimal_string(module_override.group_size as usize).as_str());
        Qwen3_5ConfigError::InvalidConfigValueDynamic { description }
    }

    /// Validates the config for decoder layers whose attention kind is
    /// `layer_is_full_attention`, and returns every quantized module with its resolved
    /// profile (its override, else the default), in layer order.
    pub fn validate_for_layers(
        &self,
        layer_is_full_attention: &[bool],
        feed_forward_architecture: Qwen3_5FeedForwardArchitecture,
    ) -> (result: Result<Vec<(String, OptiQQuantizationProfile)>, Qwen3_5ConfigError>)
        ensures
            validation_result_is(result, self@, layer_is_full_attention@, feed_forward_architecture),
    {
        let affine = String::from_str("affine");
        if !(self.mode == affine) {
            return Err(
                Qwen3_5ConfigError::UnexpectedValue {
                    field_name: "quantization.mode",
                    expected_value: "affine",
                    actual_value: self.mode.clone(),
                },
            );
        }
        if !is_mlx_affine_quantization_bit_width_supported(self.bits) {
            let description = String::from_str(
                "quantization.bits must be supported by MLX affine quantization, got ",
            ).concat(decimal_string(self.bits as usize).as_str());
            return Err(Qwen3_5ConfigError::InvalidConfigValueDynamic { description });
        }
        if !is_mlx_affine_quantization_group_size_supported(self.group_size) {
            let description = String::from_str(
                "quantization.group_size must be supported by MLX affine quantization, got ",
            ).concat(decimal_string(self.group_size as usize).as_str());
            return Err(Qwen3_5ConfigError::InvalidConfigValueDynamic { description });
        }
        match self.first_invalid_override() {
            Some(index) => {
                return Err(self.invalid_override_error(index));
            },
            None => {},
        }
        let names = expected_quantized_module_names_for_layers(layer_is_full_attention, feed_forward_architecture);
        let ghost expected = expected_quantized_module_names(layer_is_full_attention@, feed_forward_architecture);
        let mut profiles: Vec<(String, OptiQQuantizationProfile)> = Vec::new();
        let mut index: usize = 0;
        while index < names.len()
            invariant
                index <= names@.len(),
                name_views(names@) == expected,
                profile_views(profiles@) == expected.subrange(0, index as int).map_values(
                    |name: Seq<char>| (name, resolved_profile(self@, name)),
                ),
            decreases names.len() - index,
        {
            let name = names[index].clone();
            let profile = match self.find_override(&name) {
                Some(module_override) => OptiQQuantizationProfile {
                    bits: module_override.bits,
                    group_size: module_override.group_size,
                },
                None => OptiQQuantizationProfile { bits: self.bits, group_size: self.group_size },
            };
            let ghost before = profile_views(profiles@);
            assert(name@ == expected[index as int]);
            assert(profile == resolved_profile(self@, name@));
            profiles.push((name, profile));
            assert(profile_views(profiles@) =~= before.push((expected[index as int], resolved_profile(self@, expected[index as int]))));
            assert(profile_views(profiles@) =~= expected.subrange(0, index + 1).map_values(
                |name: Seq<char>| (name, resolved_profile(self@, name)),
            ));
            index += 1;
        }
        assert(expected.subrange(0, index as int) =~= expected);
        Ok(profiles)
    }

    /// Validates the quantization config against the text config's decoder layers and
    /// returns every quantized module of those layers with its resolved profile.
    pub fn validate<S: QuantizationConfigSource>(
        &self,
        config_source: &S,
        feed_forward_architecture: Qwen3_5FeedForwardArchitecture,
    ) -> (result: Result<Vec<(String, OptiQQuantizationProfile)>, Qwen3_5ConfigError>)
        ensures
            validation_result_is(
                result,
                self@,
                source_layer_layout(*config_source),
                feed_forward_architecture,
            ),
    {
        let layer_count = config_source.layer_count() as usize;
        let mut layer_is_full_attention: Vec<bool> = Vec::new();
        let mut index: usize = 0;
        while index < layer_count
            invariant
                index <= layer_count,
                layer_count == config_source.spec_layer_count(),
                layer_is_full_attention@ == source_layer_layout(*config_source).subrange(0, index as int),
            decreases layer_count - index,
        {
            layer_is_full_attention.push(config_source.decoder_layer_is_full_attention(index));
            index += 1;
            assert(layer_is_full_attention@ =~= source_layer_layout(*config_source).subrange(0, index as int));
        }
        assert(layer_is_full_attention@ =~= source_layer_layout(*config_source));
        let result = self.validate_for_layers(&layer_is_full_attention, feed_forward_architecture);
        assert(validation_result_is(result, self@, layer_is_full_attention@, feed_forward_architecture));
        result
    }

    /// Returns the artifact-declared quantization profiles for optional MTP modules:
    /// the overrides whose module name starts with `language_model.mtp.`, in name order.
    pub fn mtp_quantized_module_profiles(&self) -> (profiles: Vec<(String, OptiQQuantizationProfile)>)
        ensures
            profile_views(profiles@) == mtp_override_profiles(self@.module_overrides),
    {
        let mut profiles: Vec<(String, OptiQQuantizationProfile)> = Vec::new();
        let mut index: usize = 0;
        while index < self.module_overrides.len()
            invariant
                index <= self.module_overrides@.len(),
                profile_views(profiles@) == mtp_override_profiles(self@.module_overrides.subrange(0, index as int)),
            decreases self.module_overrides.len() - index,
        {
            let module_name = &self.module_overrides[index].0;
            let module_override = self.module_overrides[index].1;
            let ghost before = profile_views(profiles@);
            assert(self@.module_overrides.subrange(0, index + 1).drop_last() =~= self@.module_overrides.subrange(
                0,
                index as int,
            ));
            if str_has_prefix(module_name.as_str(), "language_model.mtp.") {
                profiles.push(
                    (
                        module_name.clone(),
                        OptiQQuantizationProfile { bits: module_override.bits, group_size: module_override.group_size },
                    ),
                );
                assert(profile_views(profiles@) =~= before.push(
                    (
                        module_name@,
                        OptiQQuantizationProfile { bits: module_override.bits, group_size: module_override.group_size },
                    ),
                ));
            }
            index += 1;
        }
        assert(self@.module_overrides.subrange(0, index as int) =~= self@.module_overrides);
        profiles
    }
}

/// The MTP-module overrides (name prefix `language_model.mtp.`) as profiles, in order.
pub open spec fn mtp_override_profiles(overrides: Seq<(String, OptiQQuantizationOverride)>) -> Seq<
    (Seq<char>, OptiQQuantizationProfile),
>
    decreases overrides.len(),
{
    if overrides.len() == 0 {
        Seq::empty()
    } else {
        let previous = mtp_override_profiles(overrides.drop_last());
        let last = overrides.last();
        if has_prefix(last.0@, "language_model.mtp."@) {
            previous.push((last.0@, OptiQQuantizationProfile { bits: last.1.bits, group_size: last.1.group_size }))
        } else {
            previous
        }
    }
}

} // verus!
