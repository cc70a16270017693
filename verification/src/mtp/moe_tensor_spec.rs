//! The quantized-affine modules of a mixture-of-experts prediction layer:
//! router, packed `switch_mlp` experts and the shared expert.

use vstd::prelude::*;

verus! {

/// One affine module of the prediction layer: its name, the leading dimensions
/// of its weight and the input dimension it projects from.
#[derive(Clone, Debug, PartialEq, Eq)]
pub struct MtpAffineModuleSpec {
    pub module_name: String,
    pub leading_dimensions: Vec<usize>,
    pub input_dimension: usize,
}

/// `(module name, leading dimensions, input dimension)` of one module.
pub open spec fn affine_module_view(spec: MtpAffineModuleSpec) -> (Seq<char>, Seq<usize>, usize) {
    (spec.module_name@, spec.leading_dimensions@, spec.input_dimension)
}

pub open spec fn affine_module_views(specs: Seq<MtpAffineModuleSpec>) -> Seq<
    (Seq<char>, Seq<usize>, usize),
> {
    specs.map_values(|spec: MtpAffineModuleSpec| affine_module_view(spec))
}

/// The modules of a mixture-of-experts prediction layer under `prefix`, in the
/// order in which their tensors are listed: the router gate over the experts;
/// the packed expert gate, up and down projections; the shared expert's gate,
/// up and down projections; and the shared expert's scalar gate.
pub open spec fn moe_mtp_affine_modules(
    prefix: Seq<char>,
    hidden_size: usize,
    expert_count: usize,
    expert_intermediate_size: usize,
    shared_expert_intermediate_size: usize,
) -> Seq<(Seq<char>, Seq<usize>, usize)> {
    seq![
        (prefix + ".mlp.gate"@, seq![expert_count], hidden_size),
        (
            prefix + ".mlp.switch_mlp.gate_proj"@,
            seq![expert_count, expert_intermediate_size],
            hidden_size,
        ),
        (
            prefix + ".mlp.switch_mlp.up_proj"@,
            seq![expert_count, expert_intermediate_size],
            hidden_size,
        ),
        (
            prefix + ".mlp.switch_mlp.down_proj"@,
            seq![expert_count, hidden_size],
            expert_intermediate_size,
        ),
        (prefix + ".mlp.shared_expert.gate_proj"@, seq![shared_expert_intermediate_size], hidden_size),
        (prefix + ".mlp.shared_expert.up_proj"@, seq![shared_expert_intermediate_size], hidden_size),
        (
            prefix + ".mlp.shared_expert.down_proj"@,
            seq![hidden_size],
            shared_expert_intermediate_size,
        ),
        (prefix + ".mlp.shared_expert_gate"@, seq![1usize], hidden_size),
    ]
}

fn single_dimension(first: usize) -> (dimensions: Vec<usize>)
    ensures
        dimensions@ == seq![first],
{
    let mut dimensions: Vec<usize> = Vec::new();
    dimensions.push(first);
    dimensions
}

fn dimension_pair(first: usize, second: usize) -> (dimensions: Vec<usize>)
    ensures
        dimensions@ == seq![first, second],
{
    let mut dimensions: Vec<usize> = Vec::new();
    dimensions.push(first);
    dimensions.push(second);
    dimensions
}

fn push_module(
    specs: &mut Vec<MtpAffineModuleSpec>,
    prefix: &str,
    suffix: &str,
    leading_dimensions: Vec<usize>,
    input_dimension: usize,
)
    ensures
        affine_module_views(final(specs)@) == affine_module_views(old(specs)@).push(
            (prefix@ + suffix@, leading_dimensions@, input_dimension),
        ),
{
    let module_name = prefix.to_string().concat(suffix);
    let ghost before = old(specs)@;
    specs.push(MtpAffineModuleSpec { module_name, leading_dimensions, input_dimension });
    assert(affine_module_views(specs@) =~= affine_module_views(before).push(
        (prefix@ + suffix@, leading_dimensions@, input_dimension),
    ));
}

/// The affine modules whose tensor profiles a mixture-of-experts prediction
/// layer under `mtp_layer_prefix` carries (see `moe_mtp_affine_modules`).
pub fn qwen3_5_moe_mtp_affine_module_specs(
    mtp_layer_prefix: &str,
    hidden_size: usize,
    expert_count: usize,
    expert_intermediate_size: usize,
    shared_expert_intermediate_size: usize,
) -> (specs: Vec<MtpAffineModuleSpec>)
    ensures
        affine_module_views(specs@) == moe_mtp_affine_modules(
            mtp_layer_prefix@,
            hidden_size,
            expert_count,
            expert_intermediate_size,
            shared_expert_intermediate_size,
        ),
{
    let mut specs: Vec<MtpAffineModuleSpec> = Vec::new();
    let prefix = mtp_layer_prefix;
    push_module(&mut specs, prefix, ".mlp.gate", single_dimension(expert_count), hidden_size);
    push_module(
        &mut specs,
        prefix,
        ".mlp.switch_mlp.gate_proj",
        dimension_pair(expert_count, expert_intermediate_size),
        hidden_size,
    );
    push_module(
        &mut specs,
        prefix,
        ".mlp.switch_mlp.up_proj",
        dimension_pair(expert_count, expert_intermediate_size),
        hidden_size,
    );
    push_module(
        &mut specs,
        prefix,
        ".mlp.switch_mlp.down_proj",
        dimension_pair(expert_count, hidden_size),
        expert_intermediate_size,
    );
    push_module(
        &mut specs,
        prefix,
        ".mlp.shared_expert.gate_proj",
        single_dimension(shared_expert_intermediate_size),
        hidden_size,
    );
    push_module(
        &mut specs,
        prefix,
        ".mlp.shared_expert.up_proj",
        single_dimension(shared_expert_intermediate_size),
        hidden_size,
    );
    push_module(
        &mut specs,
        prefix,
        ".mlp.shared_expert.down_proj",
        single_dimension(hidden_size),
        shared_expert_intermediate_size,
    );
    push_module(&mut specs, prefix, ".mlp.shared_expert_gate", single_dimension(1usize), hidden_size);
    assert(affine_module_views(specs@) =~= moe_mtp_affine_modules(
        mtp_layer_prefix@,
        hidden_size,
        expert_count,
        expert_intermediate_size,
        shared_expert_intermediate_size,
    ));
    specs
}

/// Expert-wiring law: the router and every packed expert projection lead with the
/// expert count; the packed and the shared expert each project hidden states to their
/// intermediate width with a gate and an up projection of equal shape, and their down
/// projection reads that width back into the hidden size; the router and the shared
/// expert's scalar gate read hidden states; and every module lies under the layer prefix.
pub proof fn lemma_expert_projections_chain_back_to_the_hidden_size(
    prefix: Seq<char>,
    hidden_size: usize,
    expert_count: usize,
    expert_intermediate_size: usize,
    shared_expert_intermediate_size: usize,
)
    ensures
        ({
            let modules = moe_mtp_affine_modules(
                prefix,
                hidden_size,
                expert_count,
                expert_intermediate_size,
                shared_expert_intermediate_size,
            );
            &&& modules.len() == 8
            &&& forall|i: int| 0 <= i < 8 ==> (#[trigger] modules[i]).0.subrange(0, prefix.len() as int) == prefix
            &&& forall|i: int| 0 <= i < 4 ==> (#[trigger] modules[i]).1[0] == expert_count
            &&& modules[0].2 == hidden_size && modules[7].2 == hidden_size && modules[7].1 == seq![1usize]
            &&& modules[1].1 == modules[2].1 && modules[1].2 == hidden_size && modules[2].2 == hidden_size
            &&& modules[3].2 == modules[1].1.last() && modules[3].1.last() == hidden_size
            &&& modules[4].1 == modules[5].1 && modules[4].2 == hidden_size && modules[5].2 == hidden_size
            &&& modules[6].2 == modules[4].1.last() && modules[6].1.last() == hidden_size
        }),
{
    let modules = moe_mtp_affine_modules(
        prefix,
        hidden_size,
        expert_count,
        expert_intermediate_size,
        shared_expert_intermediate_size,
    );
    assert forall|i: int| 0 <= i < 8 implies (#[trigger] modules[i]).0.subrange(0, prefix.len() as int) == prefix by {
        assert(modules[i].0.subrange(0, prefix.len() as int) =~= prefix);
    }
}

} // verus!
