//! Which arrays a forward evaluates so that every decoder state it touched is
//! materialized.
//!
//! Forward outputs already reach attention storage and the recurrent kernel's sibling
//! state. Convolution state branches from its input, so it always remains an explicit
//! evaluation root.

use vstd::prelude::*;

use crate::error::Qwen3_5ExecutionError;

verus! {

/// What the request decoder state holds for one decoder layer after a forward.
#[derive(Clone, Copy, Debug, PartialEq, Eq, Structural)]
pub enum DecoderLayerStatePresence {
    /// Linear-attention layer: whether its convolution and recurrent arrays exist.
    Composite { convolution: bool, recurrent: bool },
    /// Full-attention layer: whether its key and value arrays exist.
    AppendOnlyAttention { keys: bool, values: bool },
    /// Any other (or no) cache state.
    Other,
}

/// One array to evaluate.
#[derive(Clone, Copy, Debug, PartialEq, Eq, Structural)]
pub enum EvaluationRoot {
    ForwardOutput,
    Convolution { layer_index: usize },
    Recurrent { layer_index: usize },
    AttentionKeys { layer_index: usize },
    AttentionValues { layer_index: usize },
}

/// Roots of one populated layer, or `None` when the layer lacks a required array.
pub open spec fn layer_roots(
    layer: DecoderLayerStatePresence,
    layer_index: usize,
    include_forward_reachable_state_arrays: bool,
) -> Option<Seq<EvaluationRoot>> {
    match layer {
        DecoderLayerStatePresence::Composite { convolution, recurrent } => if convolution && recurrent {
            if include_forward_reachable_state_arrays {
                Some(seq![EvaluationRoot::Convolution { layer_index }, EvaluationRoot::Recurrent { layer_index }])
            } else {
                Some(seq![EvaluationRoot::Convolution { layer_index }])
            }
        } else {
            None
        },
        DecoderLayerStatePresence::AppendOnlyAttention { keys, values } => if keys && values {
            if include_forward_reachable_state_arrays {
                Some(seq![EvaluationRoot::AttentionKeys { layer_index }, EvaluationRoot::AttentionValues { layer_index }])
            } else {
                Some(Seq::<EvaluationRoot>::empty())
            }
        } else {
            None
        },
        DecoderLayerStatePresence::Other => None,
    }
}

/// Roots of the first `count` layers, or the index of the first unpopulated layer.
pub open spec fn roots_of_layers(
    layers: Seq<DecoderLayerStatePresence>,
    count: nat,
    include_forward_reachable_state_arrays: bool,
) -> Result<Seq<EvaluationRoot>, usize>
    decreases count,
{
    if count == 0 {
        Ok(Seq::empty())
    } else {
        match roots_of_layers(layers, (count - 1) as nat, include_forward_reachable_state_arrays) {
            Err(index) => Err(index),
            Ok(previous) => match layer_roots(layers[count - 1], (count - 1) as usize, include_forward_reachable_state_arrays) {
                Some(roots) => Ok(previous + roots),
                None => Err((count - 1) as usize),
            },
        }
    }
}

/// The forward output (when there is one) followed by every layer's roots; fails at
/// the first layer the forward left unpopulated.
pub open spec fn evaluation_roots_outcome(
    has_output: bool,
    layers: Seq<DecoderLayerStatePresence>,
    include_forward_reachable_state_arrays: bool,
) -> Result<Seq<EvaluationRoot>, Qwen3_5ExecutionError> {
    match roots_of_layers(layers, layers.len(), include_forward_reachable_state_arrays) {
        Err(layer_index) => Err(Qwen3_5ExecutionError::InvalidRequestDecoderState { layer_index }),
        Ok(roots) => Ok(if has_output {
            seq![EvaluationRoot::ForwardOutput] + roots
        } else {
            roots
        }),
    }
}

/// Whether a forward left both required arrays of a decoder layer in place.
pub open spec fn layer_left_populated(layer: DecoderLayerStatePresence) -> bool {
    ||| layer matches DecoderLayerStatePresence::Composite { convolution, recurrent } && convolution && recurrent
    ||| layer matches DecoderLayerStatePresence::AppendOnlyAttention { keys, values } && keys && values
}

proof fn lemma_roots_of_layers_cover_each_layer(
    layers: Seq<DecoderLayerStatePresence>,
    count: nat,
    include_forward_reachable_state_arrays: bool,
)
    requires
        count <= layers.len(),
        layers.len() <= usize::MAX,
    ensures
        (roots_of_layers(layers, count, include_forward_reachable_state_arrays) is Ok) <==> (forall|i: int|
            0 <= i < count ==> layer_left_populated(#[trigger] layers[i])),
        roots_of_layers(layers, count, include_forward_reachable_state_arrays) matches Err(index) ==> index < count
            && !layer_left_populated(layers[index as int]) && forall|i: int|
            0 <= i < index ==> layer_left_populated(#[trigger] layers[i]),
        roots_of_layers(layers, count, include_forward_reachable_state_arrays) matches Ok(roots) ==> forall|i: int|
            0 <= i < count ==> {
                &&& (#[trigger] layers[i]) is Composite ==> roots.contains(
                    EvaluationRoot::Convolution { layer_index: i as usize },
                )
                &&& (layers[i] is Composite && include_forward_reachable_state_arrays) ==> roots.contains(
                    EvaluationRoot::Recurrent { layer_index: i as usize },
                )
                &&& (layers[i] is AppendOnlyAttention && include_forward_reachable_state_arrays) ==> roots.contains(
                    EvaluationRoot::AttentionKeys { layer_index: i as usize },
                ) && roots.contains(EvaluationRoot::AttentionValues { layer_index: i as usize })
            },
    decreases count,
{
    if count > 0 {
        let n = (count - 1) as nat;
        lemma_roots_of_layers_cover_each_layer(layers, n, include_forward_reachable_state_arrays);
        match roots_of_layers(layers, n, include_forward_reachable_state_arrays) {
            Err(_) => {},
            Ok(previous) => match layer_roots(layers[n as int], n as usize, include_forward_reachable_state_arrays) {
                None => {},
                Some(last) => {
                    let roots = previous + last;
                    assert forall|i: int| 0 <= i < count implies {
                        &&& (#[trigger] layers[i]) is Composite ==> roots.contains(
                            EvaluationRoot::Convolution { layer_index: i as usize },
                        )
                        &&& (layers[i] is Composite && include_forward_reachable_state_arrays) ==> roots.contains(
                            EvaluationRoot::Recurrent { layer_index: i as usize },
                        )
                        &&& (layers[i] is AppendOnlyAttention && include_forward_reachable_state_arrays)
                            ==> roots.contains(EvaluationRoot::AttentionKeys { layer_index: i as usize })
                            && roots.contains(EvaluationRoot::AttentionValues { layer_index: i as usize })
                    } by {
                        if i < n {
                            if previous.contains(EvaluationRoot::Convolution { layer_index: i as usize }) {
                                let j = choose|j: int| 0 <= j < previous.len() && previous[j]
                                    == EvaluationRoot::Convolution { layer_index: i as usize };
                                assert(roots[j] == previous[j]);
                            }
                            if previous.contains(EvaluationRoot::Recurrent { layer_index: i as usize }) {
                                let j = choose|j: int| 0 <= j < previous.len() && previous[j]
                                    == EvaluationRoot::Recurrent { layer_index: i as usize };
                                assert(roots[j] == previous[j]);
                            }
                            if previous.contains(EvaluationRoot::AttentionKeys { layer_index: i as usize }) {
                                let j = choose|j: int| 0 <= j < previous.len() && previous[j]
                                    == EvaluationRoot::AttentionKeys { layer_index: i as usize };
                                assert(roots[j] == previous[j]);
                            }
                            if previous.contains(EvaluationRoot::AttentionValues { layer_index: i as usize }) {
                                let j = choose|j: int| 0 <= j < previous.len() && previous[j]
                                    == EvaluationRoot::AttentionValues { layer_index: i as usize };
                                assert(roots[j] == previous[j]);
                            }
                        } else {
                            assert(i == n);
                            if last.len() > 0 {
                                assert(roots[previous.len() as int] == last[0]);
                            }
                            if last.len() > 1 {
                                assert(roots[previous.len() as int + 1] == last[1]);
                            }
                        }
                    }
                },
            },
        }
    }
}

/// Evaluation-root law: roots are collected exactly when every decoder layer was left
/// with both of its arrays; otherwise the error names the first layer that was not. On
/// success the forward output is a root exactly when there is one, every
/// linear-attention layer's convolution state is a root, and when forward-reachable
/// arrays are included so is every recurrent state and every attention key and value
/// array.
pub proof fn lemma_every_touched_layer_state_is_evaluated(
    has_output: bool,
    layers: Seq<DecoderLayerStatePresence>,
    include_forward_reachable_state_arrays: bool,
)
    requires
        layers.len() <= usize::MAX,
    ensures
        (evaluation_roots_outcome(has_output, layers, include_forward_reachable_state_arrays) is Ok) <==> (forall|
            i: int,
        | 0 <= i < layers.len() ==> layer_left_populated(#[trigger] layers[i])),
        evaluation_roots_outcome(has_output, layers, include_forward_reachable_state_arrays) matches Err(error)
            ==> error matches Qwen3_5ExecutionError::InvalidRequestDecoderState { layer_index } && layer_index
            < layers.len() && !layer_left_populated(layers[layer_index as int]) && forall|i: int|
            0 <= i < layer_index ==> layer_left_populated(#[trigger] layers[i]),
        evaluation_roots_outcome(has_output, layers, include_forward_reachable_state_arrays) matches Ok(roots) ==> {
            &&& has_output ==> roots[0] == EvaluationRoot::ForwardOutput
            &&& forall|i: int|
                0 <= i < layers.len() ==> {
                    &&& (#[trigger] layers[i]) is Composite ==> roots.contains(
                        EvaluationRoot::Convolution { layer_index: i as usize },
                    )
                    &&& (layers[i] is Composite && include_forward_reachable_state_arrays) ==> roots.contains(
                        EvaluationRoot::Recurrent { layer_index: i as usize },
                    )
                    &&& (layers[i] is AppendOnlyAttention && include_forward_reachable_state_arrays)
                        ==> roots.contains(EvaluationRoot::AttentionKeys { layer_index: i as usize })
                        && roots.contains(EvaluationRoot::AttentionValues { layer_index: i as usize })
                }
        },
{
    lemma_roots_of_layers_cover_each_layer(layers, layers.len(), include_forward_reachable_state_arrays);
    if has_output {
        match roots_of_layers(layers, layers.len(), include_forward_reachable_state_arrays) {
            Ok(layer_roots_found) => {
                let roots = seq![EvaluationRoot::ForwardOutput] + layer_roots_found;
                assert forall|root: EvaluationRoot| layer_roots_found.contains(root) implies roots.contains(root) by {
                    let j = choose|j: int| 0 <= j < layer_roots_found.len() && layer_roots_found[j] == root;
                    assert(roots[j + 1] == layer_roots_found[j]);
                }
            },
            Err(_) => {},
        }
    }
}

/// Collects the evaluation roots of a forward over `layers`.
pub fn collect_evaluation_roots(
    has_output: bool,
    layers: &[DecoderLayerStatePresence],
    include_forward_reachable_state_arrays: bool,
) -> (result: Result<Vec<EvaluationRoot>, Qwen3_5ExecutionError>)
    ensures
        match evaluation_roots_outcome(has_output, layers@, include_forward_reachable_state_arrays) {
            Ok(roots) => result matches Ok(v) && v@ == roots,
            Err(error) => result == Err::<Vec<EvaluationRoot>, Qwen3_5ExecutionError>(error),
        },
{
    let mut roots: Vec<EvaluationRoot> = Vec::new();
    if has_output {
        roots.push(EvaluationRoot::ForwardOutput);
    }
    let ghost head: Seq<EvaluationRoot> = roots@;
    let mut layer_index: usize = 0;
    while layer_index < layers.len()
        invariant
            layer_index <= layers@.len(),
            head == (if has_output { seq![EvaluationRoot::ForwardOutput] } else { Seq::<EvaluationRoot>::empty() }),
            roots_of_layers(layers@, layer_index as nat, include_forward_reachable_state_arrays) matches Ok(previous)
                && roots@ == head + previous,
        decreases layers.len() - layer_index,
    {
        let ghost previous = roots_of_layers(layers@, layer_index as nat, include_forward_reachable_state_arrays)->Ok_0;
        let ghost before = roots@;
        match layers[layer_index] {
            DecoderLayerStatePresence::Composite { convolution, recurrent } => {
                if !(convolution && recurrent) {
                    proof {
                        lemma_failure_persists(layers@, (layer_index + 1) as nat, layers@.len(), include_forward_reachable_state_arrays);
                    }
                    return Err(Qwen3_5ExecutionError::InvalidRequestDecoderState { layer_index });
                }
                roots.push(EvaluationRoot::Convolution { layer_index });
                if include_forward_reachable_state_arrays {
                    roots.push(EvaluationRoot::Recurrent { layer_index });
                }
            },
            DecoderLayerStatePresence::AppendOnlyAttention { keys, values } => {
                if !(keys && values) {
                    proof {
                        lemma_failure_persists(layers@, (layer_index + 1) as nat, layers@.len(), include_forward_reachable_state_arrays);
                    }
                    return Err(Qwen3_5ExecutionError::InvalidRequestDecoderState { layer_index });
                }
                if include_forward_reachable_state_arrays {
                    roots.push(EvaluationRoot::AttentionKeys { layer_index });
                    roots.push(EvaluationRoot::AttentionValues { layer_index });
                }
            },
            DecoderLayerStatePresence::Other => {
                proof {
                    lemma_failure_persists(layers@, (layer_index + 1) as nat, layers@.len(), include_forward_reachable_state_arrays);
                }
                return Err(Qwen3_5ExecutionError::InvalidRequestDecoderState { layer_index });
            },
        }
        proof {
            let added = layer_roots(layers@[layer_index as int], layer_index, include_forward_reachable_state_arrays)->0;
            assert(roots@ =~= before + added);
            assert(head + (previous + added) =~= (head + previous) + added);
        }
        layer_index += 1;
    }
    Ok(roots)
}

proof fn lemma_failure_persists(
    layers: Seq<DecoderLayerStatePresence>,
    count: nat,
    total: nat,
    include_forward_reachable_state_arrays: bool,
)
    requires
        count <= total,
        roots_of_layers(layers, count, include_forward_reachable_state_arrays) is Err,
    ensures
        roots_of_layers(layers, total, include_forward_reachable_state_arrays) == roots_of_layers(
            layers,
            count,
            include_forward_reachable_state_arrays,
        ),
    decreases total - count,
{
    if count < total {
        lemma_failure_persists(layers, count, (total - 1) as nat, include_forward_reachable_state_arrays);
    }
}

/// Roots after a forward that produced `output`: the output and each layer's
/// convolution state.
pub fn forward_state_roots(layers: &[DecoderLayerStatePresence]) -> (result: Result<Vec<EvaluationRoot>, Qwen3_5ExecutionError>)
    ensures
        match evaluation_roots_outcome(true, layers@, false) {
            Ok(roots) => result matches Ok(v) && v@ == roots,
            Err(error) => result == Err::<Vec<EvaluationRoot>, Qwen3_5ExecutionError>(error),
        },
{
    collect_evaluation_roots(true, layers, false)
}

/// Roots that materialize the whole decoder state without a forward output.
pub fn decoder_state_roots(layers: &[DecoderLayerStatePresence]) -> (result: Result<Vec<EvaluationRoot>, Qwen3_5ExecutionError>)
    ensures
        match evaluation_roots_outcome(false, layers@, true) {
            Ok(roots) => result matches Ok(v) && v@ == roots,
            Err(error) => result == Err::<Vec<EvaluationRoot>, Qwen3_5ExecutionError>(error),
        },
{
    collect_evaluation_roots(false, layers, true)
}

} // verus!
