//! Why part of the MLX memory ceiling is unused at one decode step.
//!
//! Only the step with the largest unused headroom is kept, and all terms are kept
//! together from that same step: keeping each term as its own maximum would mix
//! terms of different steps and break the identity the terms satisfy.

use vstd::prelude::*;

verus! {

/// The split of the MLX memory ceiling measured at one instant.
#[derive(Clone, Copy, Debug, PartialEq, Eq, Structural)]
pub struct MemoryCeilingUtilization {
    pub mlx_active_memory_ceiling_bytes: u64,
    pub active_memory_bytes: u64,
    pub unused_headroom_bytes: u64,
    pub reserved_model_core_slack_bytes: u64,
    pub reserved_context_growth_bytes: u64,
    pub reserved_activation_and_workspace_bytes: u64,
    pub unseated_expert_entitlement_bytes: u64,
    pub unexplained_headroom_bytes: u64,
    pub owner_overrun_bytes: u64,
}

/// The split recorded before any step: every term zero.
pub open spec fn unrecorded_utilization() -> MemoryCeilingUtilization {
    MemoryCeilingUtilization {
        mlx_active_memory_ceiling_bytes: 0,
        active_memory_bytes: 0,
        unused_headroom_bytes: 0,
        reserved_model_core_slack_bytes: 0,
        reserved_context_growth_bytes: 0,
        reserved_activation_and_workspace_bytes: 0,
        unseated_expert_entitlement_bytes: 0,
        unexplained_headroom_bytes: 0,
        owner_overrun_bytes: 0,
    }
}

/// The recorded split after one more step was measured.
pub open spec fn recorded_after(
    recorded: MemoryCeilingUtilization,
    utilization: MemoryCeilingUtilization,
) -> MemoryCeilingUtilization {
    if utilization.unused_headroom_bytes < recorded.unused_headroom_bytes {
        recorded
    } else {
        utilization
    }
}

/// The recorded split after the measured steps `steps`, in order.
pub open spec fn recorded_after_steps(
    initial: MemoryCeilingUtilization,
    steps: Seq<MemoryCeilingUtilization>,
) -> MemoryCeilingUtilization
    decreases steps.len(),
{
    if steps.len() == 0 {
        initial
    } else {
        recorded_after(recorded_after_steps(initial, steps.drop_last()), steps.last())
    }
}

/// An empty record, before any step.
pub fn unrecorded_memory_ceiling_utilization() -> (recorded: MemoryCeilingUtilization)
    ensures
        recorded == unrecorded_utilization(),
{
    MemoryCeilingUtilization {
        mlx_active_memory_ceiling_bytes: 0,
        active_memory_bytes: 0,
        unused_headroom_bytes: 0,
        reserved_model_core_slack_bytes: 0,
        reserved_context_growth_bytes: 0,
        reserved_activation_and_workspace_bytes: 0,
        unseated_expert_entitlement_bytes: 0,
        unexplained_headroom_bytes: 0,
        owner_overrun_bytes: 0,
    }
}

/// Records the split of one decode step when its unused headroom is at least the
/// recorded peak; the whole split is replaced at once.
pub fn record_memory_ceiling_utilization(
    recorded: &mut MemoryCeilingUtilization,
    utilization: MemoryCeilingUtilization,
)
    ensures
        *final(recorded) == recorded_after(*old(recorded), utilization),
{
    if utilization.unused_headroom_bytes < recorded.unused_headroom_bytes {
        return;
    }
    *recorded = utilization;
}

/// Peak law: after any sequence of steps the record is one whole measured split (or
/// the initial record), and no step had more unused headroom than it.
pub proof fn lemma_record_is_one_whole_peak_step(
    initial: MemoryCeilingUtilization,
    steps: Seq<MemoryCeilingUtilization>,
)
    ensures
        recorded_after_steps(initial, steps) == initial || steps.contains(recorded_after_steps(initial, steps)),
        recorded_after_steps(initial, steps).unused_headroom_bytes >= initial.unused_headroom_bytes,
        forall|i: int|
            0 <= i < steps.len() ==> #[trigger] steps[i].unused_headroom_bytes <= recorded_after_steps(
                initial,
                steps,
            ).unused_headroom_bytes,
    decreases steps.len(),
{
    if steps.len() > 0 {
        let previous = steps.drop_last();
        lemma_record_is_one_whole_peak_step(initial, previous);
        let before = recorded_after_steps(initial, previous);
        let after = recorded_after_steps(initial, steps);
        assert forall|i: int| 0 <= i < steps.len() implies #[trigger] steps[i].unused_headroom_bytes
            <= after.unused_headroom_bytes by {
            if i < steps.len() - 1 {
                assert(steps[i] == previous[i]);
            }
        }
        if after != initial && after != steps.last() {
            assert(after == before);
            let j = choose|j: int| 0 <= j < previous.len() && previous[j] == before;
            assert(steps[j] == before);
        }
        if after == steps.last() {
            assert(steps[steps.len() - 1] == after);
        }
    }
}

} // verus!
