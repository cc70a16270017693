use model_serving::model::ceiling_utilization::{
    record_memory_ceiling_utilization, unrecorded_memory_ceiling_utilization,
    MemoryCeilingUtilization,
};

fn step(unused_headroom_bytes: u64, tag: u64) -> MemoryCeilingUtilization {
    MemoryCeilingUtilization {
        mlx_active_memory_ceiling_bytes: 1000,
        active_memory_bytes: 1000 - unused_headroom_bytes,
        unused_headroom_bytes,
        reserved_model_core_slack_bytes: tag,
        reserved_context_growth_bytes: tag,
        reserved_activation_and_workspace_bytes: tag,
        unseated_expert_entitlement_bytes: tag,
        unexplained_headroom_bytes: tag,
        owner_overrun_bytes: tag,
    }
}

#[test]
fn the_step_with_the_most_unused_headroom_is_kept_whole() {
    let mut recorded = unrecorded_memory_ceiling_utilization();
    assert_eq!(recorded.unused_headroom_bytes, 0);
    for (unused, tag) in [(100, 1), (300, 2), (200, 3)] {
        record_memory_ceiling_utilization(&mut recorded, step(unused, tag));
    }
    assert_eq!(recorded, step(300, 2));
}

#[test]
fn a_later_step_with_equal_headroom_replaces_the_record() {
    let mut recorded = unrecorded_memory_ceiling_utilization();
    record_memory_ceiling_utilization(&mut recorded, step(300, 2));
    record_memory_ceiling_utilization(&mut recorded, step(300, 7));
    assert_eq!(recorded, step(300, 7));
}

#[test]
fn the_first_step_is_recorded_even_without_headroom() {
    let mut recorded = unrecorded_memory_ceiling_utilization();
    record_memory_ceiling_utilization(&mut recorded, step(0, 9));
    assert_eq!(recorded, step(0, 9));
}
