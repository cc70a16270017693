use model_serving::mtp::artifact::{
    Qwen3_5MtpArtifactCapability, Qwen3_5MtpContractDepths, Qwen3_5MtpExpertsLayout,
    Qwen3_5MtpTargetOnlyReason, TensorNameSet,
};
use model_serving::mtp::depth::MtpDraftDepth;
use model_serving::mtp::runtime::{
    qwen3_5_mtp_runtime_configuration_after_load, qwen3_5_mtp_runtime_state_after_load,
    MtpDepthResolutionReason, MtpDepthStatus, Qwen3_5MtpRuntimeState,
    Qwen3_5MtpUnavailableReason,
};

fn names(values: &[&str]) -> Vec<String> {
    values.iter().map(|value| value.to_string()).collect()
}

fn packed_inventory() -> Vec<String> {
    names(&[
        "language_model.mtp.fc.weight",
        "language_model.mtp.layers.0.mlp.gate.weight",
        "language_model.mtp.layers.0.mlp.switch_mlp.gate_proj.weight",
        "language_model.mtp.layers.0.mlp.switch_mlp.down_proj.weight",
    ])
}

fn name_set(values: &[String]) -> TensorNameSet {
    let mut set = TensorNameSet::new();
    for value in values {
        set.insert(value.clone());
    }
    set
}

fn depth(value: u8) -> MtpDraftDepth {
    MtpDraftDepth::new(value).expect("positive depth")
}

fn capable(maximum: Option<u8>, default: Option<u8>) -> Qwen3_5MtpArtifactCapability {
    Qwen3_5MtpArtifactCapability::MtpCapable {
        stored_mtp_layer_count: 1,
        artifact_maximum_draft_depth: maximum.map(depth),
        artifact_default_draft_depth: default.map(depth),
        mtp_tensor_count: 4,
        mtp_experts_layout: Qwen3_5MtpExpertsLayout::PackedSwitchMlp,
    }
}

#[test]
fn tensor_name_set_keeps_each_name_once() {
    let mut set = TensorNameSet::new();
    assert!(set.is_empty());
    assert!(set.insert("a".to_string()));
    assert!(set.insert("b".to_string()));
    assert!(!set.insert("a".to_string()));
    assert_eq!(set.len(), 2);
    assert!(set.contains("b"));
    assert!(!set.contains("c"));
}

#[test]
fn complete_packed_inventory_is_mtp_capable() {
    let capability =
        Qwen3_5MtpArtifactCapability::from_shard_index(1, &packed_inventory(), &packed_inventory());
    assert_eq!(capability, capable(None, None));
    assert!(capability.is_mtp_capable());
    assert_eq!(capability.target_only_reason(), None);
    assert_eq!(capability.mtp_experts_layout(), Some(Qwen3_5MtpExpertsLayout::PackedSwitchMlp));
}

#[test]
fn duplicate_shard_entries_count_once() {
    let mut listed = packed_inventory();
    listed.push(listed[0].clone());
    let capability = Qwen3_5MtpArtifactCapability::from_shard_index(1, &packed_inventory(), &listed);
    assert_eq!(capability, capable(None, None));
}

#[test]
fn inventory_problems_keep_the_model_target_only() {
    let target_only = |reason| Qwen3_5MtpArtifactCapability::TargetOnly { reason };
    assert_eq!(
        Qwen3_5MtpArtifactCapability::from_shard_index(1, &packed_inventory(), &[]),
        target_only(Qwen3_5MtpTargetOnlyReason::NoTensorInventory)
    );
    assert_eq!(
        Qwen3_5MtpArtifactCapability::from_shard_index(2, &packed_inventory(), &packed_inventory()),
        target_only(Qwen3_5MtpTargetOnlyReason::UnsupportedStoredLayerCount)
    );
    let mut extra = packed_inventory();
    extra.push("language_model.mtp.unknown.weight".to_string());
    assert_eq!(
        Qwen3_5MtpArtifactCapability::from_shard_index(1, &packed_inventory(), &extra),
        target_only(Qwen3_5MtpTargetOnlyReason::UnexpectedTensorInventory)
    );
    let missing = packed_inventory()[..3].to_vec();
    assert_eq!(
        Qwen3_5MtpArtifactCapability::from_shard_index(1, &packed_inventory(), &missing),
        target_only(Qwen3_5MtpTargetOnlyReason::IncompleteTensorInventory)
    );
    let capability = target_only(Qwen3_5MtpTargetOnlyReason::IncompleteTensorInventory);
    assert!(!capability.is_mtp_capable());
    assert_eq!(capability.artifact_maximum_draft_depth(), None);
    assert_eq!(capability.mtp_experts_layout(), None);
}

#[test]
fn fused_sidecar_inventory_replaces_the_packed_experts() {
    let fused = names(&[
        "language_model.mtp.fc.weight",
        "language_model.mtp.layers.0.mlp.gate.weight",
        "language_model.mtp.layers.0.mlp.experts.gate_up_proj",
        "language_model.mtp.layers.0.mlp.experts.down_proj",
    ]);
    let capability = Qwen3_5MtpArtifactCapability::from_canonical_tensor_names(
        1,
        &packed_inventory(),
        &name_set(&fused),
        None,
    );
    assert_eq!(capability.mtp_experts_layout(), Some(Qwen3_5MtpExpertsLayout::SidecarFusedPerExpert));
    assert!(capability.is_mtp_capable());
}

#[test]
fn contract_depths_are_kept_and_an_inadmissible_default_dropped() {
    let contract = Qwen3_5MtpContractDepths {
        artifact_maximum_depth: Some(depth(3)),
        artifact_default_depth: Some(depth(2)),
    };
    let capability = Qwen3_5MtpArtifactCapability::from_canonical_tensor_names(
        1,
        &packed_inventory(),
        &name_set(&packed_inventory()),
        Some(&contract),
    );
    assert_eq!(capability, capable(Some(3), Some(2)));
    assert_eq!(capability.artifact_maximum_draft_depth(), Some(depth(3)));
    assert_eq!(capability.artifact_default_draft_depth(), Some(depth(2)));

    let inverted = Qwen3_5MtpContractDepths {
        artifact_maximum_depth: Some(depth(1)),
        artifact_default_depth: Some(depth(2)),
    };
    let capability = Qwen3_5MtpArtifactCapability::from_canonical_tensor_names(
        1,
        &packed_inventory(),
        &name_set(&packed_inventory()),
        Some(&inverted),
    );
    assert_eq!(capability, capable(Some(1), None));
}

#[test]
fn target_only_reasons_describe_themselves() {
    assert_eq!(
        Qwen3_5MtpTargetOnlyReason::NoTensorInventory.description(),
        "model has no MTP tensor inventory"
    );
    assert_eq!(
        Qwen3_5MtpTargetOnlyReason::SidecarValidationFailed("missing fc".to_string()).description(),
        "missing fc"
    );
    let reason = Qwen3_5MtpTargetOnlyReason::ContractIncompatible;
    assert_eq!(reason.duplicate(), reason);
    assert_eq!(Qwen3_5MtpUnavailableReason::NoCompatibleHead.description(), "no compatible MTP head");
}

#[test]
fn runtime_state_is_disabled_without_the_preference() {
    let (state, reason, status) =
        qwen3_5_mtp_runtime_configuration_after_load(false, Some(depth(2)), &capable(Some(3), None), true);
    assert_eq!(state, Qwen3_5MtpRuntimeState::Disabled);
    assert_eq!(reason, None);
    assert_eq!(
        status,
        MtpDepthStatus {
            configured_draft_depth: Some(2),
            artifact_maximum_draft_depth: Some(3),
            artifact_default_draft_depth: None,
            resolved_requested_draft_depth: None,
            capped_draft_depth: None,
            effective_execution_draft_depth: None,
            resolution_reason: None,
        }
    );
}

#[test]
fn runtime_state_reports_a_target_only_artifact() {
    let capability = Qwen3_5MtpArtifactCapability::TargetOnly {
        reason: Qwen3_5MtpTargetOnlyReason::IncompleteTensorInventory,
    };
    assert_eq!(
        qwen3_5_mtp_runtime_state_after_load(true, &capability, false),
        (Qwen3_5MtpRuntimeState::TargetOnly, Some("MTP tensor inventory is incomplete".to_string()))
    );
}

#[test]
fn runtime_state_is_unavailable_without_loaded_weights() {
    let (state, reason, status) =
        qwen3_5_mtp_runtime_configuration_after_load(true, None, &capable(None, Some(2)), false);
    assert_eq!(state, Qwen3_5MtpRuntimeState::Unavailable);
    assert_eq!(reason, Some("no compatible MTP head".to_string()));
    assert_eq!(status.resolved_requested_draft_depth, Some(2));
    assert_eq!(status.capped_draft_depth, Some(2));
    assert_eq!(status.effective_execution_draft_depth, None);
}

#[test]
fn active_runtime_clamps_the_configured_depth_to_the_artifact_maximum() {
    let (state, reason, status) =
        qwen3_5_mtp_runtime_configuration_after_load(true, Some(depth(5)), &capable(Some(3), Some(2)), true);
    assert_eq!(state, Qwen3_5MtpRuntimeState::Active);
    assert_eq!(reason, None);
    assert_eq!(
        status,
        MtpDepthStatus {
            configured_draft_depth: Some(5),
            artifact_maximum_draft_depth: Some(3),
            artifact_default_draft_depth: Some(2),
            resolved_requested_draft_depth: Some(5),
            capped_draft_depth: Some(3),
            effective_execution_draft_depth: Some(3),
            resolution_reason: Some(MtpDepthResolutionReason::ConfiguredDepthClampedToArtifactMaximum),
        }
    );
}

#[test]
fn active_runtime_defaults_to_depth_one_and_flags_unguided_depths() {
    let (_, _, automatic) = qwen3_5_mtp_runtime_configuration_after_load(true, None, &capable(None, None), true);
    assert_eq!(automatic.effective_execution_draft_depth, Some(1));
    assert_eq!(automatic.resolution_reason, None);
    let (_, _, configured) =
        qwen3_5_mtp_runtime_configuration_after_load(true, Some(depth(2)), &capable(None, None), true);
    assert_eq!(configured.effective_execution_draft_depth, Some(2));
    assert_eq!(
        configured.resolution_reason,
        Some(MtpDepthResolutionReason::ConfiguredDepthExceedsAutomaticGuidance)
    );
}
