use model_serving::model::kernel_source::{
    gated_delta_kernel_source, qwen3_5_gated_delta_checkpoint_kernel_source,
    qwen3_5_gated_delta_kernel_source, CHECKPOINT_SETUP_MARKER, CHECKPOINT_WRITE_MARKER,
    GATED_DELTA_CHECKPOINT_SETUP_SOURCE, GATED_DELTA_CHECKPOINT_WRITE_SOURCE,
    GATED_DELTA_KERNEL_SOURCE,
};
use model_serving::model::shard_map::build_vision_tensor_shard_map;

#[test]
fn kernel_template_holds_each_marker_once() {
    assert_eq!(GATED_DELTA_KERNEL_SOURCE.matches(CHECKPOINT_SETUP_MARKER).count(), 1);
    assert_eq!(GATED_DELTA_KERNEL_SOURCE.matches(CHECKPOINT_WRITE_MARKER).count(), 1);
}

#[test]
fn kernel_source_replaces_both_markers() {
    let source = gated_delta_kernel_source("SETUP();", "WRITE();");
    assert_eq!(
        source,
        GATED_DELTA_KERNEL_SOURCE
            .replace(CHECKPOINT_SETUP_MARKER, "SETUP();")
            .replace(CHECKPOINT_WRITE_MARKER, "WRITE();")
    );
    assert!(!source.contains(CHECKPOINT_SETUP_MARKER));
    assert!(!source.contains(CHECKPOINT_WRITE_MARKER));
    assert!(source.find("SETUP();") < source.find("WRITE();"));
}

#[test]
fn ordinary_kernel_source_has_no_checkpoint_code() {
    let source = qwen3_5_gated_delta_kernel_source();
    assert_eq!(
        source.len(),
        GATED_DELTA_KERNEL_SOURCE.len() - CHECKPOINT_SETUP_MARKER.len() - CHECKPOINT_WRITE_MARKER.len()
    );
    assert!(!source.contains("checkpoint_index"));
}

#[test]
fn checkpoint_kernel_source_contains_the_checkpoint_code() {
    let source = qwen3_5_gated_delta_checkpoint_kernel_source();
    assert!(source.contains(GATED_DELTA_CHECKPOINT_SETUP_SOURCE));
    assert!(source.contains(GATED_DELTA_CHECKPOINT_WRITE_SOURCE));
    assert!(source.contains("recurrent_boundary_states"));
}

#[test]
fn replacing_a_pattern_that_overlaps_itself_scans_left_to_right() {
    let source = gated_delta_kernel_source(CHECKPOINT_WRITE_MARKER, "W");
    assert!(!source.contains(CHECKPOINT_WRITE_MARKER));
    assert_eq!(source.matches('W').count() >= 2, true);
}

#[test]
fn vision_tensors_map_to_their_shard_positions() {
    let tensors = vec![
        ("vision.patch_embed.weight".to_string(), "model-00002.safetensors".to_string()),
        ("vision.blocks.0.attn.qkv.weight".to_string(), "vision.safetensors".to_string()),
        ("vision.merger.weight".to_string(), "model-00001.safetensors".to_string()),
    ];
    let shards = vec![
        "model-00001.safetensors".to_string(),
        "model-00002.safetensors".to_string(),
        "model-00001.safetensors".to_string(),
    ];
    assert_eq!(
        build_vision_tensor_shard_map(&tensors, &shards),
        vec![
            ("vision.patch_embed.weight".to_string(), 1),
            ("vision.merger.weight".to_string(), 0),
        ]
    );
    assert!(build_vision_tensor_shard_map(&tensors, &[]).is_empty());
}
