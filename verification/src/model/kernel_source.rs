//! Metal source of the fused gated-delta sequence kernels.
//!
//! One template serves both kernels: the ordinary kernel removes the two checkpoint
//! markers, the boundary-checkpoint kernel fills them with its setup and write code.

use vstd::prelude::*;

use crate::text::{characters, occurs_at, string_from_characters};

verus! {

/// Marker replaced by the checkpoint kernel's setup code.
pub const CHECKPOINT_SETUP_MARKER: &'static str = "/* ASTRONOMICAL_CHECKPOINT_SETUP */";

/// Marker replaced by the checkpoint kernel's per-token write code.
pub const CHECKPOINT_WRITE_MARKER: &'static str = "/* ASTRONOMICAL_CHECKPOINT_WRITE */";

/// Body of the fused gated-delta sequence kernel, with both checkpoint markers.
pub const GATED_DELTA_KERNEL_SOURCE: &'static str = r#"
    constexpr int time_block_size = sizeof(InT) == 4 ? 16 : 32;
    constexpr int value_row_block_size = 32;
    auto thread_index = thread_position_in_threadgroup.x;
    auto value_row_block = threadgroup_position_in_grid.x;
    auto value_head_index = threadgroup_position_in_grid.y;
    auto batch_index = threadgroup_position_in_grid.z;
    auto key_head_index = value_head_index / (Hv / Hk);
    auto first_value_row = value_row_block * value_row_block_size;

    auto value_row_in_block = thread_index / 8;
    auto key_segment_index = thread_index % 8;
    auto first_key_dimension = key_segment_index * 16;

    threadgroup InT staged_keys[time_block_size][Dk + 8];
    threadgroup InT staged_queries[time_block_size][Dk + 8];
    threadgroup InT staged_values[time_block_size][value_row_block_size + 8];
    threadgroup float staged_decays[time_block_size];
    threadgroup float staged_update_rates[time_block_size];

    auto key_base = keys +
        ((size_t)batch_index * token_count * Hk + key_head_index) * Dk;
    auto query_base = queries +
        ((size_t)batch_index * token_count * Hk + key_head_index) * Dk;
    auto value_base = values +
        ((size_t)batch_index * token_count * Hv + value_head_index) * Dv +
        first_value_row;
    auto key_row_stride = (size_t)Hk * Dk;

    float4 state_fragment[4];
    {
        auto input_state = (const device float4*)(recurrent_state +
            (((size_t)batch_index * Hv + value_head_index) * Dv +
             first_value_row + value_row_in_block) * Dk + first_key_dimension);
        for (int fragment_index = 0; fragment_index < 4; ++fragment_index) {
            state_fragment[fragment_index] = input_state[fragment_index];
        }
    }

    auto output_base = outputs +
        ((size_t)batch_index * token_count * Hv + value_head_index) * Dv +
        first_value_row;

    /* ASTRONOMICAL_CHECKPOINT_SETUP */
    for (int first_token = 0; first_token < token_count;
         first_token += time_block_size) {
        auto tokens_in_block = min(time_block_size, token_count - first_token);
        for (int staged_index = thread_index;
             staged_index < tokens_in_block * Dk;
             staged_index += 256) {
            auto token_in_block = staged_index / Dk;
            auto key_dimension = staged_index % Dk;
            staged_keys[token_in_block][key_dimension] =
                key_base[(size_t)(first_token + token_in_block) * key_row_stride +
                         key_dimension];
            staged_queries[token_in_block][key_dimension] =
                query_base[(size_t)(first_token + token_in_block) * key_row_stride +
                           key_dimension];
        }
        for (int staged_index = thread_index;
             staged_index < tokens_in_block * value_row_block_size;
             staged_index += 256) {
            auto token_in_block = staged_index / value_row_block_size;
            auto value_row = staged_index % value_row_block_size;
            staged_values[token_in_block][value_row] =
                value_base[(size_t)(first_token + token_in_block) * Hv * Dv +
                           value_row];
        }
        for (int token_in_block = thread_index;
             token_in_block < tokens_in_block;
             token_in_block += 256) {
            staged_decays[token_in_block] =
                decays[((size_t)batch_index * token_count + first_token +
                        token_in_block) * Hv + value_head_index];
            staged_update_rates[token_in_block] =
                update_rates[((size_t)batch_index * token_count + first_token +
                              token_in_block) * Hv + value_head_index];
        }
        threadgroup_barrier(mem_flags::mem_threadgroup);

        for (int token_in_block = 0; token_in_block < tokens_in_block;
             ++token_in_block) {
            auto key_vectors = (const threadgroup vec<InT, 4>*)
                &staged_keys[token_in_block][first_key_dimension];
            auto query_vectors = (const threadgroup vec<InT, 4>*)
                &staged_queries[token_in_block][first_key_dimension];
            float4 float_keys[4];
            for (int fragment_index = 0; fragment_index < 4; ++fragment_index) {
                float_keys[fragment_index] = float4(key_vectors[fragment_index]);
            }

            float4 remembered_fragments = 0.0f;
            for (int fragment_index = 0; fragment_index < 4; ++fragment_index) {
                state_fragment[fragment_index] *= staged_decays[token_in_block];
                remembered_fragments +=
                    state_fragment[fragment_index] * float_keys[fragment_index];
            }
            float remembered_value = remembered_fragments.x + remembered_fragments.y +
                remembered_fragments.z + remembered_fragments.w;
            remembered_value += simd_shuffle_down(remembered_value, 4);
            remembered_value += simd_shuffle_down(remembered_value, 2);
            remembered_value += simd_shuffle_down(remembered_value, 1);
            remembered_value = simd_shuffle(
                remembered_value,
                (thread_index % 32) / 8 * 8);
            auto delta =
                ((float)staged_values[token_in_block][value_row_in_block] -
                 remembered_value) * staged_update_rates[token_in_block];

            float4 output_fragments = 0.0f;
            for (int fragment_index = 0; fragment_index < 4; ++fragment_index) {
                state_fragment[fragment_index] += float_keys[fragment_index] * delta;
                output_fragments += state_fragment[fragment_index] *
                    float4(query_vectors[fragment_index]);
            }
            /* ASTRONOMICAL_CHECKPOINT_WRITE */
            float output_value = output_fragments.x + output_fragments.y +
                output_fragments.z + output_fragments.w;
            output_value += simd_shuffle_down(output_value, 4);
            output_value += simd_shuffle_down(output_value, 2);
            output_value += simd_shuffle_down(output_value, 1);
            if (key_segment_index == 0) {
                output_base[(size_t)(first_token + token_in_block) * Hv * Dv +
                            value_row_in_block] = (InT)output_value;
            }
        }
        threadgroup_barrier(mem_flags::mem_threadgroup);
    }

    {
        auto output_state = (device float4*)(next_recurrent_state +
            (((size_t)batch_index * Hv + value_head_index) * Dv +
             first_value_row + value_row_in_block) * Dk + first_key_dimension);
        for (int fragment_index = 0; fragment_index < 4; ++fragment_index) {
            output_state[fragment_index] = state_fragment[fragment_index];
        }
    }
"#;

/// Setup code of the boundary-checkpoint kernel.
pub const GATED_DELTA_CHECKPOINT_SETUP_SOURCE: &'static str = r#"
    int checkpoint_index = 0;
    int next_checkpoint_token_count = first_checkpoint_token_count;
"#;

/// Per-token code that snapshots the recurrent state at each checkpoint boundary.
pub const GATED_DELTA_CHECKPOINT_WRITE_SOURCE: &'static str = r#"
            auto completed_token_count = first_token + token_in_block + 1;
            if (checkpoint_index < checkpoint_count &&
                completed_token_count == next_checkpoint_token_count) {
                auto checkpoint_state = (device float4*)(recurrent_boundary_states +
                    (((((size_t)checkpoint_index * B + batch_index) * Hv +
                       value_head_index) * Dv + first_value_row + value_row_in_block) *
                     Dk + first_key_dimension));
                for (int fragment_index = 0; fragment_index < 4; ++fragment_index) {
                    checkpoint_state[fragment_index] = state_fragment[fragment_index];
                }
                ++checkpoint_index;
                next_checkpoint_token_count += checkpoint_interval_token_count;
            }
"#;

/// `text` with every non-overlapping occurrence of `pattern`, scanned left to right,
/// replaced by `replacement`.
pub open spec fn replaced(text: Seq<char>, pattern: Seq<char>, replacement: Seq<char>) -> Seq<char>
    decreases text.len(),
{
    if pattern.len() == 0 || text.len() < pattern.len() {
        text
    } else if text.subrange(0, pattern.len() as int) == pattern {
        replacement + replaced(text.subrange(pattern.len() as int, text.len() as int), pattern, replacement)
    } else {
        seq![text[0]] + replaced(text.subrange(1, text.len() as int), pattern, replacement)
    }
}

fn append_characters(out: &mut Vec<char>, chars: &Vec<char>)
    ensures
        final(out)@ == old(out)@ + chars@,
{
    let mut index: usize = 0;
    while index < chars.len()
        invariant
            index <= chars@.len(),
            out@ == old(out)@ + chars@.subrange(0, index as int),
        decreases chars.len() - index,
    {
        out.push(chars[index]);
        index += 1;
        assert(out@ =~= old(out)@ + chars@.subrange(0, index as int));
    }
    assert(chars@.subrange(0, index as int) =~= chars@);
}

/// Replaces every non-overlapping occurrence of a non-empty `pattern`, left to right.
fn replace_all(text: &str, pattern: &str, replacement: &str) -> (result: String)
    requires
        pattern@.len() > 0,
    ensures
        result@ == replaced(text@, pattern@, replacement@),
{
    let text_chars = characters(text);
    let pattern_chars = characters(pattern);
    let replacement_chars = characters(replacement);
    let length = text_chars.len();
    let pattern_length = pattern_chars.len();
    let mut out: Vec<char> = Vec::new();
    let mut index: usize = 0;
    assert(text@.subrange(0, length as int) =~= text@);
    assert(out@ + replaced(text@, pattern@, replacement@) =~= replaced(text@, pattern@, replacement@));
    while index < length
        invariant
            text_chars@ == text@,
            pattern_chars@ == pattern@,
            replacement_chars@ == replacement@,
            length == text@.len(),
            pattern_length == pattern@.len(),
            pattern_length > 0,
            index <= length,
            replaced(text@, pattern@, replacement@) == out@ + replaced(
                text@.subrange(index as int, length as int),
                pattern@,
                replacement@,
            ),
        decreases length - index,
    {
        let ghost rest = text@.subrange(index as int, length as int);
        if pattern_length <= length - index && occurs_at(&text_chars, &pattern_chars, index) {
            assert(rest.subrange(0, pattern_length as int) =~= text@.subrange(
                index as int,
                index + pattern_length,
            ));
            assert(rest.subrange(pattern_length as int, rest.len() as int) =~= text@.subrange(
                index + pattern_length,
                length as int,
            ));
            let ghost before = out@;
            append_characters(&mut out, &replacement_chars);
            assert(out@ + replaced(text@.subrange(index + pattern_length, length as int), pattern@, replacement@)
                =~= before + replaced(rest, pattern@, replacement@));
            index += pattern_length;
        } else {
            assert(rest.subrange(1, rest.len() as int) =~= text@.subrange(index + 1, length as int));
            if pattern_length <= length - index {
                assert(rest.subrange(0, pattern_length as int) =~= text@.subrange(
                    index as int,
                    index + pattern_length,
                ));
            }
            let ghost before = out@;
            out.push(text_chars[index]);
            assert(out@ + replaced(text@.subrange(index + 1, length as int), pattern@, replacement@)
                =~= before + replaced(rest, pattern@, replacement@));
            index += 1;
        }
    }
    assert(text@.subrange(length as int, length as int) =~= Seq::<char>::empty());
    assert(out@ + Seq::<char>::empty() =~= out@);
    string_from_characters(&out)
}

/// The kernel body with the setup marker replaced by `checkpoint_setup_source`, then
/// the write marker by `checkpoint_write_source`.
pub open spec fn kernel_source_with(setup: Seq<char>, write: Seq<char>) -> Seq<char> {
    replaced(
        replaced(GATED_DELTA_KERNEL_SOURCE@, CHECKPOINT_SETUP_MARKER@, setup),
        CHECKPOINT_WRITE_MARKER@,
        write,
    )
}

/// Instantiates the gated-delta kernel template with checkpoint setup and write code.
pub fn gated_delta_kernel_source(checkpoint_setup_source: &str, checkpoint_write_source: &str) -> (source: String)
    ensures
        source@ == kernel_source_with(checkpoint_setup_source@, checkpoint_write_source@),
{
    proof {
        reveal_strlit("/* ASTRONOMICAL_CHECKPOINT_SETUP */");
        reveal_strlit("/* ASTRONOMICAL_CHECKPOINT_WRITE */");
    }
    let with_setup = replace_all(GATED_DELTA_KERNEL_SOURCE, CHECKPOINT_SETUP_MARKER, checkpoint_setup_source);
    replace_all(with_setup.as_str(), CHECKPOINT_WRITE_MARKER, checkpoint_write_source)
}

/// Source of the ordinary fused gated-delta kernel: the template without checkpoint code.
pub fn qwen3_5_gated_delta_kernel_source() -> (source: String)
    ensures
        source@ == kernel_source_with(Seq::<char>::empty(), Seq::<char>::empty()),
{
    proof {
        reveal_strlit("");
        assert(""@ =~= Seq::<char>::empty());
    }
    gated_delta_kernel_source("", "")
}

/// Source of the boundary-checkpoint kernel: the template with the checkpoint setup and
/// write code.
pub fn qwen3_5_gated_delta_checkpoint_kernel_source() -> (source: String)
    ensures
        source@ == kernel_source_with(
            GATED_DELTA_CHECKPOINT_SETUP_SOURCE@,
            GATED_DELTA_CHECKPOINT_WRITE_SOURCE@,
        ),
{
    gated_delta_kernel_source(GATED_DELTA_CHECKPOINT_SETUP_SOURCE, GATED_DELTA_CHECKPOINT_WRITE_SOURCE)
}

} // verus!
