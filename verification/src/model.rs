//! Target-model contracts: forward inputs, chunking, tensor shapes, dtype flow and
//! memory-admission arithmetic.

pub mod chunking;
pub mod forward_contract;
pub mod dtype_flow;
pub mod tensor_contracts;
pub mod weights_validation;
pub mod memory_admission;
pub mod kernel_source;
pub mod shard_map;
pub mod evaluation_roots;
pub mod prefill_selection;
pub mod ceiling_utilization;
