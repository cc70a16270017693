//! Verified decision logic of the Qwen3.5 model-serving crate: multi-token
//! prediction (MTP) verification windows, artifact capability classification,
//! quantization-config resolution, tensor-shape contracts, decoder-cache dtype
//! flow, and the arithmetic behind memory admission and chunking.

pub mod error;
pub mod model;
pub mod mtp;
pub mod text;
pub mod quantization;
