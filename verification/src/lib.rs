//! Provisioning and toy inference for hub-hosted language models.
//!
//! The crate resolves a compute device with graceful CPU fallback, maps model
//! identifiers to their artifact filenames, plans and validates artifact
//! fetches against a local cache, adapts a black-box tokenizer, and runs a
//! minimal embed / pool / project / argmax pipeline that predicts a single
//! next token.

pub mod api;
pub mod codec;
pub mod compute_device;
pub mod errors;
pub mod hf_repo;
pub mod pipeline;
