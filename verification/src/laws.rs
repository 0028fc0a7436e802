//! What the operations of this library are for, as relations that every call of
//! them keeps.
//!
//! Each law speaks of the calls themselves, of their inputs and of their results,
//! so that a reader need not unfold the definitions that the contracts use.

pub mod attention;
pub mod errors;
pub mod execution;
pub mod hybrid;
pub mod inventory;
pub mod metadata;
pub mod native_batch;
pub mod native_model;
pub mod native_plan;
pub mod qwen35_artifact;
pub mod qwen3_artifact;
pub mod qwen3_pass;
pub mod receipts;
pub mod recurrent;
pub mod refusal;
pub mod reports;
pub mod session;
pub mod stored;
