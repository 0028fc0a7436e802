//! # decoders
//!
//! Decoder-only model family: the verified structural admission, geometry,
//! planning, and completion rules of Qwen3 and hybrid Qwen3.5 decoders.
//!
//! Every item of this library is proved against the contract in its header.
//! Numbers that only a floating-point kernel or a device can produce stay
//! outside: they enter as plain arguments.

pub mod allocation;
pub mod arrangement;
pub mod completion;
pub mod error;
pub mod float_bits;
pub mod gguf;
pub mod laws;
pub mod matrix;
pub mod native_batch;
pub mod native_demand;
pub mod native_model;
pub mod native_plan;
pub mod native_session;
pub mod native_weights;
pub mod payload;
pub mod qwen3;
pub mod qwen3_causal;
pub mod qwen3_execution;
pub mod qwen3_inventory;
pub mod qwen3_pass;
pub mod qwen3_token;
pub mod qwen35;
pub mod qwen35_attention;
pub mod qwen35_batch;
pub mod qwen35_execution;
pub mod qwen35_hybrid;
pub mod qwen35_inventory;
pub mod qwen35_mrope;
pub mod qwen35_recurrent;
pub mod qwen35_recurrent_pass;
pub mod qwen35_requirements;
pub mod qwen35_serial;
pub mod qwen35_session;
pub mod report;
pub mod text;

pub use crate::error::Error;
pub use crate::native_batch::{Qwen35NativeExecutionBatchPlan, Qwen35NativeExecutionSession};
pub use crate::native_demand::{Qwen35NativeExecutionDeviceDemand, Qwen35NativeLayerDeviceDemand};
pub use crate::native_session::Qwen35NativeSessionState;
pub use crate::qwen3_execution::{
    Qwen3CpuRequirements, Qwen3Execution, Qwen3RankWeights, Qwen3Weights,
};
pub use crate::qwen35::Qwen35StructuralProfile;
pub use crate::qwen35_batch::Qwen35BatchExecutionPlan;
pub use crate::qwen35_execution::Qwen35LogitSelection;
pub use crate::qwen35_recurrent::Qwen35RecurrentExecution;
pub use crate::qwen35_requirements::Qwen35CpuRequirements;
pub use crate::qwen35_session::{Qwen35Execution, Qwen35ExecutionPlan};
use vstd::prelude::*;

verus! {

/// The name of this library.
pub const CRATE_NAME: &'static str = "decoders";

} // verus!
