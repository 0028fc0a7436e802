//! Typed failures at decoder structural-admission and execution boundaries.

use crate::gguf::{GgmlType, MetaValueType};
use std::collections::TryReserveError;
use vstd::prelude::*;

verus! {

/// Why a stored row could not be read or multiplied.
#[derive(Clone, Copy, Debug, PartialEq, Eq, Structural)]
pub enum RowFault {
    /// A stored weight is not finite.
    NonFiniteWeight {
        /// Index of the weight in its row.
        index: usize,
    },
    /// The row's bytes or its result have no value.
    Unreadable,
}

/// Decoder observation, planning, and execution failures.
#[derive(Debug)]
#[allow(inconsistent_fields)]
#[non_exhaustive]
pub enum Error {
    /// A required architecture metadata key was absent.
    MissingMetadata {
        /// Exact GGUF key required by the structural contract.
        key: &'static str,
    },
    /// A metadata key had an incompatible GGUF value type.
    MetadataType {
        /// Exact GGUF key required by the structural contract.
        key: &'static str,
        /// Required GGUF value type.
        expected: &'static str,
        /// Parsed value type supplied by the observed artifact.
        actual: MetaValueType,
    },
    /// A typed metadata value did not meet a structural relation.
    MetadataRelation {
        /// Exact GGUF key responsible for the failure.
        key: &'static str,
        /// Relation that the value must satisfy.
        rule: &'static str,
    },
    /// A tensor required by the structural contract was absent.
    MissingTensor {
        /// Tensor role and block index expected by the profile.
        name: String,
    },
    /// A tensor name appeared more than once.
    DuplicateTensor {
        /// Duplicate tensor name.
        name: String,
    },
    /// A tensor is not part of the recognized structural role set.
    UnclassifiedTensor {
        /// Unexpected tensor name.
        name: String,
    },
    /// A recognized tensor had a shape inconsistent with typed metadata.
    TensorShape {
        /// Tensor name.
        name: String,
        /// Shape derived from typed architecture metadata.
        expected: Vec<u64>,
        /// Shape recorded in the observation.
        actual: Vec<u64>,
    },
    /// An execution request, bound, or private shape is invalid.
    ExecutionContext {
        /// Requested token count, position, or extent.
        requested: usize,
        /// Relation that the request must satisfy.
        rule: &'static str,
    },
    /// A token id is outside the artifact vocabulary.
    ExecutionToken {
        /// Refused token id.
        token_id: u32,
        /// Number of vocabulary entries.
        vocabulary: usize,
    },
    /// A batch of independently owned executions is invalid.
    ExecutionBatch {
        /// Position of the refused sequence.
        sequence: usize,
        /// Relation that the batch must satisfy.
        rule: &'static str,
    },
    /// A checked host allocation was refused.
    ExecutionAllocation {
        /// What the allocation was for.
        target: &'static str,
        /// Requested number of elements.
        length: usize,
        /// What the allocator answered.
        source: TryReserveError,
    },
    /// A derived extent differs from its admitted plan.
    ExecutionAllocationPlan {
        /// Which extent was checked.
        target: &'static str,
        /// Planned number of elements.
        planned: usize,
        /// Derived number of elements.
        derived: usize,
    },
    /// An execution stage produced a non-finite value.
    ExecutionArithmetic {
        /// Stage that produced the value.
        stage: &'static str,
        /// Index of the value.
        index: usize,
    },
    /// The payload holds no tensor of a name.
    PayloadTensor {
        /// Requested tensor name.
        name: String,
    },
    /// A tensor payload has an unsupported storage type.
    ProjectionDtype {
        /// Tensor name.
        name: String,
        /// Recorded storage type.
        actual: GgmlType,
    },
    /// A row of a tensor payload cannot be read.
    ProjectionRow {
        /// Tensor name.
        name: String,
        /// Row that cannot be read.
        row: usize,
        /// What is wrong with the row.
        source: RowFault,
    },
    /// A tensor payload has the wrong number of bytes.
    ProjectionBytes {
        /// Tensor name.
        name: String,
        /// Expected number of bytes.
        expected: usize,
        /// Stored number of bytes.
        actual: usize,
    },
    /// A projected tensor is not a matrix.
    ProjectionRank {
        /// Tensor name.
        name: String,
        /// Number of dimensions it has.
        actual: usize,
    },
    /// A matrix row has no serialized layout in its storage type.
    ProjectionLayout {
        /// Tensor name.
        name: String,
    },
    /// A matrix operand or row index is outside the matrix.
    ProjectionInputWidth {
        /// Tensor name.
        name: String,
        /// Admitted width or row count.
        expected: usize,
        /// Supplied width or row index.
        actual: usize,
    },
    /// A projection output allocation was refused.
    ProjectionAllocation {
        /// Tensor name.
        name: String,
        /// Requested number of values.
        output_width: usize,
        /// What the allocator answered.
        source: TryReserveError,
    },
    /// A Qwen3 metadata value is outside the bounded profile.
    Qwen3Metadata {
        /// Exact GGUF key responsible for the failure.
        key: &'static str,
        /// Relation that the value must satisfy.
        rule: &'static str,
    },
    /// A Qwen3 tensor is outside the bounded profile.
    Qwen3Tensor {
        /// Tensor name.
        name: String,
        /// Relation that the tensor must satisfy.
        rule: &'static str,
    },
    /// A Qwen3 execution request or extent is invalid.
    Qwen3Execution {
        /// Requested extent.
        requested: usize,
        /// Relation that the request must satisfy.
        rule: &'static str,
    },
    /// A Qwen3 stage produced a non-finite value.
    Qwen3Arithmetic {
        /// Stage that produced the value.
        stage: &'static str,
        /// Index of the value.
        index: usize,
    },
    /// A Qwen3 host allocation was refused.
    Qwen3Allocation {
        /// What the allocation was for.
        target: &'static str,
        /// Requested number of elements.
        length: usize,
        /// What the allocator answered.
        source: TryReserveError,
    },
    /// A recurrent input has the wrong extent.
    RecurrentInput {
        /// Row width that the input must have.
        hidden: usize,
        /// Supplied number of values.
        actual: usize,
    },
    /// A block index names no recurrent main block.
    RecurrentLayer {
        /// Refused block index.
        block_index: u64,
        /// Relation that the index must satisfy.
        rule: &'static str,
    },
    /// A recurrent host allocation was refused.
    RecurrentAllocation {
        /// What the allocation was for.
        target: &'static str,
        /// Requested number of elements.
        length: usize,
        /// What the allocator answered.
        source: TryReserveError,
    },
    /// A recurrent stage produced a non-finite value.
    RecurrentArithmetic {
        /// Stage that produced the value.
        stage: &'static str,
        /// Index of the value.
        index: usize,
    },
    /// A native session or plan is not in the state that a request needs.
    NativeSessionState {
        /// Relation that the session or plan must satisfy.
        rule: &'static str,
    },
    /// A checked arithmetic operation required to derive an extent overflowed.
    ArithmeticOverflow {
        /// Relation that overflowed.
        context: &'static str,
    },
}

impl Error {
    /// Whether the error is a refused execution allocation of a length for a target.
    pub open spec fn execution_allocation(self, target: &'static str, length: usize) -> bool {
        self matches Error::ExecutionAllocation { target: named, length: asked, .. } && named
            == target && asked == length
    }

    /// Whether the error is a refused recurrent allocation of a length for a target.
    pub open spec fn recurrent_allocation(self, target: &'static str, length: usize) -> bool {
        self matches Error::RecurrentAllocation { target: named, length: asked, .. } && named
            == target && asked == length
    }

    /// Whether the error is a refused Qwen3 allocation of a length for a target.
    pub open spec fn qwen3_allocation(self, target: &'static str, length: usize) -> bool {
        self matches Error::Qwen3Allocation { target: named, length: asked, .. } && named
            == target && asked == length
    }
}

} // verus!
