//! The order, buffers, and checks of one full-attention block and of the residual
//! and feed-forward tail that finishes every layer.
//!
//! A kernel computes the values, given as `f32` bit patterns; a pass says which
//! come next and admits only values of the planned extents.

use crate::allocation::reserve;
use crate::error::Error;
use crate::gguf::VerifiedArtifact;
use crate::qwen35::{
    ATTN_K_ROLE, ATTN_OUTPUT_ROLE, ATTN_Q_ROLE, ATTN_V_ROLE, FFN_DOWN_ROLE, FFN_GATE_ROLE, FFN_UP_ROLE,
};
use crate::qwen35_execution;
use crate::qwen35_execution::{
    block_name, ensure_execution_plan, extend_window, finite, read_f32, split_query_gate,
    FullAttentionWorkspaceAllocations, Layout, LayerFinishWorkspaceAllocations, PagedDecodePlan,
};
use crate::qwen35_session::FullAttentionStep;
use crate::text;
use vstd::prelude::*;
use vstd::slice::slice_subrange;

verus! {

/// The error of an extent that differs from its plan.
pub open spec fn plan_error(target: &'static str, derived: int, planned: usize) -> Error {
    Error::ExecutionAllocationPlan { target, planned, derived: derived as usize }
}

/// Whether an error names the first value of a stage that is not finite.
pub open spec fn nonfinite_error(values: Seq<u32>, stage: &'static str, error: Error) -> bool {
    error matches Error::ExecutionArithmetic { stage: at, index } && at == stage
        && qwen35_execution::first_nonfinite(values, index as int)
}

/// What a full-attention pass waits for next.
#[derive(Clone, Copy, Debug, PartialEq, Eq, Structural)]
pub enum AttentionStage {
    /// The normalized input row.
    Normalize,
    /// The interleaved query and gate projection.
    ProjectQueryGate,
    /// The key projection.
    ProjectKey,
    /// The value projection.
    ProjectValue,
    /// The query and its gate, split per head.
    Split,
    /// The query, normalized per head.
    NormalizeQuery,
    /// The key, normalized per head.
    NormalizeKey,
    /// The rotated query.
    RotateQuery,
    /// The rotated key.
    RotateKey,
    /// The appended key and value row.
    Append,
    /// The gated attention output of a query head.
    Attend { head: usize },
    /// The output projection.
    ProjectOutput,
    /// Nothing: the block's attention output is ready.
    Finished,
}

/// What a full-attention pass holds.
pub struct AttentionModel {
    /// The geometry of the artifact.
    pub layout: Layout,
    /// Which block and which row the pass is for.
    pub step: FullAttentionStep,
    /// What the pass waits for.
    pub stage: AttentionStage,
    /// The normalized input row.
    pub normalized: Seq<u32>,
    /// The query: projected with its gate, then split, then normalized, then rotated.
    pub query: Seq<u32>,
    /// The output gate.
    pub gate: Seq<u32>,
    /// The key: projected, then normalized, then rotated.
    pub key: Seq<u32>,
    /// The value.
    pub value: Seq<u32>,
    /// The gated outputs of the heads so far.
    pub merged: Seq<u32>,
    /// The projected output.
    pub output: Seq<u32>,
}

impl AttentionModel {
    /// The name of the matrix that the pass waits for, and the row it is applied to.
    pub open spec fn projected(self) -> Option<(Seq<char>, Seq<u32>)> {
        let block = self.step.block as nat;
        match self.stage {
            AttentionStage::ProjectQueryGate => Some(
                (text::block_name_spec(block, ATTN_Q_ROLE@), self.normalized),
            ),
            AttentionStage::ProjectKey => Some(
                (text::block_name_spec(block, ATTN_K_ROLE@), self.normalized),
            ),
            AttentionStage::ProjectValue => Some(
                (text::block_name_spec(block, ATTN_V_ROLE@), self.normalized),
            ),
            AttentionStage::ProjectOutput => Some(
                (text::block_name_spec(block, ATTN_OUTPUT_ROLE@), self.merged),
            ),
            _ => None,
        }
    }

    /// Whether the buffers have their planned extents once they are filled.
    pub open spec fn wf(self) -> bool {
        let layout = self.layout;
        let order = attention_order(self.stage);
        &&& layout.wf()
        &&& self.step.position < layout.max_context
        &&& 2 * layout.query_width <= usize::MAX
        &&& order > 0 ==> self.normalized.len() == layout.hidden
        &&& 1 < order <= 4 ==> self.query.len() == 2 * layout.query_width
        &&& order > 4 ==> self.query.len() == layout.query_width && self.gate.len()
            == layout.query_width
        &&& order > 2 ==> self.key.len() == layout.kv_width
        &&& order > 3 ==> self.value.len() == layout.kv_width
        &&& self.stage matches AttentionStage::Attend { head } ==> head < layout.heads
    }
}

/// The place of a stage in the order of a full-attention pass.
pub open spec fn attention_order(stage: AttentionStage) -> int {
    match stage {
        AttentionStage::Normalize => 0,
        AttentionStage::ProjectQueryGate => 1,
        AttentionStage::ProjectKey => 2,
        AttentionStage::ProjectValue => 3,
        AttentionStage::Split => 4,
        AttentionStage::NormalizeQuery => 5,
        AttentionStage::NormalizeKey => 6,
        AttentionStage::RotateQuery => 7,
        AttentionStage::RotateKey => 8,
        AttentionStage::Append => 9,
        AttentionStage::Attend { head } => 10,
        AttentionStage::ProjectOutput => 11,
        AttentionStage::Finished => 12,
    }
}

/// One full-attention block call, between two of its stages.
#[derive(Debug)]
pub struct AttentionPass {
    layout: Layout,
    step: FullAttentionStep,
    stage: AttentionStage,
    normalized: Vec<u32>,
    query: Vec<u32>,
    gate: Vec<u32>,
    key: Vec<u32>,
    value: Vec<u32>,
    merged: Vec<u32>,
    output: Vec<u32>,
}

impl View for AttentionPass {
    type V = AttentionModel;

    closed spec fn view(&self) -> AttentionModel {
        AttentionModel {
            layout: self.layout,
            step: self.step,
            stage: self.stage,
            normalized: self.normalized@,
            query: self.query@,
            gate: self.gate@,
            key: self.key@,
            value: self.value@,
            merged: self.merged@,
            output: self.output@,
        }
    }
}

/// Why a full-attention pass cannot begin, if it cannot.
pub open spec fn attention_failure(
    layout: Layout,
    step: FullAttentionStep,
    paged_decode: PagedDecodePlan,
) -> Option<Error> {
    if step.position == usize::MAX {
        Some(Error::ArithmeticOverflow { context: "full-attention token count" })
    } else {
        FullAttentionWorkspaceAllocations::failure(layout, paged_decode)
    }
}

impl AttentionPass {
    #[verifier::type_invariant]
    spec fn checked(self) -> bool {
        self@.wf()
    }

    /// Begin a full-attention block call at a position, with the attention plan of
    /// the position's visible tokens.
    pub fn begin(layout: Layout, step: FullAttentionStep, paged_decode: PagedDecodePlan) -> (pass:
        Result<AttentionPass, Error>)
        requires
            layout.wf(),
            step.position < layout.max_context,
        ensures
            match pass {
                Ok(pass) => {
                    &&& attention_failure(layout, step, paged_decode) is None
                    &&& pass@ == (AttentionModel {
                        layout,
                        step,
                        stage: AttentionStage::Normalize,
                        normalized: seq![],
                        query: seq![],
                        gate: seq![],
                        key: seq![],
                        value: seq![],
                        merged: seq![],
                        output: seq![],
                    })
                },
                Err(error) => attention_failure(layout, step, paged_decode) == Some(error),
            },
    {
        if step.position == usize::MAX {
            return Err(Error::ArithmeticOverflow { context: "full-attention token count" });
        }
        FullAttentionWorkspaceAllocations::try_from_layout(layout, paged_decode)?;
        Ok(
            AttentionPass {
                layout,
                step,
                stage: AttentionStage::Normalize,
                normalized: Vec::new(),
                query: Vec::new(),
                gate: Vec::new(),
                key: Vec::new(),
                value: Vec::new(),
                merged: Vec::new(),
                output: Vec::new(),
            },
        )
    }

    /// Say what the pass waits for.
    pub fn stage(&self) -> (stage: AttentionStage)
        ensures
            stage == self@.stage,
            self@.wf(),
    {
        proof {
            use_type_invariant(self);
        }
        self.stage
    }

    /// Say which stored matrix the pass waits for, and which row it is applied to.
    pub fn projection(&self) -> (projection: Option<(String, &[u32])>)
        ensures
            match projection {
                Some((name, row)) => {
                    let block = "blk."@ + text::decimal(self@.step.block as nat) + "."@;
                    &&& self@.projected() == Some((name@, row@))
                    &&& match self@.stage {
                        AttentionStage::ProjectQueryGate => name@ == block + "attn_q.weight"@,
                        AttentionStage::ProjectKey => name@ == block + "attn_k.weight"@,
                        AttentionStage::ProjectValue => name@ == block + "attn_v.weight"@,
                        _ => name@ == block + "attn_output.weight"@,
                    }
                },
                None => self@.projected() is None,
            },
    {
        let block: usize = self.step.block;
        match self.stage {
            AttentionStage::ProjectQueryGate => Some(
                (block_name(block, ATTN_Q_ROLE), self.normalized.as_slice()),
            ),
            AttentionStage::ProjectKey => Some(
                (block_name(block, ATTN_K_ROLE), self.normalized.as_slice()),
            ),
            AttentionStage::ProjectValue => Some(
                (block_name(block, ATTN_V_ROLE), self.normalized.as_slice()),
            ),
            AttentionStage::ProjectOutput => Some(
                (block_name(block, ATTN_OUTPUT_ROLE), self.merged.as_slice()),
            ),
            _ => None,
        }
    }

    /// Read the normalization vector of the block's input row.
    pub fn read_input_norm(&self, artifact: &VerifiedArtifact) -> (norm: Result<Vec<u32>, Error>)
        ensures
            parameter_read(*artifact, self@, "attn_norm.weight", self@.layout.hidden, norm),
    {
        read_block_vector(artifact, self.step.block, "attn_norm.weight", self.layout.hidden)
    }

    /// Read the normalization vector of a query head.
    pub fn read_query_norm(&self, artifact: &VerifiedArtifact) -> (norm: Result<Vec<u32>, Error>)
        ensures
            parameter_read(*artifact, self@, "attn_q_norm.weight", self@.layout.key, norm),
    {
        read_block_vector(artifact, self.step.block, "attn_q_norm.weight", self.layout.key)
    }

    /// Read the normalization vector of a key head.
    pub fn read_key_norm(&self, artifact: &VerifiedArtifact) -> (norm: Result<Vec<u32>, Error>)
        ensures
            parameter_read(*artifact, self@, "attn_k_norm.weight", self@.layout.key, norm),
    {
        read_block_vector(artifact, self.step.block, "attn_k_norm.weight", self.layout.key)
    }

    /// Take the normalized input row.
    pub fn normalize(self, normalized: Vec<u32>) -> (pass: Result<AttentionPass, Error>)
        requires
            self@.stage == AttentionStage::Normalize,
        ensures
            match pass {
                Ok(pass) => {
                    &&& normalized@.len() == self@.layout.hidden
                    &&& pass@ == (AttentionModel {
                        stage: AttentionStage::ProjectQueryGate,
                        normalized: normalized@,
                        ..self@
                    })
                },
                Err(error) => {
                    &&& normalized@.len() != self@.layout.hidden
                    &&& error == plan_error(
                        "full-attention normalized input",
                        normalized@.len() as int,
                        self@.layout.hidden,
                    )
                },
            },
    {
        proof {
            use_type_invariant(&self);
        }
        ensure_execution_plan("full-attention normalized input", normalized.len(), self.layout.hidden)?;
        Ok(
            AttentionPass {
                layout: self.layout,
                step: self.step,
                stage: AttentionStage::ProjectQueryGate,
                normalized,
                query: self.query,
                gate: self.gate,
                key: self.key,
                value: self.value,
                merged: self.merged,
                output: self.output,
            },
        )
    }

    /// Take the interleaved query and gate projection.
    pub fn project_query_gate(self, projection: Vec<u32>) -> (pass: Result<AttentionPass, Error>)
        requires
            self@.stage == AttentionStage::ProjectQueryGate,
        ensures
            match pass {
                Ok(pass) => {
                    &&& projection@.len() == 2 * self@.layout.query_width
                    &&& pass@ == (AttentionModel {
                        stage: AttentionStage::ProjectKey,
                        query: projection@,
                        ..self@
                    })
                },
                Err(error) => {
                    &&& projection@.len() != 2 * self@.layout.query_width
                    &&& error == plan_error(
                        "matrix projection",
                        projection@.len() as int,
                        (2 * self@.layout.query_width) as usize,
                    )
                },
            },
    {
        proof {
            use_type_invariant(&self);
        }
        let planned: usize = 2 * self.layout.query_width;
        ensure_execution_plan("matrix projection", projection.len(), planned)?;
        Ok(
            AttentionPass {
                layout: self.layout,
                step: self.step,
                stage: AttentionStage::ProjectKey,
                normalized: self.normalized,
                query: projection,
                gate: self.gate,
                key: self.key,
                value: self.value,
                merged: self.merged,
                output: self.output,
            },
        )
    }

    /// Take the key projection.
    pub fn project_key(self, key: Vec<u32>) -> (pass: Result<AttentionPass, Error>)
        requires
            self@.stage == AttentionStage::ProjectKey,
        ensures
            match pass {
                Ok(pass) => {
                    &&& key@.len() == self@.layout.kv_width
                    &&& pass@ == (AttentionModel {
                        stage: AttentionStage::ProjectValue,
                        key: key@,
                        ..self@
                    })
                },
                Err(error) => {
                    &&& key@.len() != self@.layout.kv_width
                    &&& error == plan_error(
                        "matrix projection",
                        key@.len() as int,
                        self@.layout.kv_width,
                    )
                },
            },
    {
        proof {
            use_type_invariant(&self);
        }
        ensure_execution_plan("matrix projection", key.len(), self.layout.kv_width)?;
        Ok(
            AttentionPass {
                layout: self.layout,
                step: self.step,
                stage: AttentionStage::ProjectValue,
                normalized: self.normalized,
                query: self.query,
                gate: self.gate,
                key,
                value: self.value,
                merged: self.merged,
                output: self.output,
            },
        )
    }

    /// Take the value projection.
    pub fn project_value(self, value: Vec<u32>) -> (pass: Result<AttentionPass, Error>)
        requires
            self@.stage == AttentionStage::ProjectValue,
        ensures
            match pass {
                Ok(pass) => {
                    &&& value@.len() == self@.layout.kv_width
                    &&& pass@ == (AttentionModel {
                        stage: AttentionStage::Split,
                        value: value@,
                        ..self@
                    })
                },
                Err(error) => {
                    &&& value@.len() != self@.layout.kv_width
                    &&& error == plan_error(
                        "matrix projection",
                        value@.len() as int,
                        self@.layout.kv_width,
                    )
                },
            },
    {
        proof {
            use_type_invariant(&self);
        }
        ensure_execution_plan("matrix projection", value.len(), self.layout.kv_width)?;
        Ok(
            AttentionPass {
                layout: self.layout,
                step: self.step,
                stage: AttentionStage::Split,
                normalized: self.normalized,
                query: self.query,
                gate: self.gate,
                key: self.key,
                value,
                merged: self.merged,
                output: self.output,
            },
        )
    }

    /// Split the interleaved query and gate per head. The allocator may refuse either
    /// half.
    pub fn split(self) -> (pass: Result<AttentionPass, Error>)
        requires
            self@.stage == AttentionStage::Split,
        ensures
            match pass {
                Ok(pass) => {
                    &&& qwen35_execution::splits(
                        self@.query,
                        self@.layout.heads as int,
                        self@.layout.key as int,
                        pass@.query,
                        pass@.gate,
                    )
                    &&& pass@ == (AttentionModel {
                        stage: AttentionStage::NormalizeQuery,
                        query: pass@.query,
                        gate: pass@.gate,
                        ..self@
                    })
                },
                Err(error) => {
                    ||| error.execution_allocation("full-attention query", self@.layout.query_width)
                    ||| error.execution_allocation("full-attention gate", self@.layout.query_width)
                },
            },
    {
        proof {
            use_type_invariant(&self);
            let heads = self.layout.heads as int;
            let key = self.layout.key as int;
            assert(heads * (2 * key) == 2 * (heads * key)) by (nonlinear_arith);
            assert(2 * key <= 2 * (heads * key)) by (nonlinear_arith)
                requires
                    heads >= 1,
                    key >= 0,
            ;
        }
        let (query, gate) = split_query_gate(
            self.query.as_slice(),
            self.layout.heads,
            self.layout.key,
            self.layout.query_width,
        )?;
        Ok(
            AttentionPass {
                layout: self.layout,
                step: self.step,
                stage: AttentionStage::NormalizeQuery,
                normalized: self.normalized,
                query,
                gate,
                key: self.key,
                value: self.value,
                merged: self.merged,
                output: self.output,
            },
        )
    }

    /// Take the query, normalized per head.
    pub fn normalize_query(self, query: Vec<u32>) -> (pass: Result<AttentionPass, Error>)
        requires
            self@.stage == AttentionStage::NormalizeQuery,
        ensures
            match pass {
                Ok(pass) => {
                    &&& query@.len() == self@.layout.query_width
                    &&& pass@ == (AttentionModel {
                        stage: AttentionStage::NormalizeKey,
                        query: query@,
                        ..self@
                    })
                },
                Err(error) => {
                    &&& query@.len() != self@.layout.query_width
                    &&& error == plan_error(
                        "full-attention normalized query",
                        query@.len() as int,
                        self@.layout.query_width,
                    )
                },
            },
    {
        proof {
            use_type_invariant(&self);
        }
        ensure_execution_plan("full-attention normalized query", query.len(), self.layout.query_width)?;
        Ok(
            AttentionPass {
                layout: self.layout,
                step: self.step,
                stage: AttentionStage::NormalizeKey,
                normalized: self.normalized,
                query,
                gate: self.gate,
                key: self.key,
                value: self.value,
                merged: self.merged,
                output: self.output,
            },
        )
    }

    /// Take the key, normalized per head.
    pub fn normalize_key(self, key: Vec<u32>) -> (pass: Result<AttentionPass, Error>)
        requires
            self@.stage == AttentionStage::NormalizeKey,
        ensures
            match pass {
                Ok(pass) => {
                    &&& key@.len() == self@.layout.kv_width
                    &&& pass@ == (AttentionModel {
                        stage: AttentionStage::RotateQuery,
                        key: key@,
                        ..self@
                    })
                },
                Err(error) => {
                    &&& key@.len() != self@.layout.kv_width
                    &&& error == plan_error(
                        "full-attention normalized key",
                        key@.len() as int,
                        self@.layout.kv_width,
                    )
                },
            },
    {
        proof {
            use_type_invariant(&self);
        }
        ensure_execution_plan("full-attention normalized key", key.len(), self.layout.kv_width)?;
        Ok(
            AttentionPass {
                layout: self.layout,
                step: self.step,
                stage: AttentionStage::RotateQuery,
                normalized: self.normalized,
                query: self.query,
                gate: self.gate,
                key,
                value: self.value,
                merged: self.merged,
                output: self.output,
            },
        )
    }

    /// Take the rotated query.
    pub fn rotate_query(self, query: Vec<u32>) -> (pass: Result<AttentionPass, Error>)
        requires
            self@.stage == AttentionStage::RotateQuery,
        ensures
            match pass {
                Ok(pass) => {
                    &&& query@.len() == self@.layout.query_width
                    &&& qwen35_execution::all_finite(query@)
                    &&& pass@ == (AttentionModel {
                        stage: AttentionStage::RotateKey,
                        query: query@,
                        ..self@
                    })
                },
                Err(error) => if query@.len() != self@.layout.query_width {
                    error == plan_error(
                        "full-attention normalized query",
                        query@.len() as int,
                        self@.layout.query_width,
                    )
                } else {
                    &&& !qwen35_execution::all_finite(query@)
                    &&& nonfinite_error(query@, "text MRoPE", error)
                },
            },
    {
        proof {
            use_type_invariant(&self);
        }
        ensure_execution_plan("full-attention normalized query", query.len(), self.layout.query_width)?;
        finite(query.as_slice(), "text MRoPE")?;
        Ok(
            AttentionPass {
                layout: self.layout,
                step: self.step,
                stage: AttentionStage::RotateKey,
                normalized: self.normalized,
                query,
                gate: self.gate,
                key: self.key,
                value: self.value,
                merged: self.merged,
                output: self.output,
            },
        )
    }

    /// Take the rotated key.
    pub fn rotate_key(self, key: Vec<u32>) -> (pass: Result<AttentionPass, Error>)
        requires
            self@.stage == AttentionStage::RotateKey,
        ensures
            match pass {
                Ok(pass) => {
                    &&& key@.len() == self@.layout.kv_width
                    &&& qwen35_execution::all_finite(key@)
                    &&& pass@ == (AttentionModel {
                        stage: AttentionStage::Append,
                        key: key@,
                        ..self@
                    })
                },
                Err(error) => if key@.len() != self@.layout.kv_width {
                    error == plan_error(
                        "full-attention normalized key",
                        key@.len() as int,
                        self@.layout.kv_width,
                    )
                } else {
                    &&& !qwen35_execution::all_finite(key@)
                    &&& nonfinite_error(key@, "text MRoPE", error)
                },
            },
    {
        proof {
            use_type_invariant(&self);
        }
        ensure_execution_plan("full-attention normalized key", key.len(), self.layout.kv_width)?;
        finite(key.as_slice(), "text MRoPE")?;
        Ok(
            AttentionPass {
                layout: self.layout,
                step: self.step,
                stage: AttentionStage::Append,
                normalized: self.normalized,
                query: self.query,
                gate: self.gate,
                key,
                value: self.value,
                merged: self.merged,
                output: self.output,
            },
        )
    }

    /// Borrow the query heads.
    pub fn query(&self) -> (query: &[u32])
        ensures
            query@ == self@.query,
    {
        self.query.as_slice()
    }

    /// Borrow the key and value row to append.
    pub fn appended_row(&self) -> (row: (&[u32], &[u32]))
        ensures
            row.0@ == self@.key,
            row.1@ == self@.value,
    {
        (self.key.as_slice(), self.value.as_slice())
    }

    /// Take the number of rows that the layer holds once the row is appended: there
    /// has to be one for each visible token. The allocator may refuse the list of the
    /// head outputs.
    pub fn append(self, rows: usize) -> (pass: Result<AttentionPass, Error>)
        requires
            self@.stage == AttentionStage::Append,
        ensures
            match pass {
                Ok(pass) => {
                    &&& rows == self@.step.position + 1
                    &&& pass@ == (AttentionModel {
                        stage: AttentionStage::Attend { head: 0 },
                        merged: seq![],
                        ..self@
                    })
                },
                Err(error) => if rows != self@.step.position + 1 {
                    error == (Error::ExecutionContext {
                        requested: rows,
                        rule: "paged KV transaction rows must match token-serial full-attention state",
                    })
                } else {
                    error.execution_allocation(
                        "full-attention merged output",
                        self@.layout.query_width,
                    )
                },
            },
    {
        proof {
            use_type_invariant(&self);
        }
        if rows != self.step.position + 1 {
            return Err(
                Error::ExecutionContext {
                    requested: rows,
                    rule: "paged KV transaction rows must match token-serial full-attention state",
                },
            );
        }
        let merged: Vec<u32> = reserve("full-attention merged output", self.layout.query_width)?;
        assert(merged@ =~= Seq::<u32>::empty());
        Ok(
            AttentionPass {
                layout: self.layout,
                step: self.step,
                stage: AttentionStage::Attend { head: 0 },
                normalized: self.normalized,
                query: self.query,
                gate: self.gate,
                key: self.key,
                value: self.value,
                merged,
                output: self.output,
            },
        )
    }

    /// Borrow the query and the output gating of the current head.
    pub fn head(&self) -> (rows: (&[u32], &[u32]))
        requires
            self@.stage is Attend,
        ensures
            ({
                let start = self@.stage->Attend_head * self@.layout.key;
                &&& rows.0@ == self@.query.subrange(start, start + self@.layout.key)
                &&& rows.1@ == self@.gate.subrange(start, start + self@.layout.key)
            }),
    {
        proof {
            use_type_invariant(self);
        }
        let head: usize = match self.stage {
            AttentionStage::Attend { head } => head,
            _ => 0,
        };
        proof {
            let key = self.layout.key as int;
            let heads = self.layout.heads as int;
            assert(0 <= head * key && head * key + key <= heads * key) by (nonlinear_arith)
                requires
                    0 <= head < heads,
                    0 <= key,
            ;
        }
        let start: usize = head * self.layout.key;
        let end: usize = start + self.layout.key;
        (
            slice_subrange(self.query.as_slice(), start, end),
            slice_subrange(self.gate.as_slice(), start, end),
        )
    }

    /// Take the gated attention output of the current head.
    pub fn attend(self, gated: &[u32]) -> (pass: Result<AttentionPass, Error>)
        requires
            self@.stage is Attend,
        ensures
            match pass {
                Ok(pass) => {
                    let head = self@.stage->Attend_head;
                    &&& qwen35_execution::all_finite(gated@)
                    &&& pass@ == (AttentionModel {
                        stage: if head + 1 < self@.layout.heads {
                            AttentionStage::Attend { head: (head + 1) as usize }
                        } else {
                            AttentionStage::ProjectOutput
                        },
                        merged: self@.merged + gated@,
                        ..self@
                    })
                },
                Err(error) => {
                    &&& !qwen35_execution::all_finite(gated@)
                    &&& nonfinite_error(gated@, "full attention gate", error)
                },
            },
    {
        proof {
            use_type_invariant(&self);
        }
        finite(gated, "full attention gate")?;
        let head: usize = match self.stage {
            AttentionStage::Attend { head } => head,
            _ => 0,
        };
        let stage = if head + 1 < self.layout.heads {
            AttentionStage::Attend { head: head + 1 }
        } else {
            AttentionStage::ProjectOutput
        };
        let ghost before = self.merged@;
        let mut merged: Vec<u32> = self.merged;
        extend_window(&mut merged, gated, 0, gated.len());
        assert(merged@ =~= before + gated@);
        Ok(
            AttentionPass {
                layout: self.layout,
                step: self.step,
                stage,
                normalized: self.normalized,
                query: self.query,
                gate: self.gate,
                key: self.key,
                value: self.value,
                merged,
                output: self.output,
            },
        )
    }

    /// Take the output projection.
    pub fn project_output(self, output: Vec<u32>) -> (pass: Result<AttentionPass, Error>)
        requires
            self@.stage == AttentionStage::ProjectOutput,
        ensures
            match pass {
                Ok(pass) => {
                    &&& output@.len() == self@.layout.hidden
                    &&& pass@ == (AttentionModel {
                        stage: AttentionStage::Finished,
                        output: output@,
                        ..self@
                    })
                },
                Err(error) => {
                    &&& output@.len() != self@.layout.hidden
                    &&& error == plan_error(
                        "matrix projection",
                        output@.len() as int,
                        self@.layout.hidden,
                    )
                },
            },
    {
        proof {
            use_type_invariant(&self);
        }
        ensure_execution_plan("matrix projection", output.len(), self.layout.hidden)?;
        Ok(
            AttentionPass {
                layout: self.layout,
                step: self.step,
                stage: AttentionStage::Finished,
                normalized: self.normalized,
                query: self.query,
                gate: self.gate,
                key: self.key,
                value: self.value,
                merged: self.merged,
                output,
            },
        )
    }

    /// Give up the finished pass for the block's attention output.
    pub fn into_output(self) -> (output: Vec<u32>)
        requires
            self@.stage == AttentionStage::Finished,
        ensures
            output@ == self@.output,
    {
        self.output
    }
}

/// Whether reading a block parameter of one dimension went as an artifact demands.
pub open spec fn parameter_read(
    artifact: VerifiedArtifact,
    pass: AttentionModel,
    role: &'static str,
    width: usize,
    norm: Result<Vec<u32>, Error>,
) -> bool {
    block_parameter_read(artifact, pass.step.block, role, width, norm)
}

/// Whether reading a block parameter of one dimension went as an artifact demands:
/// it holds the finite words of the tensor, or the tensor is refused.
pub open spec fn block_parameter_read(
    artifact: VerifiedArtifact,
    block: usize,
    role: &'static str,
    width: usize,
    norm: Result<Vec<u32>, Error>,
) -> bool {
    let name = text::block_name_spec(block as nat, role@);
    match norm {
        Ok(values) => {
            &&& values@.len() == width
            &&& qwen35_execution::all_finite(values@)
            &&& qwen35_execution::parameter_words(artifact, name, seq![width as u64], values@)
        },
        Err(error) => qwen35_execution::read_refused(
            artifact,
            name,
            seq![width as u64],
            width,
            error,
        ),
    }
}

/// Read a block parameter of one dimension.
pub fn read_block_vector(
    artifact: &VerifiedArtifact,
    block: usize,
    role: &'static str,
    width: usize,
) -> (norm: Result<Vec<u32>, Error>)
    ensures
        block_parameter_read(*artifact, block, role, width, norm),
{
    let name = block_name(block, role);
    let dims: [u64; 1] = [width as u64];
    assert(dims@ =~= seq![width as u64]);
    read_f32(artifact, name.as_str(), &dims, width)
}

/// What the tail of a layer waits for next.
#[derive(Clone, Copy, Debug, PartialEq, Eq, Structural)]
pub enum FinishStage {
    /// The hidden row with the attention output added.
    AddAttention,
    /// The hidden row, normalized.
    Normalize,
    /// The feed-forward gate projection.
    ProjectGate,
    /// The feed-forward up projection.
    ProjectUp,
    /// The activated gate.
    Activate,
    /// The product of the activated gate and the up projection.
    Fuse,
    /// The feed-forward down projection.
    ProjectDown,
    /// The hidden row with the feed-forward output added.
    AddFeedForward,
    /// Nothing: the finished hidden row is ready.
    Finished,
}

/// What the tail of a layer holds.
pub struct FinishModel {
    /// The geometry of the artifact.
    pub layout: Layout,
    /// The block of the layer.
    pub block: usize,
    /// What the tail waits for.
    pub stage: FinishStage,
    /// The hidden row.
    pub hidden: Seq<u32>,
    /// The attention output.
    pub attention: Seq<u32>,
    /// The normalized hidden row.
    pub normalized: Seq<u32>,
    /// Gating values: projected, then activated.
    pub gate: Seq<u32>,
    /// The up projection.
    pub up: Seq<u32>,
    /// The product of the activated gate and the up projection.
    pub fused: Seq<u32>,
    /// The down projection.
    pub down: Seq<u32>,
}

impl FinishModel {
    /// The name of the matrix that the tail waits for, and the row it is applied to.
    pub open spec fn projected(self) -> Option<(Seq<char>, Seq<u32>)> {
        let block = self.block as nat;
        match self.stage {
            FinishStage::ProjectGate => Some(
                (text::block_name_spec(block, FFN_GATE_ROLE@), self.normalized),
            ),
            FinishStage::ProjectUp => Some(
                (text::block_name_spec(block, FFN_UP_ROLE@), self.normalized),
            ),
            FinishStage::ProjectDown => Some(
                (text::block_name_spec(block, FFN_DOWN_ROLE@), self.fused),
            ),
            _ => None,
        }
    }

    /// Whether the row has the width of the model.
    pub open spec fn wf(self) -> bool {
        self.hidden.len() == self.layout.hidden
    }
}

/// The tail of one layer, between two of its stages.
#[derive(Debug)]
pub struct FinishPass {
    layout: Layout,
    block: usize,
    stage: FinishStage,
    hidden: Vec<u32>,
    attention: Vec<u32>,
    normalized: Vec<u32>,
    gate: Vec<u32>,
    up: Vec<u32>,
    fused: Vec<u32>,
    down: Vec<u32>,
}

impl View for FinishPass {
    type V = FinishModel;

    closed spec fn view(&self) -> FinishModel {
        FinishModel {
            layout: self.layout,
            block: self.block,
            stage: self.stage,
            hidden: self.hidden@,
            attention: self.attention@,
            normalized: self.normalized@,
            gate: self.gate@,
            up: self.up@,
            fused: self.fused@,
            down: self.down@,
        }
    }
}

/// The error of a residual of another width.
pub open spec fn residual_error(length: int) -> Error {
    Error::ExecutionContext {
        requested: length as usize,
        rule: "residual operands must have the same hidden width",
    }
}

/// Whether residual sums are accepted.
pub open spec fn sums_accepted(layout: Layout, residual: Seq<u32>, sums: Seq<u32>) -> bool {
    &&& residual.len() == layout.hidden
    &&& sums.len() == layout.hidden
    &&& qwen35_execution::all_finite(sums)
}

/// Whether residual sums are refused with an error: the residual or the sums have
/// another width, or a sum is not finite.
pub open spec fn sums_refused(
    layout: Layout,
    residual: Seq<u32>,
    sums: Seq<u32>,
    stage: &'static str,
    error: Error,
) -> bool {
    if residual.len() != layout.hidden {
        error == residual_error(residual.len() as int)
    } else if sums.len() != layout.hidden {
        error == residual_error(sums.len() as int)
    } else {
        &&& !qwen35_execution::all_finite(sums)
        &&& nonfinite_error(sums, stage, error)
    }
}

fn check_sums(layout: Layout, residual: &[u32], sums: &[u32], stage: &'static str) -> (checked:
    Result<(), Error>)
    ensures
        match checked {
            Ok(_) => sums_accepted(layout, residual@, sums@),
            Err(error) => sums_refused(layout, residual@, sums@, stage, error),
        },
{
    if residual.len() != layout.hidden {
        return Err(
            Error::ExecutionContext {
                requested: residual.len(),
                rule: "residual operands must have the same hidden width",
            },
        );
    }
    if sums.len() != layout.hidden {
        return Err(
            Error::ExecutionContext {
                requested: sums.len(),
                rule: "residual operands must have the same hidden width",
            },
        );
    }
    finite(sums, stage)
}

impl FinishPass {
    #[verifier::type_invariant]
    spec fn checked(self) -> bool {
        self@.wf()
    }

    /// Begin the tail of a layer with its hidden row and attention output.
    pub fn begin(layout: Layout, block: usize, hidden: Vec<u32>, attention: Vec<u32>) -> (pass:
        Result<FinishPass, Error>)
        requires
            hidden@.len() == layout.hidden,
        ensures
            match pass {
                Ok(pass) => {
                    &&& attention@.len() == layout.hidden
                    &&& pass@ == (FinishModel {
                        layout,
                        block,
                        stage: FinishStage::AddAttention,
                        hidden: hidden@,
                        attention: attention@,
                        normalized: seq![],
                        gate: seq![],
                        up: seq![],
                        fused: seq![],
                        down: seq![],
                    })
                },
                Err(error) => {
                    &&& attention@.len() != layout.hidden
                    &&& error == plan_error(
                        "layer attention output",
                        attention@.len() as int,
                        layout.hidden,
                    )
                },
            },
    {
        let finish = LayerFinishWorkspaceAllocations::try_from_layout(layout)?;
        ensure_execution_plan("layer attention output", attention.len(), finish.attention_output)?;
        Ok(
            FinishPass {
                layout,
                block,
                stage: FinishStage::AddAttention,
                hidden,
                attention,
                normalized: Vec::new(),
                gate: Vec::new(),
                up: Vec::new(),
                fused: Vec::new(),
                down: Vec::new(),
            },
        )
    }

    /// Say what the tail waits for.
    pub fn stage(&self) -> (stage: FinishStage)
        ensures
            stage == self@.stage,
    {
        self.stage
    }

    /// Borrow the hidden row.
    pub fn hidden(&self) -> (hidden: &[u32])
        ensures
            hidden@ == self@.hidden,
            hidden@.len() == self@.layout.hidden,
    {
        proof {
            use_type_invariant(self);
        }
        self.hidden.as_slice()
    }

    /// Say which stored matrix the tail waits for, and which row it is applied to.
    pub fn projection(&self) -> (projection: Option<(String, &[u32])>)
        ensures
            match projection {
                Some((name, row)) => {
                    let block = "blk."@ + text::decimal(self@.block as nat) + "."@;
                    &&& self@.projected() == Some((name@, row@))
                    &&& match self@.stage {
                        FinishStage::ProjectGate => name@ == block + "ffn_gate.weight"@,
                        FinishStage::ProjectUp => name@ == block + "ffn_up.weight"@,
                        _ => name@ == block + "ffn_down.weight"@,
                    }
                },
                None => self@.projected() is None,
            },
    {
        match self.stage {
            FinishStage::ProjectGate => Some(
                (block_name(self.block, FFN_GATE_ROLE), self.normalized.as_slice()),
            ),
            FinishStage::ProjectUp => Some(
                (block_name(self.block, FFN_UP_ROLE), self.normalized.as_slice()),
            ),
            FinishStage::ProjectDown => Some(
                (block_name(self.block, FFN_DOWN_ROLE), self.fused.as_slice()),
            ),
            _ => None,
        }
    }

    /// Borrow the residual of the current sum: the attention output, then the
    /// feed-forward output.
    pub fn residual(&self) -> (residual: &[u32])
        ensures
            residual@ == (if self@.stage == FinishStage::AddAttention {
                self@.attention
            } else {
                self@.down
            }),
    {
        match self.stage {
            FinishStage::AddAttention => self.attention.as_slice(),
            _ => self.down.as_slice(),
        }
    }

    /// Borrow the gating values and the up projection.
    pub fn gated(&self) -> (rows: (&[u32], &[u32]))
        ensures
            rows.0@ == self@.gate,
            rows.1@ == self@.up,
    {
        (self.gate.as_slice(), self.up.as_slice())
    }

    /// Read the normalization vector of the row that enters the feed-forward network.
    pub fn read_norm(&self, artifact: &VerifiedArtifact) -> (norm: Result<Vec<u32>, Error>)
        ensures
            block_parameter_read(
                *artifact,
                self@.block,
                "post_attention_norm.weight",
                self@.layout.hidden,
                norm,
            ),
    {
        read_block_vector(artifact, self.block, "post_attention_norm.weight", self.layout.hidden)
    }

    /// Take the hidden row with the attention output added.
    pub fn add_attention(self, sums: Vec<u32>) -> (pass: Result<FinishPass, Error>)
        requires
            self@.stage == FinishStage::AddAttention,
        ensures
            match pass {
                Ok(pass) => {
                    &&& sums_accepted(self@.layout, self@.attention, sums@)
                    &&& pass@ == (FinishModel {
                        stage: FinishStage::Normalize,
                        hidden: sums@,
                        ..self@
                    })
                },
                Err(error) => sums_refused(
                    self@.layout,
                    self@.attention,
                    sums@,
                    "attention residual",
                    error,
                ),
            },
    {
        proof {
            use_type_invariant(&self);
        }
        check_sums(self.layout, self.attention.as_slice(), sums.as_slice(), "attention residual")?;
        Ok(
            FinishPass {
                layout: self.layout,
                block: self.block,
                stage: FinishStage::Normalize,
                hidden: sums,
                attention: self.attention,
                normalized: self.normalized,
                gate: self.gate,
                up: self.up,
                fused: self.fused,
                down: self.down,
            },
        )
    }

    /// Take the normalized hidden row.
    pub fn normalize(self, normalized: Vec<u32>) -> (pass: Result<FinishPass, Error>)
        requires
            self@.stage == FinishStage::Normalize,
        ensures
            match pass {
                Ok(pass) => {
                    &&& normalized@.len() == self@.layout.hidden
                    &&& pass@ == (FinishModel {
                        stage: FinishStage::ProjectGate,
                        normalized: normalized@,
                        ..self@
                    })
                },
                Err(error) => {
                    &&& normalized@.len() != self@.layout.hidden
                    &&& error == plan_error(
                        "post-attention normalized hidden",
                        normalized@.len() as int,
                        self@.layout.hidden,
                    )
                },
            },
    {
        proof {
            use_type_invariant(&self);
        }
        ensure_execution_plan("post-attention normalized hidden", normalized.len(), self.layout.hidden)?;
        Ok(
            FinishPass {
                layout: self.layout,
                block: self.block,
                stage: FinishStage::ProjectGate,
                hidden: self.hidden,
                attention: self.attention,
                normalized,
                gate: self.gate,
                up: self.up,
                fused: self.fused,
                down: self.down,
            },
        )
    }

    /// Take the projected gating values.
    pub fn project_gate(self, gate: Vec<u32>) -> (pass: Result<FinishPass, Error>)
        requires
            self@.stage == FinishStage::ProjectGate,
        ensures
            match pass {
                Ok(pass) => {
                    &&& gate@.len() == self@.layout.feed_forward
                    &&& pass@ == (FinishModel {
                        stage: FinishStage::ProjectUp,
                        gate: gate@,
                        ..self@
                    })
                },
                Err(error) => {
                    &&& gate@.len() != self@.layout.feed_forward
                    &&& error == plan_error(
                        "matrix projection",
                        gate@.len() as int,
                        self@.layout.feed_forward,
                    )
                },
            },
    {
        proof {
            use_type_invariant(&self);
        }
        ensure_execution_plan("matrix projection", gate.len(), self.layout.feed_forward)?;
        Ok(
            FinishPass {
                layout: self.layout,
                block: self.block,
                stage: FinishStage::ProjectUp,
                hidden: self.hidden,
                attention: self.attention,
                normalized: self.normalized,
                gate,
                up: self.up,
                fused: self.fused,
                down: self.down,
            },
        )
    }

    /// Take the up projection.
    pub fn project_up(self, up: Vec<u32>) -> (pass: Result<FinishPass, Error>)
        requires
            self@.stage == FinishStage::ProjectUp,
        ensures
            match pass {
                Ok(pass) => {
                    &&& up@.len() == self@.layout.feed_forward
                    &&& pass@ == (FinishModel {
                        stage: FinishStage::Activate,
                        up: up@,
                        ..self@
                    })
                },
                Err(error) => {
                    &&& up@.len() != self@.layout.feed_forward
                    &&& error == plan_error(
                        "matrix projection",
                        up@.len() as int,
                        self@.layout.feed_forward,
                    )
                },
            },
    {
        proof {
            use_type_invariant(&self);
        }
        ensure_execution_plan("matrix projection", up.len(), self.layout.feed_forward)?;
        Ok(
            FinishPass {
                layout: self.layout,
                block: self.block,
                stage: FinishStage::Activate,
                hidden: self.hidden,
                attention: self.attention,
                normalized: self.normalized,
                gate: self.gate,
                up,
                fused: self.fused,
                down: self.down,
            },
        )
    }

    /// Take the activated gate.
    pub fn activate(self, gate: Vec<u32>) -> (pass: Result<FinishPass, Error>)
        requires
            self@.stage == FinishStage::Activate,
        ensures
            match pass {
                Ok(pass) => {
                    &&& gate@.len() == self@.layout.feed_forward
                    &&& pass@ == (FinishModel {
                        stage: FinishStage::Fuse,
                        gate: gate@,
                        ..self@
                    })
                },
                Err(error) => {
                    &&& gate@.len() != self@.layout.feed_forward
                    &&& error == plan_error(
                        "SwiGLU activated gate",
                        gate@.len() as int,
                        self@.layout.feed_forward,
                    )
                },
            },
    {
        proof {
            use_type_invariant(&self);
        }
        ensure_execution_plan("SwiGLU activated gate", gate.len(), self.layout.feed_forward)?;
        Ok(
            FinishPass {
                layout: self.layout,
                block: self.block,
                stage: FinishStage::Fuse,
                hidden: self.hidden,
                attention: self.attention,
                normalized: self.normalized,
                gate,
                up: self.up,
                fused: self.fused,
                down: self.down,
            },
        )
    }

    /// Take the product of the activated gate and the up projection.
    pub fn fuse(self, fused: Vec<u32>) -> (pass: Result<FinishPass, Error>)
        requires
            self@.stage == FinishStage::Fuse,
        ensures
            match pass {
                Ok(pass) => {
                    &&& fused@.len() == self@.layout.feed_forward
                    &&& qwen35_execution::all_finite(fused@)
                    &&& pass@ == (FinishModel {
                        stage: FinishStage::ProjectDown,
                        fused: fused@,
                        ..self@
                    })
                },
                Err(error) => if fused@.len() != self@.layout.feed_forward {
                    error == plan_error(
                        "SwiGLU activation",
                        fused@.len() as int,
                        self@.layout.feed_forward,
                    )
                } else {
                    &&& !qwen35_execution::all_finite(fused@)
                    &&& nonfinite_error(fused@, "SwiGLU", error)
                },
            },
    {
        proof {
            use_type_invariant(&self);
        }
        ensure_execution_plan("SwiGLU activation", fused.len(), self.layout.feed_forward)?;
        finite(fused.as_slice(), "SwiGLU")?;
        Ok(
            FinishPass {
                layout: self.layout,
                block: self.block,
                stage: FinishStage::ProjectDown,
                hidden: self.hidden,
                attention: self.attention,
                normalized: self.normalized,
                gate: self.gate,
                up: self.up,
                fused,
                down: self.down,
            },
        )
    }

    /// Take the down projection.
    pub fn project_down(self, down: Vec<u32>) -> (pass: Result<FinishPass, Error>)
        requires
            self@.stage == FinishStage::ProjectDown,
        ensures
            match pass {
                Ok(pass) => {
                    &&& down@.len() == self@.layout.hidden
                    &&& pass@ == (FinishModel {
                        stage: FinishStage::AddFeedForward,
                        down: down@,
                        ..self@
                    })
                },
                Err(error) => {
                    &&& down@.len() != self@.layout.hidden
                    &&& error == plan_error(
                        "matrix projection",
                        down@.len() as int,
                        self@.layout.hidden,
                    )
                },
            },
    {
        proof {
            use_type_invariant(&self);
        }
        ensure_execution_plan("matrix projection", down.len(), self.layout.hidden)?;
        Ok(
            FinishPass {
                layout: self.layout,
                block: self.block,
                stage: FinishStage::AddFeedForward,
                hidden: self.hidden,
                attention: self.attention,
                normalized: self.normalized,
                gate: self.gate,
                up: self.up,
                fused: self.fused,
                down,
            },
        )
    }

    /// Take the hidden row with the feed-forward output added.
    pub fn add_feed_forward(self, sums: Vec<u32>) -> (pass: Result<FinishPass, Error>)
        requires
            self@.stage == FinishStage::AddFeedForward,
        ensures
            match pass {
                Ok(pass) => {
                    &&& sums_accepted(self@.layout, self@.down, sums@)
                    &&& pass@ == (FinishModel {
                        stage: FinishStage::Finished,
                        hidden: sums@,
                        ..self@
                    })
                },
                Err(error) => sums_refused(
                    self@.layout,
                    self@.down,
                    sums@,
                    "FFN residual",
                    error,
                ),
            },
    {
        proof {
            use_type_invariant(&self);
        }
        check_sums(self.layout, self.down.as_slice(), sums.as_slice(), "FFN residual")?;
        Ok(
            FinishPass {
                layout: self.layout,
                block: self.block,
                stage: FinishStage::Finished,
                hidden: sums,
                attention: self.attention,
                normalized: self.normalized,
                gate: self.gate,
                up: self.up,
                fused: self.fused,
                down: self.down,
            },
        )
    }

    /// Give up the finished tail for its hidden row.
    pub fn into_hidden(self) -> (hidden: Vec<u32>)
        requires
            self@.stage == FinishStage::Finished,
        ensures
            hidden@ == self@.hidden,
            hidden@.len() == self@.layout.hidden,
    {
        proof {
            use_type_invariant(&self);
        }
        self.hidden
    }
}

} // verus!
