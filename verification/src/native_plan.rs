//! Native main-model plans: workspace extents, block extents, and byte demands.
//!
//! The extents of a kernel or of a paged cache are arguments. What a plan adds up,
//! checks, and refuses is decided here, before any device work.

use crate::error::Error;
use crate::native_demand::{
    checked_sum, elements_bytes, sum, DeviceByteDemand, ModelDeviceByteDemand, WORD_BYTES,
};
use crate::qwen35_execution;
use crate::qwen35_execution::Layout;
use vstd::prelude::*;

verus! {

/// Named scratch extents of a layer's residual and feed-forward tail.
#[derive(Clone, Copy, Debug, PartialEq, Eq, Structural)]
pub struct LayerFinishWorkspacePlan {
    pub attention_residual: usize,
    pub post_norm: usize,
    pub ffn_gate: usize,
    pub ffn_up: usize,
    pub ffn_product: usize,
    pub ffn_down: usize,
}

impl LayerFinishWorkspacePlan {
    /// The sum of the named extents.
    pub open spec fn spec_elements(self) -> int {
        self.attention_residual + self.post_norm + self.ffn_gate + self.ffn_up + self.ffn_product
            + self.ffn_down
    }

    /// The named extents of a number of token rows.
    pub open spec fn planned(layout: Layout, token_count: usize) -> LayerFinishWorkspacePlan {
        let hidden = (token_count * layout.hidden) as usize;
        let feed_forward = (token_count * layout.feed_forward) as usize;
        LayerFinishWorkspacePlan {
            attention_residual: hidden,
            post_norm: hidden,
            ffn_gate: feed_forward,
            ffn_up: feed_forward,
            ffn_product: feed_forward,
            ffn_down: hidden,
        }
    }

    /// Why a number of token rows has no extents, if it has none.
    pub open spec fn rows_failure(layout: Layout, token_count: usize) -> Option<Error> {
        if token_count == 0 {
            Some(
                Error::NativeSessionState {
                    rule: "native layer finish requires at least one token row",
                },
            )
        } else if token_count * layout.hidden > usize::MAX {
            Some(
                Error::ArithmeticOverflow {
                    context: "native layer-finish token count * hidden width",
                },
            )
        } else if token_count * layout.feed_forward > usize::MAX {
            Some(
                Error::ArithmeticOverflow {
                    context: "native layer-finish token count * feed-forward width",
                },
            )
        } else {
            None
        }
    }

    /// Name the scratch extents of a number of token rows.
    pub fn from_rows(layout: Layout, token_count: usize) -> (plan: Result<
        LayerFinishWorkspacePlan,
        Error,
    >)
        ensures
            match plan {
                Ok(plan) => {
                    &&& Self::rows_failure(layout, token_count) is None
                    &&& plan == Self::planned(layout, token_count)
                },
                Err(error) => Self::rows_failure(layout, token_count) == Some(error),
            },
    {
        if token_count == 0 {
            return Err(
                Error::NativeSessionState {
                    rule: "native layer finish requires at least one token row",
                },
            );
        }
        let residual: usize = elements_bytes(
            token_count,
            layout.hidden,
            "native layer-finish token count * hidden width",
        )?;
        let ffn: usize = elements_bytes(
            token_count,
            layout.feed_forward,
            "native layer-finish token count * feed-forward width",
        )?;
        Ok(
            LayerFinishWorkspacePlan {
                attention_residual: residual,
                post_norm: residual,
                ffn_gate: ffn,
                ffn_up: ffn,
                ffn_product: ffn,
                ffn_down: residual,
            },
        )
    }

    /// Add the named extents, refusing overflow.
    pub fn elements(self) -> (elements: Result<usize, Error>)
        ensures
            match elements {
                Ok(elements) => elements == self.spec_elements(),
                Err(error) => {
                    &&& self.spec_elements() > usize::MAX
                    &&& error == (Error::ArithmeticOverflow {
                        context: "native layer-finish scratch elements",
                    })
                },
            },
    {
        let extents: [usize; 6] = [
            self.attention_residual,
            self.post_norm,
            self.ffn_gate,
            self.ffn_up,
            self.ffn_product,
            self.ffn_down,
        ];
        proof {
            reveal_with_fuel(qwen35_execution::total, 7);
        }
        sum(&extents, "native layer-finish scratch elements")
    }

    /// Count the bytes of the named extents, refusing overflow.
    pub fn bytes(self) -> (bytes: Result<usize, Error>)
        ensures
            match bytes {
                Ok(bytes) => bytes == 4 * self.spec_elements(),
                Err(error) => {
                    &&& 4 * self.spec_elements() > usize::MAX
                    &&& error == (Error::ArithmeticOverflow {
                        context: if self.spec_elements() > usize::MAX {
                            "native layer-finish scratch elements"
                        } else {
                            "native layer-finish scratch bytes"
                        },
                    })
                },
            },
    {
        let elements: usize = self.elements()?;
        elements_bytes(elements, WORD_BYTES, "native layer-finish scratch bytes")
    }
}

/// The scratch of a layer's tail grows with the number of token rows and with
/// nothing else: it is that of one row, once for each row.
pub proof fn lemma_finish_scales(layout: Layout, token_count: usize)
    requires
        LayerFinishWorkspacePlan::rows_failure(layout, token_count) is None,
    ensures
        LayerFinishWorkspacePlan::rows_failure(layout, 1) is None,
        LayerFinishWorkspacePlan::planned(layout, token_count).spec_elements() == token_count
            * LayerFinishWorkspacePlan::planned(layout, 1).spec_elements(),
{
    let t = token_count as int;
    let h = layout.hidden as int;
    let f = layout.feed_forward as int;
    assert(1 * h == h && 1 * f == f);
    assert(t * (3 * h + 3 * f) == 3 * (t * h) + 3 * (t * f)) by (nonlinear_arith);
}

/// The extents of the kernel operations of one recurrent block.
#[derive(Clone, Copy, Debug, PartialEq, Eq, Structural)]
pub struct RecurrentOperationPlans {
    pub input_norm: usize,
    pub convolution_output: usize,
    pub recurrence_query_and_key: usize,
    pub recurrence_scalars: usize,
    pub recurrence_output: usize,
    pub convolution_silu: usize,
    pub qk_l2_source: usize,
    pub qk_l2_output: usize,
    pub scalar_value_heads: usize,
    pub output_norm: usize,
    pub output_silu_product: usize,
}

/// Named workspace extents of one recurrent block.
#[derive(Clone, Copy, Debug, PartialEq, Eq, Structural)]
pub struct RecurrentWorkspacePlan {
    pub normalized_hidden: usize,
    pub qkv: usize,
    pub z: usize,
    pub alpha: usize,
    pub beta_projection: usize,
    pub raw_convolution: usize,
    pub activated_convolution: usize,
    pub tiled_query: usize,
    pub tiled_key: usize,
    pub beta: usize,
    pub log_decay: usize,
    pub recurrence_output: usize,
    pub normalized_output: usize,
    pub gated_output: usize,
    pub projected_attention: usize,
    pub value_tail_offset: usize,
    pub value_tail_elements: usize,
    pub elements: usize,
}

/// Why the operations of a recurrent block do not fit together, if they do not.
pub open spec fn operations_failure(operations: RecurrentOperationPlans) -> Option<Error> {
    if operations.qk_l2_output != operations.recurrence_query_and_key
        || operations.scalar_value_heads != operations.recurrence_scalars
        || operations.output_norm != operations.recurrence_output {
        Some(
            Error::NativeSessionState {
                rule: "native recurrent kernel plans must share the CPU-derived equal-head layout",
            },
        )
    } else if 2 * operations.qk_l2_source > usize::MAX {
        Some(
            Error::ArithmeticOverflow {
                context: "native recurrent activated-convolution V offset",
            },
        )
    } else if 2 * operations.qk_l2_source + operations.recurrence_output > usize::MAX {
        Some(
            Error::ArithmeticOverflow { context: "native recurrent activated-convolution V end" },
        )
    } else if 2 * operations.qk_l2_source + operations.recurrence_output
        != operations.convolution_silu {
        Some(
            Error::NativeSessionState {
                rule: "native recurrent V must be the exact activated-convolution tail",
            },
        )
    } else {
        None
    }
}

/// Find where the value tail of the activated convolution starts and how long it is.
pub fn validate_operations(operations: &RecurrentOperationPlans) -> (tail: Result<
    (usize, usize),
    Error,
>)
    ensures
        match tail {
            Ok((offset, elements)) => {
                &&& operations_failure(*operations) is None
                &&& offset == 2 * operations.qk_l2_source
                &&& elements == operations.recurrence_output
            },
            Err(error) => operations_failure(*operations) == Some(error),
        },
{
    if operations.qk_l2_output != operations.recurrence_query_and_key
        || operations.scalar_value_heads != operations.recurrence_scalars
        || operations.output_norm != operations.recurrence_output {
        return Err(
            Error::NativeSessionState {
                rule: "native recurrent kernel plans must share the CPU-derived equal-head layout",
            },
        );
    }
    let offset: usize = elements_bytes(
        operations.qk_l2_source,
        2,
        "native recurrent activated-convolution V offset",
    )?;
    let elements: usize = operations.recurrence_output;
    let end: usize = checked_sum(
        offset,
        elements,
        "native recurrent activated-convolution V end",
    )?;
    if end != operations.convolution_silu {
        return Err(
            Error::NativeSessionState {
                rule: "native recurrent V must be the exact activated-convolution tail",
            },
        );
    }
    Ok((offset, elements))
}

impl RecurrentWorkspacePlan {
    /// The named extents that are allocated together.
    pub open spec fn allocated(operations: RecurrentOperationPlans) -> int {
        2 * operations.input_norm + 2 * operations.convolution_output + operations.convolution_silu
            + 2 * operations.qk_l2_output + 4 * operations.scalar_value_heads
            + 2 * operations.recurrence_output + operations.output_norm
            + operations.output_silu_product
    }

    /// Whether the named extents are those of the operations.
    pub open spec fn names(self, operations: RecurrentOperationPlans) -> bool {
        &&& self.normalized_hidden == operations.input_norm
        &&& self.qkv == operations.convolution_output
        &&& self.z == operations.recurrence_output
        &&& self.alpha == operations.scalar_value_heads
        &&& self.beta_projection == operations.scalar_value_heads
        &&& self.raw_convolution == operations.convolution_output
        &&& self.activated_convolution == operations.convolution_silu
        &&& self.tiled_query == operations.qk_l2_output
        &&& self.tiled_key == operations.qk_l2_output
        &&& self.beta == operations.scalar_value_heads
        &&& self.log_decay == operations.scalar_value_heads
        &&& self.recurrence_output == operations.recurrence_output
        &&& self.normalized_output == operations.output_norm
        &&& self.gated_output == operations.output_silu_product
        &&& self.projected_attention == operations.input_norm
        &&& self.value_tail_offset == 2 * operations.qk_l2_source
        &&& self.value_tail_elements == operations.recurrence_output
        &&& self.elements == Self::allocated(operations)
    }

    /// Name the workspace extents of the operations of a recurrent block. The value
    /// is the tail of the activated convolution.
    pub fn from_operations(operations: RecurrentOperationPlans) -> (plan: Result<
        RecurrentWorkspacePlan,
        Error,
    >)
        ensures
            match plan {
                Ok(plan) => {
                    &&& operations_failure(operations) is None
                    &&& plan.names(operations)
                    &&& plan.value_tail_offset + plan.value_tail_elements
                        == plan.activated_convolution
                },
                Err(error) => if operations_failure(operations) is Some {
                    operations_failure(operations) == Some(error)
                } else {
                    &&& Self::allocated(operations) > usize::MAX
                    &&& error == (Error::ArithmeticOverflow {
                        context: "native recurrent workspace elements",
                    })
                },
            },
    {
        let (value_tail_offset, value_tail_elements) = validate_operations(&operations)?;
        let extents: [usize; 15] = [
            operations.input_norm,
            operations.convolution_output,
            operations.recurrence_output,
            operations.scalar_value_heads,
            operations.scalar_value_heads,
            operations.convolution_output,
            operations.convolution_silu,
            operations.qk_l2_output,
            operations.qk_l2_output,
            operations.scalar_value_heads,
            operations.scalar_value_heads,
            operations.recurrence_output,
            operations.output_norm,
            operations.output_silu_product,
            operations.input_norm,
        ];
        proof {
            reveal_with_fuel(qwen35_execution::total, 16);
        }
        let elements: usize = sum(&extents, "native recurrent workspace elements")?;
        Ok(
            RecurrentWorkspacePlan {
                normalized_hidden: operations.input_norm,
                qkv: operations.convolution_output,
                z: operations.recurrence_output,
                alpha: operations.scalar_value_heads,
                beta_projection: operations.scalar_value_heads,
                raw_convolution: operations.convolution_output,
                activated_convolution: operations.convolution_silu,
                tiled_query: operations.qk_l2_output,
                tiled_key: operations.qk_l2_output,
                beta: operations.scalar_value_heads,
                log_decay: operations.scalar_value_heads,
                recurrence_output: operations.recurrence_output,
                normalized_output: operations.output_norm,
                gated_output: operations.output_silu_product,
                projected_attention: operations.input_norm,
                value_tail_offset,
                value_tail_elements,
                elements,
            },
        )
    }
}

/// Workspace extents of a full-attention block.
#[derive(Clone, Copy, Debug, PartialEq, Eq, Structural)]
pub struct FullWorkspaceExtents {
    pub elements: usize,
    pub coefficient_elements: usize,
}

impl FullWorkspaceExtents {
    /// The attention scratch of one token row: two hidden rows, seven query widths (the
    /// interleaved query and gate, the query, its gate, the normalized query, the
    /// attention output, and the gated output), and three key or value widths.
    pub open spec fn row_elements(layout: Layout) -> int {
        2 * layout.hidden + 7 * layout.query_width + 3 * layout.kv_width
    }

    /// Why a number of token rows has no extents, if it has none.
    pub open spec fn rows_failure(layout: Layout, token_count: usize) -> Option<Error> {
        if 2 * layout.hidden > usize::MAX {
            overflow("native hidden scratch")
        } else if 7 * layout.query_width > usize::MAX {
            overflow("native query scratch")
        } else if 3 * layout.kv_width > usize::MAX {
            overflow("native KV scratch")
        } else if Self::row_elements(layout) > usize::MAX {
            overflow("native full-attention scratch elements")
        } else if token_count * Self::row_elements(layout) > usize::MAX {
            overflow("native full-attention token count * scratch elements")
        } else if token_count * spec_control_elements(layout) > usize::MAX {
            overflow("native full-attention token count * mRoPE controls")
        } else {
            None
        }
    }

    /// Derive the attention scratch and the rotary controls of a number of token rows.
    pub fn from_rows(layout: Layout, token_count: usize) -> (extents: Result<
        FullWorkspaceExtents,
        Error,
    >)
        ensures
            match extents {
                Ok(extents) => {
                    &&& Self::rows_failure(layout, token_count) is None
                    &&& extents.elements == token_count * Self::row_elements(layout)
                    &&& extents.coefficient_elements == token_count * spec_control_elements(layout)
                },
                Err(error) => Self::rows_failure(layout, token_count) == Some(error),
            },
    {
        let parts: [usize; 3] = [
            elements_bytes(layout.hidden, 2, "native hidden scratch")?,
            elements_bytes(layout.query_width, 7, "native query scratch")?,
            elements_bytes(layout.kv_width, 3, "native KV scratch")?,
        ];
        proof {
            reveal_with_fuel(qwen35_execution::total, 4);
        }
        let row: usize = sum(&parts, "native full-attention scratch elements")?;
        let elements: usize = elements_bytes(
            token_count,
            row,
            "native full-attention token count * scratch elements",
        )?;
        let coefficient_elements: usize = elements_bytes(
            token_count,
            control_elements(layout),
            "native full-attention token count * mRoPE controls",
        )?;
        Ok(FullWorkspaceExtents { elements, coefficient_elements })
    }
}

/// The rotary controls of one position: a cosine and a sine for every pair.
pub open spec fn spec_control_elements(layout: Layout) -> int {
    2 * (layout.n_rot as int / 2)
}

/// Count the rotary controls of one position: a cosine and a sine for every pair.
pub fn control_elements(layout: Layout) -> (elements: usize)
    ensures
        elements == spec_control_elements(layout),
{
    layout.n_rot / 2 * 2
}

/// The scratch of one row of a full-attention block: its attention and its tail.
pub open spec fn spec_scratch_elements(layout: Layout) -> int {
    5 * layout.hidden + 7 * layout.query_width + 3 * layout.kv_width + 3 * layout.feed_forward
}

/// Why the scratch of a full-attention block cannot be counted, if it cannot.
pub open spec fn scratch_failure(layout: Layout) -> Option<Error> {
    if 5 * layout.hidden > usize::MAX {
        overflow("native hidden scratch")
    } else if 7 * layout.query_width > usize::MAX {
        overflow("native query scratch")
    } else if 3 * layout.kv_width > usize::MAX {
        overflow("native KV scratch")
    } else if 3 * layout.feed_forward > usize::MAX {
        overflow("native FFN scratch")
    } else if spec_scratch_elements(layout) > usize::MAX {
        overflow("native scratch elements")
    } else {
        None
    }
}

/// Count the scratch of one row of a full-attention block: eleven attention buffers
/// and the six buffers of its tail.
pub fn scratch_elements(layout: Layout) -> (elements: Result<usize, Error>)
    ensures
        match elements {
            Ok(elements) => {
                &&& scratch_failure(layout) is None
                &&& elements == spec_scratch_elements(layout)
            },
            Err(error) => scratch_failure(layout) == Some(error),
        },
{
    let parts: [usize; 4] = [
        elements_bytes(layout.hidden, 5, "native hidden scratch")?,
        elements_bytes(layout.query_width, 7, "native query scratch")?,
        elements_bytes(layout.kv_width, 3, "native KV scratch")?,
        elements_bytes(layout.feed_forward, 3, "native FFN scratch")?,
    ];
    proof {
        reveal_with_fuel(qwen35_execution::total, 5);
    }
    sum(&parts, "native scratch elements")
}

/// The scratch of a full-attention block is the scratch of its attention and of its
/// tail, for one row each.
pub proof fn lemma_scratch_is_attention_and_tail(layout: Layout)
    requires
        LayerFinishWorkspacePlan::rows_failure(layout, 1) is None,
    ensures
        spec_scratch_elements(layout) == FullWorkspaceExtents::row_elements(layout)
            + LayerFinishWorkspacePlan::planned(layout, 1).spec_elements(),
{
    assert(1 * layout.hidden == layout.hidden && 1 * layout.feed_forward == layout.feed_forward);
}

/// The serialized bytes of the seven matrices of a full-attention block.
#[derive(Clone, Copy, Debug, PartialEq, Eq, Structural)]
pub struct ProjectionWeightBytes {
    pub q_gate: usize,
    pub key: usize,
    pub value: usize,
    pub output: usize,
    pub ffn_gate: usize,
    pub ffn_up: usize,
    pub ffn_down: usize,
}

impl ProjectionWeightBytes {
    /// The sum of the seven matrices.
    pub open spec fn spec_bytes(self) -> int {
        self.q_gate + self.key + self.value + self.output + self.ffn_gate + self.ffn_up
            + self.ffn_down
    }

    /// Add the seven matrices, refusing overflow.
    pub fn bytes(self) -> (bytes: Result<usize, Error>)
        ensures
            match bytes {
                Ok(bytes) => bytes == self.spec_bytes(),
                Err(error) => self.spec_bytes() > usize::MAX && Some(error) == overflow(
                    "native serialized projection bytes",
                ),
            },
    {
        let parts: [usize; 7] = [
            self.q_gate,
            self.key,
            self.value,
            self.output,
            self.ffn_gate,
            self.ffn_up,
            self.ffn_down,
        ];
        proof {
            reveal_with_fuel(qwen35_execution::total, 8);
        }
        sum(&parts, "native serialized projection bytes")
    }
}

/// The elements of the four normalization vectors of a full-attention block: its input
/// and its tail normalize hidden rows, and its query and key normalize heads.
pub open spec fn norm_elements(layout: Layout) -> int {
    2 * layout.hidden + 2 * layout.key
}

/// Count the bytes of the four normalization vectors of a full-attention block.
pub fn norm_bytes(layout: Layout) -> (bytes: Result<usize, Error>)
    ensures
        match bytes {
            Ok(bytes) => bytes == 4 * norm_elements(layout),
            Err(error) => if norm_elements(layout) > usize::MAX {
                Some(error) == overflow("native scalar weight elements")
            } else {
                4 * norm_elements(layout) > usize::MAX && Some(error) == overflow(
                    "native scalar weight bytes",
                )
            },
        },
{
    let widths: [usize; 4] = [layout.hidden, layout.key, layout.key, layout.hidden];
    proof {
        reveal_with_fuel(qwen35_execution::total, 5);
    }
    elements_bytes(
        sum(&widths, "native scalar weight elements")?,
        WORD_BYTES,
        "native scalar weight bytes",
    )
}

/// Why the byte demand of a full-attention block cannot be derived, if it cannot: the
/// first category that fails, in category order.
pub open spec fn block_failure(
    layout: Layout,
    matrices: ProjectionWeightBytes,
    kv: NativeKvExtents,
) -> Option<Error> {
    if matrices.spec_bytes() > usize::MAX {
        overflow("native serialized projection bytes")
    } else if norm_elements(layout) > usize::MAX {
        overflow("native scalar weight elements")
    } else if 4 * norm_elements(layout) > usize::MAX {
        overflow("native scalar weight bytes")
    } else if matrices.spec_bytes() + 4 * norm_elements(layout) > usize::MAX {
        overflow("native weight bytes")
    } else if scratch_failure(layout) is Some {
        scratch_failure(layout)
    } else if 4 * spec_scratch_elements(layout) > usize::MAX {
        overflow("native scratch bytes")
    } else if 4 * layout.hidden > usize::MAX {
        overflow("native input bytes")
    } else if 4 * spec_control_elements(layout) > usize::MAX {
        overflow("native control bytes")
    } else if 2 * kv.backing_elements > usize::MAX {
        overflow("native separate K/V backing")
    } else if 8 * kv.backing_elements > usize::MAX {
        overflow("native K/V bytes")
    } else if 4 * kv.page_table_entries > usize::MAX {
        overflow("native table bytes")
    } else {
        None
    }
}

/// Whether a demand is that of one full-attention block session.
pub open spec fn block_demand(
    layout: Layout,
    matrices: ProjectionWeightBytes,
    kv: NativeKvExtents,
    numerical_status: usize,
    demand: DeviceByteDemand,
) -> bool {
    &&& demand.weights == matrices.spec_bytes() + 4 * norm_elements(layout)
    &&& demand.scratch == 4 * spec_scratch_elements(layout)
    &&& demand.input == 4 * layout.hidden
    &&& demand.output == 4 * layout.hidden
    &&& demand.controls == 4 * spec_control_elements(layout)
    &&& demand.key_values == 8 * kv.backing_elements
    &&& demand.table == 4 * kv.page_table_entries
    &&& demand.numerical_status == numerical_status
}

impl DeviceByteDemand {
    /// Derive the byte demand of one full-attention block session.
    pub fn from_block(
        layout: Layout,
        matrices: ProjectionWeightBytes,
        kv: NativeKvExtents,
        numerical_status: usize,
    ) -> (demand: Result<DeviceByteDemand, Error>)
        ensures
            match demand {
                Ok(demand) => {
                    &&& block_failure(layout, matrices, kv) is None
                    &&& block_demand(layout, matrices, kv, numerical_status, demand)
                },
                Err(error) => block_failure(layout, matrices, kv) == Some(error),
            },
    {
        let weights: usize = checked_sum(
            matrices.bytes()?,
            norm_bytes(layout)?,
            "native weight bytes",
        )?;
        let scratch: usize = elements_bytes(
            scratch_elements(layout)?,
            WORD_BYTES,
            "native scratch bytes",
        )?;
        let row: usize = elements_bytes(layout.hidden, WORD_BYTES, "native input bytes")?;
        let controls: usize = elements_bytes(
            control_elements(layout),
            WORD_BYTES,
            "native control bytes",
        )?;
        let key_values: usize = elements_bytes(
            elements_bytes(kv.backing_elements, 2, "native separate K/V backing")?,
            WORD_BYTES,
            "native K/V bytes",
        )?;
        let table: usize = elements_bytes(
            kv.page_table_entries,
            WORD_BYTES,
            "native table bytes",
        )?;
        Ok(
            DeviceByteDemand {
                weights,
                scratch,
                input: row,
                output: row,
                controls,
                key_values,
                table,
                numerical_status,
            },
        )
    }
}

/// The extents of one main block: what its weights, its workspace, and its state
/// take on a device.
#[derive(Clone, Copy, Debug, PartialEq, Eq, Structural)]
pub enum NativeBlockExtents {
    Full {
        workspace: FullWorkspaceExtents,
        finish_scratch: usize,
        matrices: usize,
        norms: usize,
        finish_weights: usize,
    },
    Recurrent {
        workspace_elements: usize,
        finish_scratch: usize,
        weights: usize,
        finish_weights: usize,
        history: usize,
        state: usize,
    },
}

impl NativeBlockExtents {
    /// The weight bytes of the block.
    pub open spec fn weight_bytes(self) -> int {
        match self {
            NativeBlockExtents::Full { matrices, norms, finish_weights, .. } => matrices + norms
                + finish_weights,
            NativeBlockExtents::Recurrent { weights, finish_weights, .. } => weights
                + finish_weights,
        }
    }

    /// The convolution-history elements of the block.
    pub open spec fn history_elements(self) -> int {
        match self {
            NativeBlockExtents::Full { .. } => 0,
            NativeBlockExtents::Recurrent { history, .. } => history as int,
        }
    }

    /// Report whether the block is a full-attention block.
    pub fn is_full(&self) -> (full: bool)
        ensures
            full == (*self is Full),
    {
        match self {
            NativeBlockExtents::Full { .. } => true,
            NativeBlockExtents::Recurrent { .. } => false,
        }
    }

    /// The recurrent-state elements of the block.
    pub open spec fn state_elements(self) -> int {
        match self {
            NativeBlockExtents::Full { .. } => 0,
            NativeBlockExtents::Recurrent { state, .. } => state as int,
        }
    }
}

/// What the blocks of a model need together: one workspace for each kind of block,
/// and the sums of what every block keeps.
#[derive(Clone, Copy, Debug, PartialEq, Eq, Structural)]
pub struct ModelBlockPlans {
    pub full_workspace: Option<FullWorkspaceExtents>,
    pub recurrent_workspace: Option<usize>,
    pub finish_workspace_bytes: Option<usize>,
    pub weights_bytes: usize,
    pub recurrent_history_elements: usize,
    pub recurrent_state_elements: usize,
    pub full_layers: usize,
}

/// The first of two values that is there.
pub open spec fn first_of<T>(kept: Option<T>, next: T) -> Option<T> {
    match kept {
        Some(kept) => Some(kept),
        None => Some(next),
    }
}

impl ModelBlockPlans {
    /// The plans of no block.
    pub open spec fn empty(weights_bytes: usize) -> ModelBlockPlans {
        ModelBlockPlans {
            full_workspace: None,
            recurrent_workspace: None,
            finish_workspace_bytes: None,
            weights_bytes,
            recurrent_history_elements: 0,
            recurrent_state_elements: 0,
            full_layers: 0,
        }
    }

    /// The plans with one block more, or the first sum that overflows. The first
    /// block of a kind fixes the workspace of the kind.
    pub open spec fn pushed(self, block: NativeBlockExtents) -> Result<ModelBlockPlans, Error> {
        let weights_bytes = self.weights_bytes + block.weight_bytes();
        let history = self.recurrent_history_elements + block.history_elements();
        let state = self.recurrent_state_elements + block.state_elements();
        match block {
            NativeBlockExtents::Full { workspace, finish_scratch, .. } => if weights_bytes
                > usize::MAX {
                Err(
                    Error::ArithmeticOverflow {
                        context: "native full-attention model weight bytes",
                    },
                )
            } else if self.full_layers == usize::MAX {
                Err(Error::ArithmeticOverflow { context: "native full-attention layer count" })
            } else {
                Ok(
                    ModelBlockPlans {
                        full_workspace: first_of(self.full_workspace, workspace),
                        finish_workspace_bytes: first_of(
                            self.finish_workspace_bytes,
                            finish_scratch,
                        ),
                        weights_bytes: weights_bytes as usize,
                        full_layers: (self.full_layers + 1) as usize,
                        ..self
                    },
                )
            },
            NativeBlockExtents::Recurrent { workspace_elements, finish_scratch, .. } => if weights_bytes
                > usize::MAX {
                Err(
                    Error::ArithmeticOverflow { context: "native recurrent model weight bytes" },
                )
            } else if history > usize::MAX {
                Err(
                    Error::ArithmeticOverflow {
                        context: "native recurrent convolution history elements",
                    },
                )
            } else if state > usize::MAX {
                Err(Error::ArithmeticOverflow { context: "native recurrent state elements" })
            } else {
                Ok(
                    ModelBlockPlans {
                        recurrent_workspace: first_of(
                            self.recurrent_workspace,
                            workspace_elements,
                        ),
                        finish_workspace_bytes: first_of(
                            self.finish_workspace_bytes,
                            finish_scratch,
                        ),
                        weights_bytes: weights_bytes as usize,
                        recurrent_history_elements: history as usize,
                        recurrent_state_elements: state as usize,
                        ..self
                    },
                )
            },
        }
    }

    /// The plans of the first `count` blocks, or the first failure among them.
    pub open spec fn upto(
        weights_bytes: usize,
        blocks: Seq<NativeBlockExtents>,
        count: int,
    ) -> Result<ModelBlockPlans, Error>
        decreases count,
    {
        if count <= 0 {
            Ok(ModelBlockPlans::empty(weights_bytes))
        } else {
            match ModelBlockPlans::upto(weights_bytes, blocks, count - 1) {
                Ok(plans) => plans.pushed(blocks[count - 1]),
                Err(error) => Err(error),
            }
        }
    }

    /// Add one block, refusing a sum that overflows.
    pub fn push(self, block: NativeBlockExtents) -> (plans: Result<ModelBlockPlans, Error>)
        ensures
            plans == self.pushed(block),
    {
        match block {
            NativeBlockExtents::Full {
                workspace,
                finish_scratch,
                matrices,
                norms,
                finish_weights,
            } => {
                let parts: [usize; 4] = [self.weights_bytes, matrices, norms, finish_weights];
                proof {
                    reveal_with_fuel(qwen35_execution::total, 5);
                }
                let weights_bytes: usize = sum(&parts, "native full-attention model weight bytes")?;
                let full_layers: usize = checked_sum(
                    self.full_layers,
                    1,
                    "native full-attention layer count",
                )?;
                Ok(
                    ModelBlockPlans {
                        full_workspace: match self.full_workspace {
                            Some(kept) => Some(kept),
                            None => Some(workspace),
                        },
                        recurrent_workspace: self.recurrent_workspace,
                        finish_workspace_bytes: match self.finish_workspace_bytes {
                            Some(kept) => Some(kept),
                            None => Some(finish_scratch),
                        },
                        weights_bytes,
                        recurrent_history_elements: self.recurrent_history_elements,
                        recurrent_state_elements: self.recurrent_state_elements,
                        full_layers,
                    },
                )
            },
            NativeBlockExtents::Recurrent {
                workspace_elements,
                finish_scratch,
                weights,
                finish_weights,
                history,
                state,
            } => {
                let parts: [usize; 3] = [self.weights_bytes, weights, finish_weights];
                proof {
                    reveal_with_fuel(qwen35_execution::total, 4);
                }
                let weights_bytes: usize = sum(&parts, "native recurrent model weight bytes")?;
                let recurrent_history_elements: usize = checked_sum(
                    self.recurrent_history_elements,
                    history,
                    "native recurrent convolution history elements",
                )?;
                let recurrent_state_elements: usize = checked_sum(
                    self.recurrent_state_elements,
                    state,
                    "native recurrent state elements",
                )?;
                Ok(
                    ModelBlockPlans {
                        full_workspace: self.full_workspace,
                        recurrent_workspace: match self.recurrent_workspace {
                            Some(kept) => Some(kept),
                            None => Some(workspace_elements),
                        },
                        finish_workspace_bytes: match self.finish_workspace_bytes {
                            Some(kept) => Some(kept),
                            None => Some(finish_scratch),
                        },
                        weights_bytes,
                        recurrent_history_elements,
                        recurrent_state_elements,
                        full_layers: self.full_layers,
                    },
                )
            },
        }
    }

    /// Plan the main blocks of a model in order, on top of its global weights.
    pub fn from_blocks(weights_bytes: usize, blocks: &[NativeBlockExtents]) -> (plans: Result<
        ModelBlockPlans,
        Error,
    >)
        ensures
            plans == Self::upto(weights_bytes, blocks@, blocks@.len() as int),
    {
        let mut plans: ModelBlockPlans = ModelBlockPlans {
            full_workspace: None,
            recurrent_workspace: None,
            finish_workspace_bytes: None,
            weights_bytes,
            recurrent_history_elements: 0,
            recurrent_state_elements: 0,
            full_layers: 0,
        };
        let mut block: usize = 0;
        while block < blocks.len()
            invariant
                0 <= block <= blocks@.len(),
                Self::upto(weights_bytes, blocks@, block as int) == Ok::<ModelBlockPlans, Error>(
                    plans,
                ),
            decreases blocks@.len() - block,
        {
            proof {
                lemma_first_failure(weights_bytes, blocks@, block + 1, blocks@.len() as int);
            }
            plans = plans.push(blocks[block])?;
            block = block + 1;
        }
        Ok(plans)
    }
}

proof fn lemma_first_failure(
    weights_bytes: usize,
    blocks: Seq<NativeBlockExtents>,
    shorter: int,
    longer: int,
)
    requires
        0 <= shorter <= longer,
    ensures
        ModelBlockPlans::upto(weights_bytes, blocks, shorter) is Err ==> ModelBlockPlans::upto(
            weights_bytes,
            blocks,
            longer,
        ) == ModelBlockPlans::upto(weights_bytes, blocks, shorter),
    decreases longer - shorter,
{
    if shorter < longer {
        lemma_first_failure(weights_bytes, blocks, shorter, longer - 1);
    }
}

/// The sum of what the first `count` blocks take of one resource.
pub open spec fn block_sum(
    blocks: Seq<NativeBlockExtents>,
    take: spec_fn(NativeBlockExtents) -> int,
    count: int,
) -> int
    decreases count,
{
    if count <= 0 {
        0
    } else {
        block_sum(blocks, take, count - 1) + take(blocks[count - 1])
    }
}

/// A model keeps the weights, the histories, and the states of all its blocks, and
/// counts its full-attention blocks; a workspace is shared by the blocks of a kind.
pub proof fn lemma_block_totals(
    weights_bytes: usize,
    blocks: Seq<NativeBlockExtents>,
    count: int,
    plans: ModelBlockPlans,
)
    requires
        0 <= count <= blocks.len(),
        ModelBlockPlans::upto(weights_bytes, blocks, count) == Ok::<ModelBlockPlans, Error>(plans),
    ensures
        plans.weights_bytes == weights_bytes + block_sum(
            blocks,
            |block: NativeBlockExtents| block.weight_bytes(),
            count,
        ),
        plans.recurrent_history_elements == block_sum(
            blocks,
            |block: NativeBlockExtents| block.history_elements(),
            count,
        ),
        plans.recurrent_state_elements == block_sum(
            blocks,
            |block: NativeBlockExtents| block.state_elements(),
            count,
        ),
        plans.full_layers == block_sum(
            blocks,
            |block: NativeBlockExtents|
                if block is Full {
                    1
                } else {
                    0
                },
            count,
        ),
        plans.finish_workspace_bytes is Some <==> count > 0,
        plans.full_workspace is Some <==> plans.full_layers > 0,
    decreases count,
{
    if count > 0 {
        let before = ModelBlockPlans::upto(weights_bytes, blocks, count - 1)->Ok_0;
        lemma_block_totals(weights_bytes, blocks, count - 1, before);
    }
}

/// Paged key and value extents of a model: the elements of one backing, and the
/// entries of the page table.
#[derive(Clone, Copy, Debug, PartialEq, Eq, Structural)]
pub struct NativeKvExtents {
    pub backing_elements: usize,
    pub page_table_entries: usize,
}

/// The extents of a model that do not come from its blocks.
#[derive(Clone, Copy, Debug, PartialEq, Eq, Structural)]
pub struct ModelExtents {
    pub hidden: usize,
    pub vocabulary: usize,
    pub final_normalized: usize,
    pub kv: Option<NativeKvExtents>,
    pub numerical_status: usize,
}

/// Count the bytes of an optional number of elements: none takes none.
fn optional_bytes(elements: Option<usize>, context: &'static str) -> (bytes: Result<usize, Error>)
    ensures
        match bytes {
            Ok(bytes) => bytes == 4 * optional_elements(elements),
            Err(error) => {
                &&& 4 * optional_elements(elements) > usize::MAX
                &&& error == (Error::ArithmeticOverflow { context })
            },
        },
{
    match elements {
        Some(elements) => elements_bytes(elements, WORD_BYTES, context),
        None => Ok(0),
    }
}

/// An optional number of elements: none is no element.
pub open spec fn optional_elements(elements: Option<usize>) -> int {
    match elements {
        Some(elements) => elements as int,
        None => 0,
    }
}

/// The workspace elements of full-attention blocks, if there are any.
pub open spec fn full_elements(plans: ModelBlockPlans) -> Option<usize> {
    match plans.full_workspace {
        Some(workspace) => Some(workspace.elements),
        None => None,
    }
}

/// The control elements of full-attention blocks, if there are any.
pub open spec fn model_controls(plans: ModelBlockPlans) -> Option<usize> {
    match plans.full_workspace {
        Some(workspace) => Some(workspace.coefficient_elements),
        None => None,
    }
}

/// The table entries of the paged cache, if there is one.
pub open spec fn table_entries(extents: ModelExtents) -> Option<usize> {
    match extents.kv {
        Some(kv) => Some(kv.page_table_entries),
        None => None,
    }
}

/// The elements of the two backings of the paged cache.
pub open spec fn kv_elements(extents: ModelExtents) -> int {
    match extents.kv {
        Some(kv) => 2 * kv.backing_elements,
        None => 0,
    }
}

/// An overflowed extent.
pub open spec fn overflow(context: &'static str) -> Option<Error> {
    Some(Error::ArithmeticOverflow { context })
}

/// Why the byte demand of a model cannot be derived, if it cannot: the first
/// category that fails, in category order.
pub open spec fn demand_failure(
    extents: ModelExtents,
    max_chunk_tokens: usize,
    plans: ModelBlockPlans,
) -> Option<Error> {
    let row = extents.hidden * max_chunk_tokens;
    if 4 * optional_elements(full_elements(plans)) > usize::MAX {
        overflow("native full workspace bytes")
    } else if 4 * optional_elements(plans.recurrent_workspace) > usize::MAX {
        overflow("native recurrent workspace bytes")
    } else if plans.finish_workspace_bytes is None {
        Some(
            Error::NativeSessionState {
                rule: "native main model requires checked layer-finish workspace bytes",
            },
        )
    } else if row > usize::MAX {
        overflow("native prefill hidden row elements")
    } else if 2 * row > usize::MAX {
        overflow("native hidden ping-pong rows")
    } else if 8 * row > usize::MAX {
        overflow("native hidden ping-pong bytes")
    } else if 4 * extents.final_normalized > usize::MAX {
        overflow("native final normalized bytes")
    } else if 4 * extents.vocabulary > usize::MAX {
        overflow("native logits bytes")
    } else if 4 * optional_elements(model_controls(plans)) > usize::MAX {
        overflow("native mRoPE control bytes")
    } else if kv_elements(extents) > usize::MAX {
        overflow("native main-model separate K/V backing")
    } else if 4 * kv_elements(extents) > usize::MAX {
        overflow("native main-model K/V bytes")
    } else if 4 * optional_elements(table_entries(extents)) > usize::MAX {
        overflow("native main-model page table bytes")
    } else if 4 * plans.recurrent_history_elements > usize::MAX {
        overflow("native active recurrent convolution history bytes")
    } else if 4 * plans.recurrent_state_elements > usize::MAX {
        overflow("native active recurrent state bytes")
    } else {
        None
    }
}

/// The byte demand of a model: transient rows are sized by the chunk capacity, and
/// what persists is not.
pub open spec fn demand_of(
    extents: ModelExtents,
    max_chunk_tokens: usize,
    plans: ModelBlockPlans,
) -> ModelDeviceByteDemand {
    ModelDeviceByteDemand {
        weights: plans.weights_bytes,
        full_workspace: (4 * optional_elements(full_elements(plans))) as usize,
        recurrent_workspace: (4 * optional_elements(plans.recurrent_workspace)) as usize,
        finish_workspace: plans.finish_workspace_bytes->0,
        hidden_rows: (8 * (extents.hidden * max_chunk_tokens)) as usize,
        final_normalized: (4 * extents.final_normalized) as usize,
        logits: (4 * extents.vocabulary) as usize,
        mrope_controls: (4 * optional_elements(model_controls(plans))) as usize,
        key_values: (4 * kv_elements(extents)) as usize,
        page_table: (4 * optional_elements(table_entries(extents))) as usize,
        recurrent_history_active: (4 * plans.recurrent_history_elements) as usize,
        recurrent_history_staged: (4 * plans.recurrent_history_elements) as usize,
        recurrent_state_active: (4 * plans.recurrent_state_elements) as usize,
        recurrent_state_staged: (4 * plans.recurrent_state_elements) as usize,
        numerical_status: extents.numerical_status,
    }
}

/// Count the elements of the hidden rows of a chunk, refusing overflow.
pub fn hidden_row_elements(hidden: usize, max_chunk_tokens: usize) -> (elements: Result<
    usize,
    Error,
>)
    ensures
        match elements {
            Ok(elements) => elements == hidden * max_chunk_tokens,
            Err(error) => {
                &&& hidden * max_chunk_tokens > usize::MAX
                &&& Some(error) == overflow("native prefill hidden row elements")
            },
        },
{
    elements_bytes(hidden, max_chunk_tokens, "native prefill hidden row elements")
}

impl ModelDeviceByteDemand {
    /// Derive the byte demand of a model from its blocks and its other extents.
    pub fn from_model(
        extents: ModelExtents,
        max_chunk_tokens: usize,
        plans: &ModelBlockPlans,
    ) -> (demand: Result<ModelDeviceByteDemand, Error>)
        ensures
            match demand {
                Ok(demand) => {
                    &&& demand_failure(extents, max_chunk_tokens, *plans) is None
                    &&& demand == demand_of(extents, max_chunk_tokens, *plans)
                },
                Err(error) => demand_failure(extents, max_chunk_tokens, *plans) == Some(error),
            },
    {
        let full: Option<usize> = match plans.full_workspace {
            Some(workspace) => Some(workspace.elements),
            None => None,
        };
        let controls: Option<usize> = match plans.full_workspace {
            Some(workspace) => Some(workspace.coefficient_elements),
            None => None,
        };
        let full_workspace: usize = optional_bytes(full, "native full workspace bytes")?;
        let recurrent_workspace: usize = optional_bytes(
            plans.recurrent_workspace,
            "native recurrent workspace bytes",
        )?;
        let finish_workspace: usize = match plans.finish_workspace_bytes {
            Some(bytes) => bytes,
            None => {
                return Err(
                    Error::NativeSessionState {
                        rule: "native main model requires checked layer-finish workspace bytes",
                    },
                );
            },
        };
        let row: usize = hidden_row_elements(extents.hidden, max_chunk_tokens)?;
        let rows: usize = checked_sum(row, row, "native hidden ping-pong rows")?;
        let hidden_rows: usize = elements_bytes(rows, WORD_BYTES, "native hidden ping-pong bytes")?;
        let final_normalized: usize = elements_bytes(
            extents.final_normalized,
            WORD_BYTES,
            "native final normalized bytes",
        )?;
        let logits: usize = elements_bytes(extents.vocabulary, WORD_BYTES, "native logits bytes")?;
        let mrope_controls: usize = optional_bytes(controls, "native mRoPE control bytes")?;
        let (key_values, page_table): (usize, usize) = match extents.kv {
            Some(kv) => {
                let both: usize = elements_bytes(
                    kv.backing_elements,
                    2,
                    "native main-model separate K/V backing",
                )?;
                (
                    elements_bytes(both, WORD_BYTES, "native main-model K/V bytes")?,
                    elements_bytes(
                        kv.page_table_entries,
                        WORD_BYTES,
                        "native main-model page table bytes",
                    )?,
                )
            },
            None => (0, 0),
        };
        let history: usize = elements_bytes(
            plans.recurrent_history_elements,
            WORD_BYTES,
            "native active recurrent convolution history bytes",
        )?;
        let state: usize = elements_bytes(
            plans.recurrent_state_elements,
            WORD_BYTES,
            "native active recurrent state bytes",
        )?;
        Ok(
            ModelDeviceByteDemand {
                weights: plans.weights_bytes,
                full_workspace,
                recurrent_workspace,
                finish_workspace,
                hidden_rows,
                final_normalized,
                logits,
                mrope_controls,
                key_values,
                page_table,
                recurrent_history_active: history,
                recurrent_history_staged: history,
                recurrent_state_active: state,
                recurrent_state_staged: state,
                numerical_status: extents.numerical_status,
            },
        )
    }
}

/// What persists does not depend on the chunk capacity: two capacities of one model
/// differ in transient hidden rows alone, which grow with the capacity.
pub proof fn lemma_capacity_scales_hidden_rows(
    extents: ModelExtents,
    max_chunk_tokens: usize,
    plans: ModelBlockPlans,
)
    requires
        max_chunk_tokens > 0,
        demand_failure(extents, max_chunk_tokens, plans) is None,
    ensures
        demand_failure(extents, 1, plans) is None,
        demand_of(extents, max_chunk_tokens, plans) == (ModelDeviceByteDemand {
            hidden_rows: (max_chunk_tokens * demand_of(extents, 1, plans).hidden_rows) as usize,
            ..demand_of(extents, 1, plans)
        }),
{
    let hidden = extents.hidden as int;
    let tokens = max_chunk_tokens as int;
    assert(hidden * 1 == hidden);
    assert(hidden <= hidden * tokens) by (nonlinear_arith)
        requires
            hidden >= 0,
            tokens >= 1,
    ;
    assert(tokens * (8 * hidden) == 8 * (hidden * tokens)) by (nonlinear_arith);
}

/// Why a chunk capacity is refused, if it is.
pub open spec fn capacity_failure(max_context: usize, max_chunk_tokens: usize) -> Option<Error> {
    if max_chunk_tokens == 0 || max_chunk_tokens > max_context {
        Some(
            Error::NativeSessionState {
                rule: "native prefill chunk capacity must be positive and within context",
            },
        )
    } else {
        None
    }
}

/// Require a chunk capacity to be positive and within the context.
pub fn check_chunk_capacity(max_context: usize, max_chunk_tokens: usize) -> (checked: Result<
    (),
    Error,
>)
    ensures
        match checked {
            Ok(_) => capacity_failure(max_context, max_chunk_tokens) is None,
            Err(error) => capacity_failure(max_context, max_chunk_tokens) == Some(error),
        },
{
    if max_chunk_tokens == 0 || max_chunk_tokens > max_context {
        return Err(
            Error::NativeSessionState {
                rule: "native prefill chunk capacity must be positive and within context",
            },
        );
    }
    Ok(())
}

/// Require a vocabulary matrix to have a row for each vocabulary entry.
pub fn verify_vocabulary_matrix(
    rows: usize,
    width: usize,
    layout: Layout,
    rule: &'static str,
) -> (checked: Result<(), Error>)
    ensures
        match checked {
            Ok(_) => rows == layout.vocabulary && width == layout.hidden,
            Err(error) => {
                &&& rows != layout.vocabulary || width != layout.hidden
                &&& error == (Error::NativeSessionState { rule })
            },
        },
{
    if rows != layout.vocabulary || width != layout.hidden {
        return Err(Error::NativeSessionState { rule });
    }
    Ok(())
}

} // verus!
