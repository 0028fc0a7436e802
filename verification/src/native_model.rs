//! Native main-model plans bound to the stored tensors of an artifact: every main block
//! in order, without the terminal next-token blocks.

use crate::allocation::reserve;
use crate::error::Error;
use crate::gguf::{VerifiedArtifact, VerifiedTensor};
use crate::native_demand::{checked_sum, elements_bytes, sum, ModelDeviceByteDemand, WORD_BYTES};
use crate::native_plan;
use crate::native_plan::{
    capacity_failure, check_chunk_capacity, demand_failure, demand_of, overflow,
    verify_vocabulary_matrix, FullWorkspaceExtents, LayerFinishWorkspacePlan, ModelBlockPlans,
    ModelExtents, NativeBlockExtents, NativeKvExtents, RecurrentOperationPlans,
    RecurrentWorkspacePlan,
};
use crate::native_session::{DeviceModelPlan, F32Parameter, ProjectionWeight};
use crate::native_weights;
use crate::native_weights::{
    bind_matrices, bind_parameters, f32_parameter, first_matrix_refused, first_parameter_refused,
    matrices_bound, matrix_bound, matrix_refused, parameter_bound, parameters_bound, projection,
    shapes, vector_shape, ParameterRole, ParameterShape, RowLength,
};
use crate::payload;
use crate::qwen35::{
    Qwen35RecurrentLayout, Qwen35StructuralProfile, ATTN_GATE_ROLE, ATTN_K_NORM_ROLE, ATTN_K_ROLE,
    ATTN_NORM_ROLE, ATTN_OUTPUT_ROLE, ATTN_QKV_ROLE, ATTN_Q_NORM_ROLE, ATTN_Q_ROLE, ATTN_V_ROLE,
    FFN_DOWN_ROLE, FFN_GATE_ROLE, FFN_UP_ROLE, POST_ATTENTION_NORM_ROLE, SSM_ALPHA_ROLE,
    SSM_A_ROLE, SSM_BETA_ROLE, SSM_CONV1D_ROLE, SSM_DT_ROLE, SSM_NORM_ROLE, SSM_OUT_ROLE,
};
use crate::qwen35_execution;
use crate::qwen35_execution::{sum_elements, Layout, OUTPUT, OUTPUT_NORM, TOKEN_EMBEDDING};
use crate::qwen35_recurrent::ExecutionLayout;
use crate::text;
use vstd::prelude::*;

verus! {

/// What only kernels can derive of the recurrent blocks of a model: the extents of their
/// operations for the rows of a chunk, the elements of a convolution, and the elements of
/// the two states that a block keeps.
#[derive(Clone, Copy, Debug)]
pub struct RecurrentKernels {
    pub operations: RecurrentOperationPlans,
    pub convolution_weights: usize,
    pub history: usize,
    pub state: usize,
}

/// What only kernels can derive of a model: the lengths of serialized rows, its recurrent
/// blocks, its paged cache, and its numerical status.
#[derive(Clone, Copy, Debug)]
pub struct ModelKernels<'rows> {
    pub rows: &'rows [RowLength],
    pub recurrent: RecurrentKernels,
    pub kv: NativeKvExtents,
    pub numerical_status: usize,
}

/// The serialized bytes of each of a list of matrices.
pub open spec fn weight_list(weights: Seq<ProjectionWeight>) -> Seq<usize> {
    weights.map_values(|weight: ProjectionWeight| weight.serialized_bytes)
}

/// The serialized bytes of a list of matrices.
pub open spec fn weight_sum(weights: Seq<ProjectionWeight>) -> int {
    qwen35_execution::total(weight_list(weights))
}

fn sum_weights(weights: &[ProjectionWeight], context: &'static str) -> (bytes: Result<
    usize,
    Error,
>)
    ensures
        match bytes {
            Ok(bytes) => bytes == weight_sum(weights@),
            Err(error) => weight_sum(weights@) > usize::MAX && Some(error) == overflow(context),
        },
{
    let mut list: Vec<usize> = Vec::new();
    let mut i: usize = 0;
    while i < weights.len()
        invariant
            0 <= i <= weights@.len(),
            list@.len() == i,
            forall|j: int| 0 <= j < i ==> #[trigger] list@[j] == weights@[j].serialized_bytes,
        decreases weights@.len() - i,
    {
        list.push(weights[i].serialized_bytes);
        i = i + 1;
    }
    assert(list@ =~= weight_list(weights@));
    sum_elements(list.as_slice(), context)
}

/// The matrices of a layer's tail, in order.
pub open spec fn finish_roles() -> Seq<&'static str> {
    seq![FFN_GATE_ROLE, FFN_UP_ROLE, FFN_DOWN_ROLE]
}

/// The normalization vector of a layer's tail.
pub open spec fn finish_shapes(layout: Layout) -> Seq<ParameterShape> {
    seq![vector_shape(POST_ATTENTION_NORM_ROLE, layout.hidden)]
}

/// Why the tail of a layer has no extents, if it has none.
pub open spec fn finish_failure(layout: Layout, tokens: usize, matrices: int) -> Option<Error> {
    let scratch = LayerFinishWorkspacePlan::planned(layout, tokens).spec_elements();
    if LayerFinishWorkspacePlan::rows_failure(layout, tokens) is Some {
        LayerFinishWorkspacePlan::rows_failure(layout, tokens)
    } else if 4 * layout.hidden > usize::MAX {
        overflow("native layer-finish parameter bytes")
    } else if matrices + 4 * layout.hidden > usize::MAX {
        overflow("native layer-finish weight bytes")
    } else if scratch > usize::MAX {
        overflow("native layer-finish scratch elements")
    } else if 4 * scratch > usize::MAX {
        overflow("native layer-finish scratch bytes")
    } else {
        None
    }
}

/// Whether the tail of a block is planned with its weight bytes and its scratch bytes.
pub open spec fn finish_planned(
    artifact: VerifiedArtifact,
    table: Seq<RowLength>,
    layout: Layout,
    block: usize,
    tokens: usize,
    weights: usize,
    scratch: usize,
) -> bool {
    exists|norms: Seq<F32Parameter>, matrices: Seq<ProjectionWeight>|
        {
            &&& #[trigger] parameters_bound(artifact, block, finish_shapes(layout), norms)
            &&& #[trigger] matrices_bound(artifact, table, block, finish_roles(), matrices)
            &&& finish_failure(layout, tokens, weight_sum(matrices)) is None
            &&& weights == weight_sum(matrices) + 4 * layout.hidden
            &&& scratch == 4 * LayerFinishWorkspacePlan::planned(layout, tokens).spec_elements()
        }
}

/// Whether the tail of a block is refused with an error.
pub open spec fn finish_refused(
    artifact: VerifiedArtifact,
    table: Seq<RowLength>,
    layout: Layout,
    block: usize,
    tokens: usize,
    error: Error,
) -> bool {
    ||| exists|index: int| #[trigger]
        first_parameter_refused(artifact, block, finish_shapes(layout), index, error)
    ||| exists|norms: Seq<F32Parameter>| #[trigger]
        parameters_bound(artifact, block, finish_shapes(layout), norms) && {
            ||| exists|index: int| #[trigger]
                first_matrix_refused(artifact, table, block, finish_roles(), index, error)
            ||| exists|matrices: Seq<ProjectionWeight>| #[trigger]
                matrices_bound(artifact, table, block, finish_roles(), matrices)
                    && finish_failure(layout, tokens, weight_sum(matrices)) == Some(error)
        }
}

/// Bind the tail of a block and count its weight bytes and its scratch bytes.
pub fn plan_finish(
    artifact: &VerifiedArtifact,
    table: &[RowLength],
    layout: Layout,
    block: usize,
    tokens: usize,
) -> (finish: Result<(usize, usize), Error>)
    ensures
        match finish {
            Ok((weights, scratch)) => finish_planned(
                *artifact,
                table@,
                layout,
                block,
                tokens,
                weights,
                scratch,
            ),
            Err(error) => finish_refused(*artifact, table@, layout, block, tokens, error),
        },
{
    let norms: [ParameterRole; 1] = [
        native_weights::vector_role(POST_ATTENTION_NORM_ROLE, layout.hidden),
    ];
    assert(shapes(norms@) =~= finish_shapes(layout));
    let norms = bind_parameters(artifact, block, &norms)?;
    assert(parameters_bound(*artifact, block, finish_shapes(layout), norms@));
    let roles: [&'static str; 3] = [FFN_GATE_ROLE, FFN_UP_ROLE, FFN_DOWN_ROLE];
    assert(roles@ =~= finish_roles());
    let matrices = bind_matrices(artifact, table, block, &roles)?;
    assert(matrices_bound(*artifact, table@, block, finish_roles(), matrices@));
    let workspace = LayerFinishWorkspacePlan::from_rows(layout, tokens)?;
    let parameter: usize = elements_bytes(
        layout.hidden,
        WORD_BYTES,
        "native layer-finish parameter bytes",
    )?;
    let weights: usize = checked_sum(
        sum_weights(matrices.as_slice(), "native layer-finish weight bytes")?,
        parameter,
        "native layer-finish weight bytes",
    )?;
    let scratch: usize = workspace.bytes()?;
    Ok((weights, scratch))
}

/// The matrices of a full-attention block, in order.
pub open spec fn attention_roles() -> Seq<&'static str> {
    seq![ATTN_Q_ROLE, ATTN_K_ROLE, ATTN_V_ROLE, ATTN_OUTPUT_ROLE]
}

/// The normalization vectors of a full-attention block, in order.
pub open spec fn attention_shapes(layout: Layout) -> Seq<ParameterShape> {
    seq![
        vector_shape(ATTN_NORM_ROLE, layout.hidden),
        vector_shape(ATTN_Q_NORM_ROLE, layout.key),
        vector_shape(ATTN_K_NORM_ROLE, layout.key),
    ]
}

/// Why a full-attention block has no extents, if it has none.
pub open spec fn attention_failure(layout: Layout, tokens: usize, matrices: int) -> Option<Error> {
    let norms = layout.hidden + 2 * layout.key;
    if matrices > usize::MAX {
        overflow("native serialized projection bytes")
    } else if norms > usize::MAX {
        overflow("native scalar weight elements")
    } else if 4 * norms > usize::MAX {
        overflow("native scalar weight bytes")
    } else {
        FullWorkspaceExtents::rows_failure(layout, tokens)
    }
}

/// The extents of a full-attention block.
pub open spec fn full_extents(
    layout: Layout,
    tokens: usize,
    matrices: int,
    finish_weights: usize,
    finish_scratch: usize,
) -> NativeBlockExtents {
    NativeBlockExtents::Full {
        workspace: FullWorkspaceExtents {
            elements: (tokens * FullWorkspaceExtents::row_elements(layout)) as usize,
            coefficient_elements: (tokens * native_plan::spec_control_elements(layout)) as usize,
        },
        finish_scratch,
        matrices: matrices as usize,
        norms: (4 * (layout.hidden + 2 * layout.key)) as usize,
        finish_weights,
    }
}

/// Whether a full-attention block is planned with extents.
pub open spec fn full_planned(
    artifact: VerifiedArtifact,
    table: Seq<RowLength>,
    layout: Layout,
    block: usize,
    tokens: usize,
    extents: NativeBlockExtents,
) -> bool {
    exists|
        matrices: Seq<ProjectionWeight>,
        norms: Seq<F32Parameter>,
        weights: usize,
        scratch: usize,
    |
        {
            &&& #[trigger] matrices_bound(artifact, table, block, attention_roles(), matrices)
            &&& #[trigger] parameters_bound(artifact, block, attention_shapes(layout), norms)
            &&& #[trigger] finish_planned(artifact, table, layout, block, tokens, weights, scratch)
            &&& attention_failure(layout, tokens, weight_sum(matrices)) is None
            &&& extents == full_extents(layout, tokens, weight_sum(matrices), weights, scratch)
        }
}

/// Whether a full-attention block is refused with an error.
pub open spec fn full_refused(
    artifact: VerifiedArtifact,
    table: Seq<RowLength>,
    layout: Layout,
    block: usize,
    tokens: usize,
    error: Error,
) -> bool {
    ||| exists|index: int| #[trigger]
        first_matrix_refused(artifact, table, block, attention_roles(), index, error)
    ||| exists|matrices: Seq<ProjectionWeight>| #[trigger]
        matrices_bound(artifact, table, block, attention_roles(), matrices) && {
            ||| exists|index: int| #[trigger]
                first_parameter_refused(artifact, block, attention_shapes(layout), index, error)
            ||| exists|norms: Seq<F32Parameter>| #[trigger]
                parameters_bound(artifact, block, attention_shapes(layout), norms) && {
                    ||| attention_failure(layout, tokens, weight_sum(matrices)) == Some(error)
                    ||| {
                        &&& attention_failure(layout, tokens, weight_sum(matrices)) is None
                        &&& finish_refused(artifact, table, layout, block, tokens, error)
                    }
                }
        }
}

/// Bind a full-attention block and derive its extents.
pub fn plan_full(
    artifact: &VerifiedArtifact,
    table: &[RowLength],
    layout: Layout,
    block: usize,
    tokens: usize,
) -> (extents: Result<NativeBlockExtents, Error>)
    ensures
        match extents {
            Ok(extents) => full_planned(*artifact, table@, layout, block, tokens, extents),
            Err(error) => full_refused(*artifact, table@, layout, block, tokens, error),
        },
{
    let roles: [&'static str; 4] = [ATTN_Q_ROLE, ATTN_K_ROLE, ATTN_V_ROLE, ATTN_OUTPUT_ROLE];
    assert(roles@ =~= attention_roles());
    let matrices = bind_matrices(artifact, table, block, &roles)?;
    assert(matrices_bound(*artifact, table@, block, attention_roles(), matrices@));
    let norms: [ParameterRole; 3] = [
        native_weights::vector_role(ATTN_NORM_ROLE, layout.hidden),
        native_weights::vector_role(ATTN_Q_NORM_ROLE, layout.key),
        native_weights::vector_role(ATTN_K_NORM_ROLE, layout.key),
    ];
    assert(shapes(norms@) =~= attention_shapes(layout));
    let norms = bind_parameters(artifact, block, &norms)?;
    assert(parameters_bound(*artifact, block, attention_shapes(layout), norms@));
    let matrix_bytes: usize = sum_weights(
        matrices.as_slice(),
        "native serialized projection bytes",
    )?;
    let widths: [usize; 3] = [layout.hidden, layout.key, layout.key];
    proof {
        reveal_with_fuel(qwen35_execution::total, 4);
    }
    let norm_bytes: usize = elements_bytes(
        sum(&widths, "native scalar weight elements")?,
        WORD_BYTES,
        "native scalar weight bytes",
    )?;
    let workspace = FullWorkspaceExtents::from_rows(layout, tokens)?;
    let (finish_weights, finish_scratch) = plan_finish(artifact, table, layout, block, tokens)?;
    Ok(
        NativeBlockExtents::Full {
            workspace,
            finish_scratch,
            matrices: matrix_bytes,
            norms: norm_bytes,
            finish_weights,
        },
    )
}

/// The matrices of a recurrent block, in order.
pub open spec fn recurrent_roles() -> Seq<&'static str> {
    seq![ATTN_QKV_ROLE, ATTN_GATE_ROLE, SSM_ALPHA_ROLE, SSM_BETA_ROLE, SSM_OUT_ROLE]
}

/// The parameters of a recurrent block, in order.
pub open spec fn recurrent_shapes(
    host: ExecutionLayout,
    convolution: usize,
) -> Seq<ParameterShape> {
    seq![
        vector_shape(ATTN_NORM_ROLE, host.hidden),
        vector_shape(SSM_A_ROLE, host.value_head_count),
        vector_shape(SSM_DT_ROLE, host.value_head_count),
        ParameterShape {
            role: SSM_CONV1D_ROLE,
            dims: seq![host.conv_kernel as u64, host.conv_width as u64],
            elements: convolution,
        },
        vector_shape(SSM_NORM_ROLE, host.value_dim),
    ]
}

/// The workspace of a recurrent block: that of its operations, and two buffers in which
/// its output is laid out.
pub open spec fn recurrent_workspace(operations: RecurrentOperationPlans) -> int {
    RecurrentWorkspacePlan::allocated(operations) + 2 * operations.recurrence_output
}

/// Why a recurrent block has no workspace, if it has none.
pub open spec fn workspace_failure(operations: RecurrentOperationPlans) -> Option<Error> {
    if native_plan::operations_failure(operations) is Some {
        native_plan::operations_failure(operations)
    } else if recurrent_workspace(operations) > usize::MAX {
        overflow("native recurrent workspace elements")
    } else {
        None
    }
}

/// The elements of the parameters of a recurrent block.
pub open spec fn recurrent_elements(host: ExecutionLayout, convolution: usize) -> int {
    host.hidden + 2 * host.value_head_count + convolution + host.value_dim
}

/// Why the weights of a recurrent block cannot be counted, if they cannot.
pub open spec fn recurrent_weights_failure(
    host: ExecutionLayout,
    convolution: usize,
    matrices: int,
) -> Option<Error> {
    if 4 * host.hidden > usize::MAX {
        overflow("native recurrent attention norm bytes")
    } else if 4 * host.value_head_count > usize::MAX {
        overflow("native recurrent A bytes")
    } else if 4 * convolution > usize::MAX {
        overflow("native recurrent convolution bytes")
    } else if 4 * host.value_dim > usize::MAX {
        overflow("native recurrent output norm bytes")
    } else if matrices + 4 * recurrent_elements(host, convolution) > usize::MAX {
        overflow("native recurrent weight bytes")
    } else {
        None
    }
}

/// The extents of a recurrent block.
pub open spec fn recurrent_extents(
    host: ExecutionLayout,
    kernels: RecurrentKernels,
    matrices: int,
    finish_weights: usize,
    finish_scratch: usize,
) -> NativeBlockExtents {
    NativeBlockExtents::Recurrent {
        workspace_elements: recurrent_workspace(kernels.operations) as usize,
        finish_scratch,
        weights: (matrices + 4 * recurrent_elements(host, kernels.convolution_weights)) as usize,
        finish_weights,
        history: kernels.history,
        state: kernels.state,
    }
}

/// Whether a recurrent block is planned with extents.
pub open spec fn recurrent_planned(
    artifact: VerifiedArtifact,
    table: Seq<RowLength>,
    layout: Layout,
    host: ExecutionLayout,
    kernels: RecurrentKernels,
    block: usize,
    tokens: usize,
    extents: NativeBlockExtents,
) -> bool {
    let parameter_shapes = recurrent_shapes(host, kernels.convolution_weights);
    &&& workspace_failure(kernels.operations) is None
    &&& exists|
        matrices: Seq<ProjectionWeight>,
        parameters: Seq<F32Parameter>,
        weights: usize,
        scratch: usize,
    |
        {
            &&& #[trigger] matrices_bound(artifact, table, block, recurrent_roles(), matrices)
            &&& #[trigger] parameters_bound(artifact, block, parameter_shapes, parameters)
            &&& #[trigger] finish_planned(artifact, table, layout, block, tokens, weights, scratch)
            &&& recurrent_weights_failure(
                host,
                kernels.convolution_weights,
                weight_sum(matrices),
            ) is None
            &&& extents == recurrent_extents(host, kernels, weight_sum(matrices), weights, scratch)
        }
}

/// Whether a recurrent block is refused with an error.
pub open spec fn recurrent_refused(
    artifact: VerifiedArtifact,
    table: Seq<RowLength>,
    layout: Layout,
    host: ExecutionLayout,
    kernels: RecurrentKernels,
    block: usize,
    tokens: usize,
    error: Error,
) -> bool {
    let parameter_shapes = recurrent_shapes(host, kernels.convolution_weights);
    if workspace_failure(kernels.operations) is Some {
        workspace_failure(kernels.operations) == Some(error)
    } else {
        ||| exists|index: int| #[trigger]
            first_matrix_refused(artifact, table, block, recurrent_roles(), index, error)
        ||| exists|matrices: Seq<ProjectionWeight>| #[trigger]
            matrices_bound(artifact, table, block, recurrent_roles(), matrices) && {
                let failure = recurrent_weights_failure(
                    host,
                    kernels.convolution_weights,
                    weight_sum(matrices),
                );
                ||| exists|index: int| #[trigger]
                    first_parameter_refused(artifact, block, parameter_shapes, index, error)
                ||| exists|parameters: Seq<F32Parameter>| #[trigger]
                    parameters_bound(artifact, block, parameter_shapes, parameters) && {
                        ||| failure == Some(error)
                        ||| {
                            &&& failure is None
                            &&& finish_refused(artifact, table, layout, block, tokens, error)
                        }
                    }
            }
    }
}

fn recurrent_weight_bytes(
    host: ExecutionLayout,
    convolution: usize,
    matrices: &[ProjectionWeight],
) -> (bytes: Result<usize, Error>)
    ensures
        match bytes {
            Ok(bytes) => {
                &&& recurrent_weights_failure(host, convolution, weight_sum(matrices@)) is None
                &&& bytes == weight_sum(matrices@) + 4 * recurrent_elements(host, convolution)
            },
            Err(error) => recurrent_weights_failure(host, convolution, weight_sum(matrices@))
                == Some(error),
        },
{
    let norm: usize = elements_bytes(
        host.hidden,
        WORD_BYTES,
        "native recurrent attention norm bytes",
    )?;
    let scalar: usize = elements_bytes(
        host.value_head_count,
        WORD_BYTES,
        "native recurrent A bytes",
    )?;
    let kernel: usize = elements_bytes(
        convolution,
        WORD_BYTES,
        "native recurrent convolution bytes",
    )?;
    let output: usize = elements_bytes(
        host.value_dim,
        WORD_BYTES,
        "native recurrent output norm bytes",
    )?;
    let matrix_bytes: usize = sum_weights(matrices, "native recurrent weight bytes")?;
    let parts: [usize; 6] = [matrix_bytes, norm, scalar, scalar, kernel, output];
    proof {
        reveal_with_fuel(qwen35_execution::total, 7);
    }
    sum(&parts, "native recurrent weight bytes")
}

/// Bind a recurrent block and derive its extents.
pub fn plan_recurrent(
    artifact: &VerifiedArtifact,
    table: &[RowLength],
    layout: Layout,
    host: ExecutionLayout,
    kernels: RecurrentKernels,
    block: usize,
    tokens: usize,
) -> (extents: Result<NativeBlockExtents, Error>)
    ensures
        match extents {
            Ok(extents) => recurrent_planned(
                *artifact,
                table@,
                layout,
                host,
                kernels,
                block,
                tokens,
                extents,
            ),
            Err(error) => recurrent_refused(
                *artifact,
                table@,
                layout,
                host,
                kernels,
                block,
                tokens,
                error,
            ),
        },
{
    let ghost parameter_shapes = recurrent_shapes(host, kernels.convolution_weights);
    let workspace = RecurrentWorkspacePlan::from_operations(kernels.operations)?;
    let parts: [usize; 3] = [
        workspace.elements,
        workspace.recurrence_output,
        workspace.recurrence_output,
    ];
    proof {
        reveal_with_fuel(qwen35_execution::total, 4);
    }
    let workspace_elements: usize = sum(&parts, "native recurrent workspace elements")?;
    let roles: [&'static str; 5] = [
        ATTN_QKV_ROLE,
        ATTN_GATE_ROLE,
        SSM_ALPHA_ROLE,
        SSM_BETA_ROLE,
        SSM_OUT_ROLE,
    ];
    assert(roles@ =~= recurrent_roles());
    let matrices = bind_matrices(artifact, table, block, &roles)?;
    assert(matrices_bound(*artifact, table@, block, recurrent_roles(), matrices@));
    let convolution = ParameterRole {
        role: SSM_CONV1D_ROLE,
        dims: vec![host.conv_kernel as u64, host.conv_width as u64],
        elements: kernels.convolution_weights,
    };
    assert(convolution.dims@ =~= seq![host.conv_kernel as u64, host.conv_width as u64]);
    let parameters: [ParameterRole; 5] = [
        native_weights::vector_role(ATTN_NORM_ROLE, host.hidden),
        native_weights::vector_role(SSM_A_ROLE, host.value_head_count),
        native_weights::vector_role(SSM_DT_ROLE, host.value_head_count),
        convolution,
        native_weights::vector_role(SSM_NORM_ROLE, host.value_dim),
    ];
    assert(shapes(parameters@) =~= parameter_shapes);
    let parameters = bind_parameters(artifact, block, &parameters)?;
    assert(parameters_bound(*artifact, block, parameter_shapes, parameters@));
    let weights: usize = recurrent_weight_bytes(
        host,
        kernels.convolution_weights,
        matrices.as_slice(),
    )?;
    let (finish_weights, finish_scratch) = plan_finish(artifact, table, layout, block, tokens)?;
    Ok(
        NativeBlockExtents::Recurrent {
            workspace_elements,
            finish_scratch,
            weights,
            finish_weights,
            history: kernels.history,
            state: kernels.state,
        },
    )
}

/// Whether a main block is planned with extents.
pub open spec fn block_planned(
    artifact: VerifiedArtifact,
    layout: Layout,
    recurrent: Qwen35RecurrentLayout,
    kernels: ModelKernels<'_>,
    tokens: usize,
    block: int,
    extents: NativeBlockExtents,
) -> bool {
    if layout.full(block) {
        full_planned(artifact, kernels.rows@, layout, block as usize, tokens, extents)
    } else {
        &&& ExecutionLayout::failure(recurrent) is None
        &&& exists|host: ExecutionLayout| #[trigger]
            host.describes(recurrent, layout.epsilon) && recurrent_planned(
                artifact,
                kernels.rows@,
                layout,
                host,
                kernels.recurrent,
                block as usize,
                tokens,
                extents,
            )
    }
}

/// Whether a main block is refused with an error.
pub open spec fn block_refused(
    artifact: VerifiedArtifact,
    layout: Layout,
    recurrent: Qwen35RecurrentLayout,
    kernels: ModelKernels<'_>,
    tokens: usize,
    block: int,
    error: Error,
) -> bool {
    if layout.full(block) {
        full_refused(artifact, kernels.rows@, layout, block as usize, tokens, error)
    } else if ExecutionLayout::failure(recurrent) is Some {
        ExecutionLayout::failure(recurrent) == Some(error)
    } else {
        exists|host: ExecutionLayout| #[trigger]
            host.describes(recurrent, layout.epsilon) && recurrent_refused(
                artifact,
                kernels.rows@,
                layout,
                host,
                kernels.recurrent,
                block as usize,
                tokens,
                error,
            )
    }
}

/// Whether the first main blocks are planned with extents, in order.
pub open spec fn blocks_planned(
    artifact: VerifiedArtifact,
    layout: Layout,
    recurrent: Qwen35RecurrentLayout,
    kernels: ModelKernels<'_>,
    tokens: usize,
    extents: Seq<NativeBlockExtents>,
) -> bool {
    forall|block: int|
        0 <= block < extents.len() ==> block_planned(
            artifact,
            layout,
            recurrent,
            kernels,
            tokens,
            block,
            #[trigger] extents[block],
        )
}

/// Whether a main block is the first that is refused.
pub open spec fn first_block_refused(
    artifact: VerifiedArtifact,
    layout: Layout,
    recurrent: Qwen35RecurrentLayout,
    kernels: ModelKernels<'_>,
    tokens: usize,
    block: int,
    error: Error,
) -> bool {
    &&& 0 <= block < layout.main_blocks
    &&& block_refused(artifact, layout, recurrent, kernels, tokens, block, error)
    &&& exists|extents: Seq<NativeBlockExtents>|
        extents.len() == block && #[trigger] blocks_planned(
            artifact,
            layout,
            recurrent,
            kernels,
            tokens,
            extents,
        )
}

fn plan_block(
    artifact: &VerifiedArtifact,
    layout: Layout,
    recurrent: Qwen35RecurrentLayout,
    kernels: ModelKernels<'_>,
    tokens: usize,
    block: usize,
) -> (extents: Result<NativeBlockExtents, Error>)
    requires
        layout.full_interval > 0,
        block < layout.main_blocks,
    ensures
        match extents {
            Ok(extents) => {
                &&& block_planned(
                    *artifact,
                    layout,
                    recurrent,
                    kernels,
                    tokens,
                    block as int,
                    extents,
                )
                &&& (extents is Full) == layout.full(block as int)
            },
            Err(error) => block_refused(
                *artifact,
                layout,
                recurrent,
                kernels,
                tokens,
                block as int,
                error,
            ),
        },
{
    if layout.is_full(block) {
        return plan_full(artifact, kernels.rows, layout, block, tokens);
    }
    let host = ExecutionLayout::try_from_profile(recurrent, layout.epsilon)?;
    assert(host.describes(recurrent, layout.epsilon));
    plan_recurrent(artifact, kernels.rows, layout, host, kernels.recurrent, block, tokens)
}

/// Plan every main block of a model in order into an empty list.
pub fn plan_blocks(
    artifact: &VerifiedArtifact,
    layout: Layout,
    recurrent: Qwen35RecurrentLayout,
    kernels: ModelKernels<'_>,
    tokens: usize,
    storage: Vec<NativeBlockExtents>,
) -> (extents: Result<Vec<NativeBlockExtents>, Error>)
    requires
        layout.full_interval > 0,
        storage@.len() == 0,
    ensures
        match extents {
            Ok(extents) => {
                &&& extents@.len() == layout.main_blocks
                &&& blocks_planned(*artifact, layout, recurrent, kernels, tokens, extents@)
                &&& forall|block: int|
                    0 <= block < extents@.len() ==> ((#[trigger] extents@[block]) is Full)
                        == layout.full(block)
            },
            Err(error) => exists|block: int| #[trigger]
                first_block_refused(*artifact, layout, recurrent, kernels, tokens, block, error),
        },
{
    let mut extents: Vec<NativeBlockExtents> = storage;
    let mut block: usize = 0;
    while block < layout.main_blocks
        invariant
            layout.full_interval > 0,
            0 <= block <= layout.main_blocks,
            extents@.len() == block,
            blocks_planned(*artifact, layout, recurrent, kernels, tokens, extents@),
            forall|i: int|
                0 <= i < extents@.len() ==> ((#[trigger] extents@[i]) is Full) == layout.full(i),
        decreases layout.main_blocks - block,
    {
        match plan_block(artifact, layout, recurrent, kernels, tokens, block) {
            Ok(planned) => extents.push(planned),
            Err(error) => {
                assert(first_block_refused(
                    *artifact,
                    layout,
                    recurrent,
                    kernels,
                    tokens,
                    block as int,
                    error,
                ));
                return Err(error);
            },
        }
        block = block + 1;
    }
    Ok(extents)
}

/// The rule that the token embedding has to keep.
pub const EMBEDDING_RULE: &'static str =
    "native token embedding must have vocabulary rows and hidden width";

/// The rule that the output head has to keep.
pub const OUTPUT_RULE: &'static str =
    "native output head must have vocabulary rows and hidden width";

/// The weights of a model that belong to no block.
pub open spec fn global_bytes(
    embedding: ProjectionWeight,
    output: ProjectionWeight,
    output_norm: F32Parameter,
) -> int {
    embedding.serialized_bytes + output.serialized_bytes + 4 * output_norm.elements
}

/// The extents of a model that do not come from its blocks: it has a paged cache where it
/// has full-attention blocks.
pub open spec fn model_extents(
    layout: Layout,
    kernels: ModelKernels<'_>,
    vocabulary: usize,
    full_layers: usize,
) -> ModelExtents {
    ModelExtents {
        hidden: layout.hidden,
        vocabulary,
        final_normalized: layout.hidden,
        kv: if full_layers > 0 {
            Some(kernels.kv)
        } else {
            None
        },
        numerical_status: kernels.numerical_status,
    }
}

/// Whether the tensors of a model that belong to no block are bound.
pub open spec fn globals_bound(
    artifact: VerifiedArtifact,
    layout: Layout,
    table: Seq<RowLength>,
    embedding: ProjectionWeight,
    output: ProjectionWeight,
    output_norm: F32Parameter,
) -> bool {
    &&& matrix_bound(artifact, table, TOKEN_EMBEDDING@, embedding)
    &&& matrix_bound(artifact, table, OUTPUT@, output)
    &&& embedding.rows == output.rows == layout.vocabulary
    &&& embedding.width == output.width == layout.hidden
    &&& output_norm.elements == layout.hidden
    &&& parameter_bound(artifact, OUTPUT_NORM@, seq![layout.hidden as u64], output_norm)
}

/// Whether the tensors of a model that belong to no block are refused with an error.
pub open spec fn globals_refused(
    artifact: VerifiedArtifact,
    layout: Layout,
    table: Seq<RowLength>,
    error: Error,
) -> bool {
    ||| matrix_refused(artifact, table, TOKEN_EMBEDDING@, error)
    ||| exists|embedding: ProjectionWeight| #[trigger]
        matrix_bound(artifact, table, TOKEN_EMBEDDING@, embedding) && {
            ||| matrix_refused(artifact, table, OUTPUT@, error)
            ||| exists|output: ProjectionWeight| #[trigger]
                matrix_bound(artifact, table, OUTPUT@, output) && if embedding.rows
                    != layout.vocabulary || embedding.width != layout.hidden {
                    error == (Error::NativeSessionState { rule: EMBEDDING_RULE })
                } else if output.rows != layout.vocabulary || output.width != layout.hidden {
                    error == (Error::NativeSessionState { rule: OUTPUT_RULE })
                } else {
                    qwen35_execution::read_refused(
                        artifact,
                        OUTPUT_NORM@,
                        seq![layout.hidden as u64],
                        layout.hidden,
                        error,
                    )
                }
        }
}

fn bind_globals(artifact: &VerifiedArtifact, layout: Layout, table: &[RowLength]) -> (globals:
    Result<(ProjectionWeight, ProjectionWeight, F32Parameter), Error>)
    ensures
        match globals {
            Ok((embedding, output, output_norm)) => globals_bound(
                *artifact,
                layout,
                table@,
                embedding,
                output,
                output_norm,
            ),
            Err(error) => globals_refused(*artifact, layout, table@, error),
        },
{
    let embedding = projection(artifact, table, TOKEN_EMBEDDING.to_owned())?;
    assert(matrix_bound(*artifact, table@, TOKEN_EMBEDDING@, embedding));
    let output = projection(artifact, table, OUTPUT.to_owned())?;
    assert(matrix_bound(*artifact, table@, OUTPUT@, output));
    verify_vocabulary_matrix(embedding.rows, embedding.width, layout, EMBEDDING_RULE)?;
    verify_vocabulary_matrix(output.rows, output.width, layout, OUTPUT_RULE)?;
    let dims: [u64; 1] = [layout.hidden as u64];
    assert(dims@ =~= seq![layout.hidden as u64]);
    let output_norm = f32_parameter(artifact, OUTPUT_NORM.to_owned(), &dims, layout.hidden)?;
    Ok((embedding, output, output_norm))
}

/// Why the bytes of planned blocks have no sum, if they have none.
pub open spec fn sums_failure(
    layout: Layout,
    kernels: ModelKernels<'_>,
    tokens: usize,
    vocabulary: usize,
    global: int,
    extents: Seq<NativeBlockExtents>,
) -> Option<Error> {
    let plans = ModelBlockPlans::upto(global as usize, extents, extents.len() as int);
    match plans {
        Err(error) => Some(error),
        Ok(plans) => {
            let model = model_extents(layout, kernels, vocabulary, plans.full_layers);
            if extents.len() == 0 {
                Some(
                    Error::NativeSessionState {
                        rule: "native main model requires at least one main block",
                    },
                )
            } else if demand_failure(model, tokens, plans) is Some {
                demand_failure(model, tokens, plans)
            } else if demand_of(model, tokens, plans).bytes() > usize::MAX {
                overflow("native main-model device bytes")
            } else {
                None
            }
        },
    }
}

/// Why the weights of a model that belong to no block have no sum, if they have none.
pub open spec fn global_failure(
    embedding: ProjectionWeight,
    output: ProjectionWeight,
    output_norm: F32Parameter,
) -> Option<Error> {
    if 4 * output_norm.elements > usize::MAX {
        overflow("native output norm bytes")
    } else if global_bytes(embedding, output, output_norm) > usize::MAX {
        overflow("native global weight bytes")
    } else {
        None
    }
}

fn sum_globals(
    embedding: &ProjectionWeight,
    output: &ProjectionWeight,
    output_norm: &F32Parameter,
) -> (bytes: Result<usize, Error>)
    ensures
        match bytes {
            Ok(bytes) => {
                &&& global_failure(*embedding, *output, *output_norm) is None
                &&& bytes == global_bytes(*embedding, *output, *output_norm)
            },
            Err(error) => global_failure(*embedding, *output, *output_norm) == Some(error),
        },
{
    let norm: usize = elements_bytes(output_norm.elements, WORD_BYTES, "native output norm bytes")?;
    let parts: [usize; 3] = [embedding.serialized_bytes, output.serialized_bytes, norm];
    proof {
        reveal_with_fuel(qwen35_execution::total, 4);
    }
    sum(&parts, "native global weight bytes")
}

impl DeviceModelPlan {
    /// Whether the plan is that of a layout over an artifact, with a chunk capacity.
    pub open spec fn plans(
        self,
        artifact: VerifiedArtifact,
        layout: Layout,
        recurrent: Qwen35RecurrentLayout,
        kernels: ModelKernels<'_>,
        tokens: usize,
    ) -> bool {
        let global = global_bytes(self.embedding, self.output, self.output_norm);
        let model = model_extents(layout, kernels, self.output.rows, self.blocks.full_layers);
        &&& self.layout == layout
        &&& self.max_chunk_tokens == tokens
        &&& globals_bound(
            artifact,
            layout,
            kernels.rows@,
            self.embedding,
            self.output,
            self.output_norm,
        )
        &&& global_failure(self.embedding, self.output, self.output_norm) is None
        &&& self.layers@.len() == layout.main_blocks
        &&& blocks_planned(artifact, layout, recurrent, kernels, tokens, self.layers@)
        &&& forall|block: int|
            0 <= block < self.layers@.len() ==> ((#[trigger] self.layers@[block]) is Full)
                == layout.full(block)
        &&& sums_failure(
            layout,
            kernels,
            tokens,
            self.output.rows,
            global,
            self.layers@,
        ) is None
        &&& ModelBlockPlans::upto(global as usize, self.layers@, self.layers@.len() as int) == Ok::<
            ModelBlockPlans,
            Error,
        >(self.blocks)
        &&& self.kv == model.kv
        &&& self.bytes == demand_of(model, tokens, self.blocks)
    }

    /// Whether a layout over an artifact is refused with an error.
    pub open spec fn refused(
        artifact: VerifiedArtifact,
        layout: Layout,
        recurrent: Qwen35RecurrentLayout,
        kernels: ModelKernels<'_>,
        tokens: usize,
        error: Error,
    ) -> bool {
        ||| globals_refused(artifact, layout, kernels.rows@, error)
        ||| exists|embedding: ProjectionWeight, output: ProjectionWeight, norm: F32Parameter|
            #[trigger] globals_bound(artifact, layout, kernels.rows@, embedding, output, norm)
                && if global_failure(embedding, output, norm) is Some {
                global_failure(embedding, output, norm) == Some(error)
            } else {
                ||| layout.main_blocks > 0 && error.execution_allocation(
                    "native main-model block plans",
                    layout.main_blocks,
                )
                ||| exists|block: int| #[trigger]
                    first_block_refused(artifact, layout, recurrent, kernels, tokens, block, error)
                ||| exists|extents: Seq<NativeBlockExtents>|
                    {
                        &&& extents.len() == layout.main_blocks
                        &&& #[trigger] blocks_planned(
                            artifact,
                            layout,
                            recurrent,
                            kernels,
                            tokens,
                            extents,
                        )
                        &&& sums_failure(
                            layout,
                            kernels,
                            tokens,
                            output.rows,
                            global_bytes(embedding, output, norm),
                            extents,
                        ) == Some(error)
                    }
            }
    }

    /// Bind the main model of an artifact to its stored tensors and derive its byte
    /// demand, with workspaces for chunks of up to a number of tokens. Nothing is
    /// allocated on a device.
    pub fn from_weights_prefill(
        profile: &Qwen35StructuralProfile<'_>,
        artifact: &VerifiedArtifact,
        max_context: usize,
        max_chunk_tokens: usize,
        kernels: ModelKernels<'_>,
    ) -> (plan: Result<DeviceModelPlan, Error>)
        ensures
            ({
                let metadata = profile.artifact().metadata@;
                let dimensions = profile.spec_dimensions().execution_dimensions_spec();
                let recurrent = profile.spec_dimensions().recurrent_layout_spec();
                let failure = qwen35_execution::layout_failure(metadata, dimensions, max_context);
                match plan {
                    Ok(plan) => {
                        &&& capacity_failure(max_context, max_chunk_tokens) is None
                        &&& failure is None
                        &&& plan.layout.describes(metadata, dimensions, max_context)
                        &&& plan.plans(*artifact, plan.layout, recurrent, kernels, max_chunk_tokens)
                    },
                    Err(error) => if capacity_failure(max_context, max_chunk_tokens) is Some {
                        capacity_failure(max_context, max_chunk_tokens) == Some(error)
                    } else if failure is Some {
                        failure == Some(error)
                    } else {
                        exists|layout: Layout| #[trigger]
                            layout.describes(metadata, dimensions, max_context) && Self::refused(
                                *artifact,
                                layout,
                                recurrent,
                                kernels,
                                max_chunk_tokens,
                                error,
                            )
                    },
                }
            }),
    {
        check_chunk_capacity(max_context, max_chunk_tokens)?;
        let layout = Layout::from_metadata(profile, max_context)?;
        assert(layout.describes(
            profile.artifact().metadata@,
            profile.spec_dimensions().execution_dimensions_spec(),
            max_context,
        ));
        Self::from_layout(artifact, layout, profile.recurrent_layout(), kernels, max_chunk_tokens)
    }

    /// Bind the main model of a layout.
    pub fn from_layout(
        artifact: &VerifiedArtifact,
        layout: Layout,
        recurrent: Qwen35RecurrentLayout,
        kernels: ModelKernels<'_>,
        tokens: usize,
    ) -> (plan: Result<DeviceModelPlan, Error>)
        requires
            layout.full_interval > 0,
        ensures
            match plan {
                Ok(plan) => plan.plans(*artifact, layout, recurrent, kernels, tokens),
                Err(error) => Self::refused(*artifact, layout, recurrent, kernels, tokens, error),
            },
    {
        let (embedding, output, output_norm) = bind_globals(artifact, layout, kernels.rows)?;
        assert(globals_bound(
            *artifact,
            layout,
            kernels.rows@,
            embedding,
            output,
            output_norm,
        ));
        let global: usize = sum_globals(&embedding, &output, &output_norm)?;
        let storage: Vec<NativeBlockExtents> = reserve(
            "native main-model block plans",
            layout.main_blocks,
        )?;
        let layers = plan_blocks(artifact, layout, recurrent, kernels, tokens, storage)?;
        assert(blocks_planned(*artifact, layout, recurrent, kernels, tokens, layers@));
        let rows: usize = output.rows;
        let (blocks, kv, bytes) = sum_blocks(layout, kernels, tokens, rows, global, &layers)?;
        Ok(
            DeviceModelPlan {
                layout,
                max_chunk_tokens: tokens,
                embedding,
                output,
                output_norm,
                layers,
                blocks,
                kv,
                bytes,
            },
        )
    }
}

fn sum_blocks(
    layout: Layout,
    kernels: ModelKernels<'_>,
    tokens: usize,
    vocabulary: usize,
    global: usize,
    layers: &Vec<NativeBlockExtents>,
) -> (sums: Result<(ModelBlockPlans, Option<NativeKvExtents>, ModelDeviceByteDemand), Error>)
    ensures
        match sums {
            Ok((blocks, kv, bytes)) => {
                let model = model_extents(layout, kernels, vocabulary, blocks.full_layers);
                &&& sums_failure(
                    layout,
                    kernels,
                    tokens,
                    vocabulary,
                    global as int,
                    layers@,
                ) is None
                &&& ModelBlockPlans::upto(global, layers@, layers@.len() as int) == Ok::<
                    ModelBlockPlans,
                    Error,
                >(blocks)
                &&& kv == model.kv
                &&& bytes == demand_of(model, tokens, blocks)
            },
            Err(error) => sums_failure(
                layout,
                kernels,
                tokens,
                vocabulary,
                global as int,
                layers@,
            ) == Some(error),
        },
{
    let blocks = ModelBlockPlans::from_blocks(global, layers.as_slice())?;
    if layers.len() == 0 {
        return Err(
            Error::NativeSessionState {
                rule: "native main model requires at least one main block",
            },
        );
    }
    let kv: Option<NativeKvExtents> = if blocks.full_layers > 0 {
        Some(kernels.kv)
    } else {
        None
    };
    let extents = ModelExtents {
        hidden: layout.hidden,
        vocabulary,
        final_normalized: layout.hidden,
        kv,
        numerical_status: kernels.numerical_status,
    };
    let bytes = ModelDeviceByteDemand::from_model(extents, tokens, &blocks)?;
    bytes.total()?;
    Ok((blocks, kv, bytes))
}

/// Whether two artifacts store the same tensor under a name, or none.
pub open spec fn same_stored(
    left: VerifiedArtifact,
    right: VerifiedArtifact,
    name: Seq<char>,
) -> bool {
    forall|tensor: VerifiedTensor<'_>|
        #![trigger payload::found(left, name, tensor)]
        #![trigger payload::found(right, name, tensor)]
        payload::found(left, name, tensor) <==> payload::found(right, name, tensor)
}

/// Whether two artifacts store the same tensors for a main model: those that belong to no
/// block, and those of every main block.
pub open spec fn same_main_tensors(
    left: VerifiedArtifact,
    right: VerifiedArtifact,
    layout: Layout,
) -> bool {
    &&& same_stored(left, right, TOKEN_EMBEDDING@)
    &&& same_stored(left, right, OUTPUT@)
    &&& forall|block: usize, role: &'static str|
        block < layout.main_blocks ==> #[trigger] same_stored(
            left,
            right,
            text::block_name_spec(block as nat, role@),
        )
}

proof fn lemma_same_matrix(
    left: VerifiedArtifact,
    right: VerifiedArtifact,
    table: Seq<RowLength>,
    name: Seq<char>,
    first: ProjectionWeight,
    second: ProjectionWeight,
)
    requires
        same_stored(left, right, name),
        matrix_bound(left, table, name, first),
        matrix_bound(right, table, name, second),
    ensures
        first.rows == second.rows,
        first.width == second.width,
        first.serialized_bytes == second.serialized_bytes,
{
}

proof fn lemma_same_matrices(
    left: VerifiedArtifact,
    right: VerifiedArtifact,
    table: Seq<RowLength>,
    block: usize,
    roles: Seq<&'static str>,
    first: Seq<ProjectionWeight>,
    second: Seq<ProjectionWeight>,
)
    requires
        forall|role: &'static str| #[trigger]
            same_stored(left, right, text::block_name_spec(block as nat, role@)),
        matrices_bound(left, table, block, roles, first),
        matrices_bound(right, table, block, roles, second),
    ensures
        weight_sum(first) == weight_sum(second),
{
    assert forall|i: int| 0 <= i < roles.len() implies #[trigger] weight_list(first)[i]
        == weight_list(second)[i] by {
        lemma_same_matrix(
            left,
            right,
            table,
            text::block_name_spec(block as nat, roles[i]@),
            first[i],
            second[i],
        );
    }
    assert(weight_list(first) =~= weight_list(second));
}

proof fn lemma_same_block(
    left: VerifiedArtifact,
    right: VerifiedArtifact,
    layout: Layout,
    recurrent: Qwen35RecurrentLayout,
    kernels: ModelKernels<'_>,
    tokens: usize,
    block: usize,
    first: NativeBlockExtents,
    second: NativeBlockExtents,
)
    requires
        forall|role: &'static str| #[trigger]
            same_stored(left, right, text::block_name_spec(block as nat, role@)),
        block_planned(left, layout, recurrent, kernels, tokens, block as int, first),
        block_planned(right, layout, recurrent, kernels, tokens, block as int, second),
    ensures
        first == second,
{
    let table = kernels.rows@;
    assert forall|a: Seq<ProjectionWeight>, b: Seq<ProjectionWeight>, roles: Seq<&'static str>|
        #[trigger] matrices_bound(left, table, block, roles, a) && #[trigger] matrices_bound(
            right,
            table,
            block,
            roles,
            b,
        ) implies weight_sum(a) == weight_sum(b) by {
        lemma_same_matrices(left, right, table, block, roles, a, b);
    }
}

/// Terminal next-token blocks do not change the device demand of the main model: plans
/// over two artifacts that store the same tensors for the main model have the same
/// blocks and the same demand, whatever else the artifacts store.
pub proof fn lemma_nextn_keeps_demand(
    left: VerifiedArtifact,
    right: VerifiedArtifact,
    layout: Layout,
    recurrent: Qwen35RecurrentLayout,
    kernels: ModelKernels<'_>,
    tokens: usize,
    first: DeviceModelPlan,
    second: DeviceModelPlan,
)
    requires
        same_main_tensors(left, right, layout),
        first.plans(left, layout, recurrent, kernels, tokens),
        second.plans(right, layout, recurrent, kernels, tokens),
    ensures
        first.layers@ == second.layers@,
        first.blocks == second.blocks,
        first.kv == second.kv,
        first.bytes == second.bytes,
{
    lemma_same_matrix(
        left,
        right,
        kernels.rows@,
        TOKEN_EMBEDDING@,
        first.embedding,
        second.embedding,
    );
    lemma_same_matrix(left, right, kernels.rows@, OUTPUT@, first.output, second.output);
    assert forall|block: int| 0 <= block < first.layers@.len() implies #[trigger] first.layers@[block]
        == second.layers@[block] by {
        lemma_same_block(
            left,
            right,
            layout,
            recurrent,
            kernels,
            tokens,
            block as usize,
            first.layers@[block],
            second.layers@[block],
        );
    }
    assert(first.layers@ =~= second.layers@);
}

} // verus!
