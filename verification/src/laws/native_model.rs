//! Laws of device models: which stored tensors a block takes, and what a model, a
//! session, a chunk, and a teardown keep.

use crate::completion::{BeginError, CompletionError, ResourceOwner, ResourceState};
use crate::error::Error;
use crate::gguf;
use crate::gguf::{ObservedArtifact, VerifiedArtifact, VerifiedTensor};
use crate::laws::qwen35_artifact::{count, widths};
use crate::matrix::RowFormat;
use crate::native_model;
use crate::native_model::{
    plan_blocks, plan_finish, plan_full, plan_recurrent, ModelKernels, RecurrentKernels,
};
use crate::native_plan;
use crate::native_plan::{ModelBlockPlans, NativeBlockExtents};
use crate::native_session::{
    begin_error, check_chunk, completion_error, derive_session_plan, same_layer_roles,
    session_state, DeviceModelPlan, F32Parameter, InventoryRelease, ModelChunkPlan,
    ModelSessionTeardown, ProjectionWeight, ResidentRetention,
    Qwen35NativeExecutionSessionTeardownState, Qwen35NativeSessionState, TeardownAdmission,
};
use crate::native_weights;
use crate::native_weights::{
    bind_matrices, bind_parameters, f32_parameter, find_row_length, projection, vector_role,
    BlockKernels, DeviceFullAttentionPlan, ParameterRole, RowLength,
};
use crate::payload;
use crate::qwen35::{Qwen35RecurrentLayout, Qwen35StructuralProfile};
use crate::qwen35_batch::PackedPrefillPlan;
use crate::qwen35_execution;
use crate::qwen35_execution::Layout;
use crate::qwen35_recurrent::ExecutionLayout;
use crate::qwen35_session;
use crate::text;
use std::sync::Arc;
use vstd::prelude::*;

verus! {

/// A name leads to one tensor: the first of that name.
proof fn lemma_found_once(
    artifact: VerifiedArtifact,
    name: Seq<char>,
    left: VerifiedTensor<'_>,
    right: VerifiedTensor<'_>,
)
    requires
        payload::found(artifact, name, left),
        payload::found(artifact, name, right),
    ensures
        *left.descriptor == *right.descriptor,
        *left.bytes == *right.bytes,
{
    let tensors = artifact.spec_observation().tensors@;
    let i = choose|i: int|
        {
            &&& #[trigger] gguf::first_named(tensors, name, i)
            &&& i < artifact.spec_payloads().len()
            &&& *left.descriptor == tensors[i]
            &&& *left.bytes == artifact.spec_payloads()[i]
        };
    let j = choose|j: int|
        {
            &&& #[trigger] gguf::first_named(tensors, name, j)
            &&& j < artifact.spec_payloads().len()
            &&& *right.descriptor == tensors[j]
            &&& *right.bytes == artifact.spec_payloads()[j]
        };
    if i < j {
        assert(tensors[i].name@ != name);
    }
    if j < i {
        assert(tensors[j].name@ != name);
    }
}

proof fn lemma_bound_bytes(
    artifact: VerifiedArtifact,
    table: Seq<RowLength>,
    name: Seq<char>,
    weight: ProjectionWeight,
    tensor: VerifiedTensor<'_>,
)
    requires
        native_weights::matrix_bound(artifact, table, name, weight),
        payload::found(artifact, name, tensor),
    ensures
        weight.serialized_bytes == tensor.bytes@.len(),
        tensor.descriptor.dims@.len() == 2,
        weight.width == tensor.descriptor.dims@[0],
        weight.rows == tensor.descriptor.dims@[1],
        weight.name@ == name,
{
    let bound = choose|bound: VerifiedTensor<'_>| #[trigger]
        payload::found(artifact, name, bound) && weight.serialized_bytes == bound.bytes@.len()
            && bound.descriptor.dims@.len() == 2 && weight.width == bound.descriptor.dims@[0]
            && weight.rows == bound.descriptor.dims@[1];
    lemma_found_once(artifact, name, bound, tensor);
}

proof fn lemma_sum_of(weights: Seq<ProjectionWeight>)
    ensures
        weights.len() == 3 ==> native_model::weight_sum(weights) == weights[0].serialized_bytes
            + weights[1].serialized_bytes + weights[2].serialized_bytes,
        weights.len() == 4 ==> native_model::weight_sum(weights) == weights[0].serialized_bytes
            + weights[1].serialized_bytes + weights[2].serialized_bytes
            + weights[3].serialized_bytes,
        weights.len() == 5 ==> native_model::weight_sum(weights) == weights[0].serialized_bytes
            + weights[1].serialized_bytes + weights[2].serialized_bytes
            + weights[3].serialized_bytes + weights[4].serialized_bytes,
{
    reveal_with_fuel(qwen35_execution::total, 6);
}

/// The tail of a block takes the three feed-forward matrices and the norm of that very
/// block, and three hidden and three feed-forward rows of scratch for every token.
pub proof fn law_finish_takes_its_block(
    artifact: &VerifiedArtifact,
    table: &[RowLength],
    layout: Layout,
    block: usize,
    tokens: usize,
    weights: usize,
    scratch: usize,
    gate: VerifiedTensor<'_>,
    up: VerifiedTensor<'_>,
    down: VerifiedTensor<'_>,
)
    requires
        call_ensures(
            plan_finish,
            (artifact, table, layout, block, tokens),
            Ok::<(usize, usize), Error>((weights, scratch)),
        ),
        finish_tensors(*artifact, block, gate, up, down),
    ensures
        weights == gate.bytes@.len() + up.bytes@.len() + down.bytes@.len() + 4 * layout.hidden,
        scratch == 4 * (tokens * (3 * layout.hidden + 3 * layout.feed_forward)),
{
    lemma_finish(*artifact, table@, layout, block, tokens, weights, scratch, gate, up, down);
}

/// Whether tensors are the feed-forward matrices of a block.
pub open spec fn finish_tensors(
    artifact: VerifiedArtifact,
    block: usize,
    gate: VerifiedTensor<'_>,
    up: VerifiedTensor<'_>,
    down: VerifiedTensor<'_>,
) -> bool {
    let prefix = "blk."@ + text::decimal(block as nat) + "."@;
    &&& payload::found(artifact, prefix + "ffn_gate.weight"@, gate)
    &&& payload::found(artifact, prefix + "ffn_up.weight"@, up)
    &&& payload::found(artifact, prefix + "ffn_down.weight"@, down)
}

proof fn lemma_finish(
    artifact: VerifiedArtifact,
    table: Seq<RowLength>,
    layout: Layout,
    block: usize,
    tokens: usize,
    weights: usize,
    scratch: usize,
    gate: VerifiedTensor<'_>,
    up: VerifiedTensor<'_>,
    down: VerifiedTensor<'_>,
)
    requires
        native_model::finish_planned(artifact, table, layout, block, tokens, weights, scratch),
        finish_tensors(artifact, block, gate, up, down),
    ensures
        weights == gate.bytes@.len() + up.bytes@.len() + down.bytes@.len() + 4 * layout.hidden,
        scratch == 4 * (tokens * (3 * layout.hidden + 3 * layout.feed_forward)),
{
    let roles = native_model::finish_roles();
    let (norms, matrices) = choose|
        norms: Seq<F32Parameter>,
        matrices: Seq<ProjectionWeight>,
    |
        {
            &&& #[trigger] native_weights::parameters_bound(
                artifact,
                block,
                native_model::finish_shapes(layout),
                norms,
            )
            &&& #[trigger] native_weights::matrices_bound(artifact, table, block, roles, matrices)
            &&& native_model::finish_failure(
                layout,
                tokens,
                native_model::weight_sum(matrices),
            ) is None
            &&& weights == native_model::weight_sum(matrices) + 4 * layout.hidden
            &&& scratch == 4 * native_plan::LayerFinishWorkspacePlan::planned(
                layout,
                tokens,
            ).spec_elements()
        };
    lemma_sum_of(matrices);
    assert(native_weights::matrix_bound(
        artifact,
        table,
        text::block_name_spec(block as nat, roles[0]@),
        matrices[0],
    ));
    assert(native_weights::matrix_bound(
        artifact,
        table,
        text::block_name_spec(block as nat, roles[1]@),
        matrices[1],
    ));
    assert(native_weights::matrix_bound(
        artifact,
        table,
        text::block_name_spec(block as nat, roles[2]@),
        matrices[2],
    ));
    let prefix = "blk."@ + text::decimal(block as nat) + "."@;
    lemma_bound_bytes(artifact, table, prefix + "ffn_gate.weight"@, matrices[0], gate);
    lemma_bound_bytes(artifact, table, prefix + "ffn_up.weight"@, matrices[1], up);
    lemma_bound_bytes(artifact, table, prefix + "ffn_down.weight"@, matrices[2], down);
    let t = tokens as int;
    let h = layout.hidden as int;
    let f = layout.feed_forward as int;
    assert(t * (3 * h + 3 * f) == 3 * (t * h) + 3 * (t * f)) by (nonlinear_arith);
}

/// Whether tensors are the attention matrices of a block.
pub open spec fn attention_tensors(
    artifact: VerifiedArtifact,
    block: usize,
    query: VerifiedTensor<'_>,
    key: VerifiedTensor<'_>,
    value: VerifiedTensor<'_>,
    output: VerifiedTensor<'_>,
) -> bool {
    let prefix = "blk."@ + text::decimal(block as nat) + "."@;
    &&& payload::found(artifact, prefix + "attn_q.weight"@, query)
    &&& payload::found(artifact, prefix + "attn_k.weight"@, key)
    &&& payload::found(artifact, prefix + "attn_v.weight"@, value)
    &&& payload::found(artifact, prefix + "attn_output.weight"@, output)
}

/// A full-attention block takes the four attention matrices of that very block, three
/// norms, its tail, and scratch for every token of a chunk.
pub proof fn law_full_block_takes_its_tensors(
    artifact: &VerifiedArtifact,
    table: &[RowLength],
    layout: Layout,
    block: usize,
    tokens: usize,
    extents: NativeBlockExtents,
    attention: (VerifiedTensor<'_>, VerifiedTensor<'_>, VerifiedTensor<'_>, VerifiedTensor<'_>),
    finish: (VerifiedTensor<'_>, VerifiedTensor<'_>, VerifiedTensor<'_>),
)
    requires
        call_ensures(
            plan_full,
            (artifact, table, layout, block, tokens),
            Ok::<NativeBlockExtents, Error>(extents),
        ),
        attention_tensors(
            *artifact,
            block,
            attention.0,
            attention.1,
            attention.2,
            attention.3,
        ),
        finish_tensors(*artifact, block, finish.0, finish.1, finish.2),
    ensures
        extents matches NativeBlockExtents::Full {
            workspace,
            finish_scratch,
            matrices,
            norms,
            finish_weights,
        } && {
            &&& matrices == attention.0.bytes@.len() + attention.1.bytes@.len()
                + attention.2.bytes@.len() + attention.3.bytes@.len()
            &&& norms == 4 * (layout.hidden + layout.key + layout.key)
            &&& finish_weights == finish.0.bytes@.len() + finish.1.bytes@.len()
                + finish.2.bytes@.len() + 4 * layout.hidden
            &&& finish_scratch == 4 * (tokens * (3 * layout.hidden + 3 * layout.feed_forward))
            &&& workspace.elements == tokens * (2 * layout.hidden + 7 * layout.query_width + 3
                * layout.kv_width)
            &&& layout.n_rot % 2 == 0 ==> workspace.coefficient_elements == tokens * layout.n_rot
        },
{
    let roles = native_model::attention_roles();
    let (matrices, norms, weights, scratch) = choose|
        matrices: Seq<ProjectionWeight>,
        norms: Seq<F32Parameter>,
        weights: usize,
        scratch: usize,
    |
        {
            &&& #[trigger] native_weights::matrices_bound(
                *artifact,
                table@,
                block,
                roles,
                matrices,
            )
            &&& #[trigger] native_weights::parameters_bound(
                *artifact,
                block,
                native_model::attention_shapes(layout),
                norms,
            )
            &&& #[trigger] native_model::finish_planned(
                *artifact,
                table@,
                layout,
                block,
                tokens,
                weights,
                scratch,
            )
            &&& native_model::attention_failure(
                layout,
                tokens,
                native_model::weight_sum(matrices),
            ) is None
            &&& extents == native_model::full_extents(
                layout,
                tokens,
                native_model::weight_sum(matrices),
                weights,
                scratch,
            )
        };
    lemma_sum_of(matrices);
    lemma_finish(
        *artifact,
        table@,
        layout,
        block,
        tokens,
        weights,
        scratch,
        finish.0,
        finish.1,
        finish.2,
    );
    assert forall|i: int| 0 <= i < 4 implies native_weights::matrix_bound(
        *artifact,
        table@,
        text::block_name_spec(block as nat, roles[i]@),
        #[trigger] matrices[i],
    ) by {}
    let prefix = "blk."@ + text::decimal(block as nat) + "."@;
    lemma_bound_bytes(*artifact, table@, prefix + "attn_q.weight"@, matrices[0], attention.0);
    lemma_bound_bytes(*artifact, table@, prefix + "attn_k.weight"@, matrices[1], attention.1);
    lemma_bound_bytes(*artifact, table@, prefix + "attn_v.weight"@, matrices[2], attention.2);
    lemma_bound_bytes(*artifact, table@, prefix + "attn_output.weight"@, matrices[3], attention.3);
}

/// Whether tensors are the recurrent matrices of a block.
pub open spec fn recurrent_tensors(
    artifact: VerifiedArtifact,
    block: usize,
    channels: VerifiedTensor<'_>,
    gating: VerifiedTensor<'_>,
    decay: VerifiedTensor<'_>,
    strength: VerifiedTensor<'_>,
    output: VerifiedTensor<'_>,
) -> bool {
    let prefix = "blk."@ + text::decimal(block as nat) + "."@;
    &&& payload::found(artifact, prefix + "attn_qkv.weight"@, channels)
    &&& payload::found(artifact, prefix + "attn_gate.weight"@, gating)
    &&& payload::found(artifact, prefix + "ssm_alpha.weight"@, decay)
    &&& payload::found(artifact, prefix + "ssm_beta.weight"@, strength)
    &&& payload::found(artifact, prefix + "ssm_out.weight"@, output)
}

/// A recurrent block takes the five matrices of that very block, its five parameters at
/// four bytes a value, its tail, and the state that its kernels derive.
pub proof fn law_recurrent_block_takes_its_tensors(
    artifact: &VerifiedArtifact,
    table: &[RowLength],
    layout: Layout,
    host: ExecutionLayout,
    kernels: RecurrentKernels,
    block: usize,
    tokens: usize,
    extents: NativeBlockExtents,
    tensors: (
        VerifiedTensor<'_>,
        VerifiedTensor<'_>,
        VerifiedTensor<'_>,
        VerifiedTensor<'_>,
        VerifiedTensor<'_>,
    ),
    finish: (VerifiedTensor<'_>, VerifiedTensor<'_>, VerifiedTensor<'_>),
)
    requires
        call_ensures(
            plan_recurrent,
            (artifact, table, layout, host, kernels, block, tokens),
            Ok::<NativeBlockExtents, Error>(extents),
        ),
        recurrent_tensors(
            *artifact,
            block,
            tensors.0,
            tensors.1,
            tensors.2,
            tensors.3,
            tensors.4,
        ),
        finish_tensors(*artifact, block, finish.0, finish.1, finish.2),
    ensures
        extents matches NativeBlockExtents::Recurrent {
            workspace_elements,
            finish_scratch,
            weights,
            finish_weights,
            history,
            state,
        } && {
            &&& weights == tensors.0.bytes@.len() + tensors.1.bytes@.len()
                + tensors.2.bytes@.len() + tensors.3.bytes@.len() + tensors.4.bytes@.len() + 4 * (
            host.hidden + host.value_head_count + host.value_head_count
                + kernels.convolution_weights + host.value_dim)
            &&& finish_weights == finish.0.bytes@.len() + finish.1.bytes@.len()
                + finish.2.bytes@.len() + 4 * layout.hidden
            &&& finish_scratch == 4 * (tokens * (3 * layout.hidden + 3 * layout.feed_forward))
            &&& history == kernels.history && state == kernels.state
            &&& ({
                let op = kernels.operations;
                workspace_elements == 2 * op.input_norm + 2 * op.convolution_output
                    + op.convolution_silu + 2 * op.qk_l2_output + 4 * op.scalar_value_heads + 4
                    * op.recurrence_output + op.output_norm + op.output_silu_product
            })
        },
{
    let roles = native_model::recurrent_roles();
    let wanted = native_model::recurrent_shapes(host, kernels.convolution_weights);
    let (matrices, parameters, weights, scratch) = choose|
        matrices: Seq<ProjectionWeight>,
        parameters: Seq<F32Parameter>,
        weights: usize,
        scratch: usize,
    |
        {
            &&& #[trigger] native_weights::matrices_bound(
                *artifact,
                table@,
                block,
                roles,
                matrices,
            )
            &&& #[trigger] native_weights::parameters_bound(*artifact, block, wanted, parameters)
            &&& #[trigger] native_model::finish_planned(
                *artifact,
                table@,
                layout,
                block,
                tokens,
                weights,
                scratch,
            )
            &&& native_model::recurrent_weights_failure(
                host,
                kernels.convolution_weights,
                native_model::weight_sum(matrices),
            ) is None
            &&& extents == native_model::recurrent_extents(
                host,
                kernels,
                native_model::weight_sum(matrices),
                weights,
                scratch,
            )
        };
    lemma_sum_of(matrices);
    lemma_finish(
        *artifact,
        table@,
        layout,
        block,
        tokens,
        weights,
        scratch,
        finish.0,
        finish.1,
        finish.2,
    );
    assert forall|i: int| 0 <= i < 5 implies native_weights::matrix_bound(
        *artifact,
        table@,
        text::block_name_spec(block as nat, roles[i]@),
        #[trigger] matrices[i],
    ) by {}
    let prefix = "blk."@ + text::decimal(block as nat) + "."@;
    lemma_bound_bytes(*artifact, table@, prefix + "attn_qkv.weight"@, matrices[0], tensors.0);
    lemma_bound_bytes(*artifact, table@, prefix + "attn_gate.weight"@, matrices[1], tensors.1);
    lemma_bound_bytes(*artifact, table@, prefix + "ssm_alpha.weight"@, matrices[2], tensors.2);
    lemma_bound_bytes(*artifact, table@, prefix + "ssm_beta.weight"@, matrices[3], tensors.3);
    lemma_bound_bytes(*artifact, table@, prefix + "ssm_out.weight"@, matrices[4], tensors.4);
}

/// A model plans every main block once, in order, each as the kind that the block is.
pub proof fn law_blocks_are_planned_by_kind(
    artifact: &VerifiedArtifact,
    layout: Layout,
    recurrent: Qwen35RecurrentLayout,
    kernels: ModelKernels<'_>,
    tokens: usize,
    storage: Vec<NativeBlockExtents>,
    extents: Vec<NativeBlockExtents>,
    block: int,
)
    requires
        call_ensures(
            plan_blocks,
            (artifact, layout, recurrent, kernels, tokens, storage),
            Ok::<Vec<NativeBlockExtents>, Error>(extents),
        ),
        0 <= block < layout.main_blocks,
    ensures
        extents@.len() == layout.main_blocks,
        extents@[block] is Full <==> (block + 1) % (layout.full_interval as int) == 0,
{
}

/// A model plan holds the embedding, the head, and the norm of its artifact, each of the
/// model's widths, its blocks by kind, and a paged cache where a block attends fully.
pub proof fn law_model_plan(
    artifact: &VerifiedArtifact,
    layout: Layout,
    recurrent: Qwen35RecurrentLayout,
    kernels: ModelKernels<'_>,
    tokens: usize,
    plan: DeviceModelPlan,
    embedding: VerifiedTensor<'_>,
    output: VerifiedTensor<'_>,
)
    requires
        call_ensures(
            DeviceModelPlan::from_layout,
            (artifact, layout, recurrent, kernels, tokens),
            Ok::<DeviceModelPlan, Error>(plan),
        ),
        payload::found(*artifact, "token_embd.weight"@, embedding),
        payload::found(*artifact, "output.weight"@, output),
    ensures
        plan.layout == layout && plan.max_chunk_tokens == tokens,
        plan.embedding.name@ == "token_embd.weight"@ && plan.embedding.serialized_bytes
            == embedding.bytes@.len(),
        plan.output.name@ == "output.weight"@ && plan.output.serialized_bytes
            == output.bytes@.len(),
        plan.output_norm.name@ == "output_norm.weight"@ && plan.output_norm.elements
            == layout.hidden,
        plan.embedding.rows == layout.vocabulary && plan.output.rows == layout.vocabulary,
        plan.embedding.width == layout.hidden && plan.output.width == layout.hidden,
        plan.layers@.len() == layout.main_blocks && layout.main_blocks > 0,
        forall|block: int|
            0 <= block < plan.layers@.len() ==> ((#[trigger] plan.layers@[block]) is Full <==> (
            block + 1) % (layout.full_interval as int) == 0),
        plan.blocks.full_layers > 0 ==> plan.kv == Some(kernels.kv),
        plan.blocks.full_layers == 0 ==> plan.kv is None,
        plan.bytes.weights == plan.blocks.weights_bytes,
        plan.bytes.hidden_rows == 8 * (tokens * layout.hidden),
        plan.bytes.logits == 4 * layout.vocabulary,
        plan.bytes.final_normalized == 4 * layout.hidden,
        plan.bytes.recurrent_state_active == 4 * plan.blocks.recurrent_state_elements
            && plan.bytes.recurrent_state_staged == plan.bytes.recurrent_state_active,
        plan.bytes.numerical_status == kernels.numerical_status,
{
    lemma_bound_bytes(
        *artifact,
        kernels.rows@,
        "token_embd.weight"@,
        plan.embedding,
        embedding,
    );
    lemma_bound_bytes(*artifact, kernels.rows@, "output.weight"@, plan.output, output);
    assert(layout.hidden * tokens == tokens * layout.hidden) by (nonlinear_arith);
}

proof fn lemma_model_weights(
    global: usize,
    layers: Seq<NativeBlockExtents>,
    count: int,
    plans: ModelBlockPlans,
)
    requires
        0 <= count <= layers.len(),
        ModelBlockPlans::upto(global, layers, count) == Ok::<ModelBlockPlans, Error>(plans),
    ensures
        plans.weights_bytes == global + layers.take(count).fold_left(
            0int,
            |total: int, layer: NativeBlockExtents| total + layer_weights(layer),
        ),
    decreases count,
{
    reveal_with_fuel(Seq::fold_left, 2);
    if count == 0 {
        assert(layers.take(0) =~= Seq::<NativeBlockExtents>::empty());
    } else {
        let before = ModelBlockPlans::upto(global, layers, count - 1)->Ok_0;
        lemma_model_weights(global, layers, count - 1, before);
        assert(layers.take(count).drop_last() =~= layers.take(count - 1));
        assert(layers.take(count).last() == layers[count - 1]);
    }
}

/// The weight bytes that a block's extents name.
pub open spec fn layer_weights(layer: NativeBlockExtents) -> int {
    match layer {
        NativeBlockExtents::Full { matrices, norms, finish_weights, .. } => matrices + norms
            + finish_weights,
        NativeBlockExtents::Recurrent { weights, finish_weights, .. } => weights + finish_weights,
    }
}

/// The weights of a model are those outside its blocks and those of every block.
pub proof fn law_model_weights(
    artifact: &VerifiedArtifact,
    layout: Layout,
    recurrent: Qwen35RecurrentLayout,
    kernels: ModelKernels<'_>,
    tokens: usize,
    plan: DeviceModelPlan,
)
    requires
        call_ensures(
            DeviceModelPlan::from_layout,
            (artifact, layout, recurrent, kernels, tokens),
            Ok::<DeviceModelPlan, Error>(plan),
        ),
    ensures
        plan.bytes.weights == plan.embedding.serialized_bytes + plan.output.serialized_bytes + 4
            * layout.hidden + plan.layers@.fold_left(
            0int,
            |total: int, layer: NativeBlockExtents| total + layer_weights(layer),
        ),
{
    let global = plan.embedding.serialized_bytes + plan.output.serialized_bytes + 4
        * plan.output_norm.elements;
    lemma_model_weights(global as usize, plan.layers@, plan.layers@.len() as int, plan.blocks);
    assert(plan.layers@.take(plan.layers@.len() as int) =~= plan.layers@);
}

/// The plan of one full-attention block names the seven matrices and four norms of that
/// very block, in order.
pub proof fn law_block_plan(
    artifact: &VerifiedArtifact,
    layout: Layout,
    block: usize,
    kernels: BlockKernels<'_>,
    plan: DeviceFullAttentionPlan,
)
    requires
        call_ensures(
            DeviceFullAttentionPlan::from_layout,
            (artifact, layout, block, kernels),
            Ok::<DeviceFullAttentionPlan, Error>(plan),
        ),
    ensures
        plan.block == block && plan.layout == layout && plan.kv == kernels.kv,
        block < layout.main_blocks && (block + 1) % (layout.full_interval as int) == 0,
        plan.matrices@.len() == 7 && plan.scalars@.len() == 4,
        ({
            let prefix = "blk."@ + text::decimal(block as nat) + "."@;
            &&& plan.matrices@[0].name@ == prefix + "attn_q.weight"@
            &&& plan.matrices@[1].name@ == prefix + "attn_k.weight"@
            &&& plan.matrices@[2].name@ == prefix + "attn_v.weight"@
            &&& plan.matrices@[3].name@ == prefix + "attn_output.weight"@
            &&& plan.matrices@[4].name@ == prefix + "ffn_gate.weight"@
            &&& plan.matrices@[5].name@ == prefix + "ffn_up.weight"@
            &&& plan.matrices@[6].name@ == prefix + "ffn_down.weight"@
            &&& plan.scalars@[0].name@ == prefix + "attn_norm.weight"@
            &&& plan.scalars@[1].name@ == prefix + "attn_q_norm.weight"@
            &&& plan.scalars@[2].name@ == prefix + "attn_k_norm.weight"@
            &&& plan.scalars@[3].name@ == prefix + "post_attention_norm.weight"@
            &&& plan.scalars@[0].elements == layout.hidden && plan.scalars@[1].elements
                == layout.key && plan.scalars@[2].elements == layout.key
                    && plan.scalars@[3].elements
                == layout.hidden
        }),
        plan.bytes.weights == plan.matrices@[0].serialized_bytes
            + plan.matrices@[1].serialized_bytes + plan.matrices@[2].serialized_bytes
            + plan.matrices@[3].serialized_bytes + plan.matrices@[4].serialized_bytes
            + plan.matrices@[5].serialized_bytes + plan.matrices@[6].serialized_bytes + 4 * (
        layout.hidden + layout.key + layout.key + layout.hidden),
{
    let roles = native_weights::full_matrix_roles();
    let norms = native_weights::full_norm_shapes(layout);
    assert forall|i: int| 0 <= i < 7 implies native_weights::matrix_bound(
        *artifact,
        kernels.rows@,
        text::block_name_spec(block as nat, roles[i]@),
        #[trigger] plan.matrices@[i],
    ) by {}
    assert(plan.matrices@[0].name@ == text::block_name_spec(block as nat, roles[0]@));
    assert(plan.matrices@[1].name@ == text::block_name_spec(block as nat, roles[1]@));
    assert(plan.matrices@[2].name@ == text::block_name_spec(block as nat, roles[2]@));
    assert(plan.matrices@[3].name@ == text::block_name_spec(block as nat, roles[3]@));
    assert(plan.matrices@[4].name@ == text::block_name_spec(block as nat, roles[4]@));
    assert(plan.matrices@[5].name@ == text::block_name_spec(block as nat, roles[5]@));
    assert(plan.matrices@[6].name@ == text::block_name_spec(block as nat, roles[6]@));
    assert(plan.scalars@[0].name@ == text::block_name_spec(block as nat, norms[0].role@));
    assert(plan.scalars@[1].name@ == text::block_name_spec(block as nat, norms[1].role@));
    assert(plan.scalars@[2].name@ == text::block_name_spec(block as nat, norms[2].role@));
    assert(plan.scalars@[3].name@ == text::block_name_spec(block as nat, norms[3].role@));
}

/// Matrices are bound in the order of their roles, each to the tensor of its own block.
pub proof fn law_matrices_are_bound(
    artifact: &VerifiedArtifact,
    table: &[RowLength],
    block: usize,
    roles: &[&'static str],
    weights: Vec<ProjectionWeight>,
    i: int,
    tensor: VerifiedTensor<'_>,
)
    requires
        call_ensures(
            bind_matrices,
            (artifact, table, block, roles),
            Ok::<Vec<ProjectionWeight>, Error>(weights),
        ),
        0 <= i < roles@.len(),
        payload::found(
            *artifact,
            "blk."@ + text::decimal(block as nat) + "."@ + roles@[i]@,
            tensor,
        ),
    ensures
        weights@.len() == roles@.len(),
        weights@[i].serialized_bytes == tensor.bytes@.len(),
        weights@[i].width == tensor.descriptor.dims@[0] && weights@[i].rows
            == tensor.descriptor.dims@[1],
{
    lemma_bound_bytes(
        *artifact,
        table@,
        text::block_name_spec(block as nat, roles@[i]@),
        weights@[i],
        tensor,
    );
}

/// A bound matrix has its tensor's name, its input width first, and all of its bytes.
pub proof fn law_matrix_is_bound(
    artifact: &VerifiedArtifact,
    table: &[RowLength],
    name: String,
    weight: ProjectionWeight,
    tensor: VerifiedTensor<'_>,
)
    requires
        call_ensures(
            projection,
            (artifact, table, name),
            Ok::<ProjectionWeight, Error>(weight),
        ),
        payload::found(*artifact, name@, tensor),
    ensures
        weight.name@ == name@,
        weight.width == tensor.descriptor.dims@[0] && weight.rows == tensor.descriptor.dims@[1],
        weight.serialized_bytes == tensor.bytes@.len(),
{
    lemma_bound_bytes(*artifact, table@, name@, weight, tensor);
}

proof fn lemma_row_length(table: Seq<RowLength>, format: RowFormat, width: usize)
    ensures
        native_weights::row_length(table, format, width) is Some ==> exists|i: int| #[trigger]
            first_entry(
                table,
                format,
                width,
                i,
                native_weights::row_length(table, format, width)->0,
            ),
        native_weights::row_length(table, format, width) is None ==> forall|i: int|
            0 <= i < table.len() ==> !((#[trigger] table[i]).format == format && table[i].width
                == width),
    decreases table.len(),
{
    if table.len() > 0 {
        if table[0].format == format && table[0].width == width {
            assert(first_entry(
                table,
                format,
                width,
                0,
                native_weights::row_length(table, format, width)->0,
            ));
        } else {
            let rest = table.drop_first();
            lemma_row_length(rest, format, width);
            match native_weights::row_length(rest, format, width) {
                Some(bytes) => {
                    let i = choose|i: int| #[trigger]
                        first_entry(
                            rest,
                            format,
                            width,
                            i,
                            native_weights::row_length(rest, format, width)->0,
                        );
                    assert(table[i + 1] == rest[i]);
                    assert forall|j: int| 0 <= j < i + 1 implies !((#[trigger] table[j]).format
                        == format && table[j].width == width) by {
                        if j > 0 {
                            assert(rest[j - 1] == table[j]);
                        }
                    }
                    assert(first_entry(
                        table,
                        format,
                        width,
                        i + 1,
                        native_weights::row_length(table, format, width)->0,
                    ));
                },
                None => {
                    assert forall|i: int| 0 <= i < table.len() implies !((
                    #[trigger] table[i]).format == format && table[i].width == width) by {
                        if i > 0 {
                            assert(rest[i - 1] == table[i]);
                        }
                    }
                },
            }
        }
    }
}

/// Whether entry `i` of a table is the first of a format and a width, with a length.
pub open spec fn first_entry(
    table: Seq<RowLength>,
    format: RowFormat,
    width: usize,
    i: int,
    bytes: usize,
) -> bool {
    &&& 0 <= i < table.len()
    &&& table[i].format == format && table[i].width == width && table[i].bytes == bytes
    &&& forall|j: int|
        0 <= j < i ==> !((#[trigger] table[j]).format == format && table[j].width == width)
}

/// The length of a row is that of the first entry of its format and width, where there
/// is one.
pub proof fn law_row_lengths(
    table: &[RowLength],
    format: RowFormat,
    width: usize,
    bytes: Option<usize>,
)
    requires
        call_ensures(find_row_length, (table, format, width), bytes),
    ensures
        bytes is Some ==> exists|i: int| #[trigger]
            first_entry(table@, format, width, i, bytes->0),
        bytes is None ==> forall|i: int|
            0 <= i < table@.len() ==> !((#[trigger] table@[i]).format == format && table@[i].width
                == width),
{
    lemma_row_length(table@, format, width);
}

/// A session is ready, known to be idle, or uncertain as its bundle is; work in flight is
/// uncertain.
pub proof fn law_session_state<R>(owner: &ResourceOwner<R>, state: Qwen35NativeSessionState)
    requires
        call_ensures(session_state::<R>, (owner,), state),
    ensures
        state == Qwen35NativeSessionState::Ready <==> owner.state == ResourceState::Ready,
        state == Qwen35NativeSessionState::PoisonedKnownIdle <==> owner.state
            == ResourceState::PoisonedIdle,
        state == Qwen35NativeSessionState::PoisonedCompletionUncertain <==> owner.state
            == ResourceState::InFlight || owner.state == ResourceState::PoisonedUncertain,
{
}

/// Custody is released exactly where every owner was acknowledged and no indeterminate
/// output is held; an indeterminate output or outcome quarantines it.
pub proof fn law_teardown_state(
    custody: ModelSessionTeardown,
    state: Qwen35NativeExecutionSessionTeardownState,
    released: bool,
)
    requires
        call_ensures(ModelSessionTeardown::state, (custody,), state),
        call_ensures(ModelSessionTeardown::released, (custody,), released),
    ensures
        released <==> state == Qwen35NativeExecutionSessionTeardownState::Released,
        released <==> custody.admission == TeardownAdmission::Releasing(
            InventoryRelease::Released,
        ) && !custody.creation_failure,
        state == Qwen35NativeExecutionSessionTeardownState::Quarantined
            <==> custody.creation_failure
            || custody.admission == TeardownAdmission::Releasing(InventoryRelease::Indeterminate),
        state == Qwen35NativeExecutionSessionTeardownState::Unadmitted
            <==> !custody.creation_failure
            && custody.admission == TeardownAdmission::Unadmitted,
        state == Qwen35NativeExecutionSessionTeardownState::PartiallyAdmitted
            <==> !custody.creation_failure && custody.admission
            == TeardownAdmission::PartiallyAdmitted,
        state == Qwen35NativeExecutionSessionTeardownState::Pending <==> !custody.creation_failure
            && custody.admission == TeardownAdmission::Releasing(InventoryRelease::Pending),
{
}

/// Only a retained or an unsynchronized teardown goes on, and it takes the new outcome;
/// every other custody stays as it is.
pub proof fn law_teardown_proceeds(
    custody: ModelSessionTeardown,
    release: InventoryRelease,
    next: ModelSessionTeardown,
    retry: bool,
    reconcile: bool,
)
    requires
        call_ensures(ModelSessionTeardown::proceed, (custody, release), next),
        call_ensures(ModelSessionTeardown::may_retry, (custody,), retry),
        call_ensures(ModelSessionTeardown::may_reconcile, (custody,), reconcile),
    ensures
        retry || reconcile ==> next.admission == TeardownAdmission::Releasing(release),
        !retry && !reconcile ==> next == custody,
        next.creation_failure == custody.creation_failure,
        retry <==> custody.admission == TeardownAdmission::Releasing(InventoryRelease::Pending),
        reconcile <==> custody.admission == TeardownAdmission::Releasing(
            InventoryRelease::SynchronizationUnconfirmed,
        ),
{
}

/// Two lists of blocks are alike exactly where they have the same kinds in order.
pub proof fn law_same_roles(
    session: &[NativeBlockExtents],
    resident: &[NativeBlockExtents],
    same: bool,
)
    requires
        call_ensures(same_layer_roles, (session, resident), same),
    ensures
        same <==> session@.len() == resident@.len() && forall|block: int|
            0 <= block < session@.len() ==> ((#[trigger] session@[block]) is Full
                <==> resident@[block] is Full),
{
}

/// A session is planned under a resident model only within its context and with the
/// shapes of its uploaded weights, and then as it was planned.
pub proof fn law_session_plan(
    resident: &DeviceModelPlan,
    session: DeviceModelPlan,
    plan: Result<DeviceModelPlan, Error>,
)
    requires
        call_ensures(derive_session_plan, (resident, session), plan),
    ensures
        plan is Ok <==> session.layout.max_context <= resident.layout.max_context
            && session.embedding.rows == resident.embedding.rows && session.embedding.width
            == resident.embedding.width && session.output.rows == resident.output.rows
            && session.output.width == resident.output.width && session.layers@.len()
            == resident.layers@.len() && forall|block: int|
            0 <= block < session.layers@.len() ==> ((#[trigger] session.layers@[block]) is Full
                <==> resident.layers@[block] is Full),
        plan matches Ok(plan) ==> plan == session,
{
}

/// A chunk embeds the row of each token in order, starts at its position, ends as many
/// tokens later, and sees what was published with its own tokens.
pub proof fn law_chunk(
    plan: &DeviceModelPlan,
    position: usize,
    tokens: &[u32],
    chunk: ModelChunkPlan,
    i: int,
)
    requires
        call_ensures(
            ModelChunkPlan::from_model,
            (plan, position, tokens),
            Ok::<ModelChunkPlan, Error>(chunk),
        ),
        0 <= i < tokens@.len(),
    ensures
        chunk.rows@.len() == tokens@.len() && chunk.rows@[i] == tokens@[i],
        tokens@[i] < plan.embedding.rows,
        chunk.position == position && chunk.token_count == tokens@.len() && chunk.next_position
            == position + tokens@.len(),
        0 < tokens@.len() <= plan.max_chunk_tokens,
        position + tokens@.len() <= plan.layout.max_context,
        plan.kv is Some <==> chunk.attention is Some,
        chunk.attention matches Some(attention) ==> attention.tokens == tokens@.len()
            && attention.visible_tokens == position + tokens@.len(),
{
    reveal_with_fuel(PackedPrefillPlan::sequences_failure, 2);
    assert(tokens.len() == tokens@.len());
    lemma_token_in_vocabulary(tokens@, plan.embedding.rows as int, i);
}

proof fn lemma_token_in_vocabulary(tokens: Seq<u32>, vocabulary: int, i: int)
    requires
        qwen35_session::token_failure(tokens, vocabulary) is None,
        0 <= i < tokens.len(),
    ensures
        tokens[i] < vocabulary,
    decreases tokens.len(),
{
    if i < tokens.len() - 1 {
        lemma_token_in_vocabulary(tokens.drop_last(), vocabulary, i);
        assert(tokens.drop_last()[i] == tokens[i]);
    }
}

/// A sequence of a packed batch is a chunk at the position that the batch packed it at.
pub proof fn law_packed_chunk(
    plan: &DeviceModelPlan,
    tokens: &[u32],
    packed: &PackedPrefillPlan,
    sequence: usize,
    chunk: ModelChunkPlan,
    i: int,
)
    requires
        call_ensures(
            ModelChunkPlan::from_packed_sequence,
            (plan, tokens, packed, sequence),
            Ok::<ModelChunkPlan, Error>(chunk),
        ),
        0 <= i < tokens@.len(),
    ensures
        sequence < packed.lengths@.len() && sequence < packed.offsets@.len(),
        tokens@.len() == packed.lengths@[sequence as int],
        chunk.position == packed.offsets@[sequence as int],
        chunk.next_position == chunk.position + tokens@.len(),
        chunk.rows@.len() == tokens@.len() && chunk.rows@[i] == tokens@[i],
        chunk.token_count == tokens@.len(),
        chunk.next_position <= plan.layout.max_context && tokens@.len() <= plan.max_chunk_tokens,
{
}

/// A bound parameter has its name and as many finite values as were asked for, and a
/// vector's role asks for one dimension of its width.
pub proof fn law_parameter_is_bound(
    artifact: &VerifiedArtifact,
    name: String,
    dims: &[u64],
    elements: usize,
    parameter: F32Parameter,
    role: &'static str,
    width: usize,
    vector: ParameterRole,
)
    requires
        call_ensures(
            f32_parameter,
            (artifact, name, dims, elements),
            Ok::<F32Parameter, Error>(parameter),
        ),
        call_ensures(vector_role, (role, width), vector),
    ensures
        parameter.name@ == name@ && parameter.elements == elements,
        vector.role == role && vector.dims@ == seq![width as u64] && vector.elements == width,
        exists|values: Seq<u32>|
            values.len() == elements && #[trigger] qwen35_execution::parameter_words(
                *artifact,
                name@,
                dims@,
                values,
            ),
{
}

/// Parameters are bound in the order of their roles, each under the name of its block.
pub proof fn law_parameters_are_bound(
    artifact: &VerifiedArtifact,
    block: usize,
    roles: &[ParameterRole],
    parameters: Vec<F32Parameter>,
    i: int,
)
    requires
        call_ensures(
            bind_parameters,
            (artifact, block, roles),
            Ok::<Vec<F32Parameter>, Error>(parameters),
        ),
        0 <= i < roles@.len(),
    ensures
        parameters@.len() == roles@.len(),
        parameters@[i].name@ == "blk."@ + text::decimal(block as nat) + "."@ + roles@[i].role@,
        parameters@[i].elements == roles@[i].elements,
{
    let wanted = native_weights::shapes(roles@);
    assert(wanted[i] == roles@[i]@);
    assert(parameters@[i].elements == wanted[i].elements);
}

/// A model is planned for its artifact's geometry under a context, with a chunk of one
/// to as many tokens as the context.
pub proof fn law_model_plan_from_weights(
    observed: &ObservedArtifact,
    profile: Qwen35StructuralProfile<'_>,
    lent: &Qwen35StructuralProfile<'_>,
    artifact: &VerifiedArtifact,
    max_context: usize,
    tokens: usize,
    kernels: ModelKernels<'_>,
    plan: DeviceModelPlan,
)
    requires
        call_ensures(
            Qwen35StructuralProfile::try_from_observed,
            (observed,),
            Ok::<Qwen35StructuralProfile<'_>, Error>(profile),
        ),
        *lent == profile,
        call_ensures(
            DeviceModelPlan::from_weights_prefill,
            (lent, artifact, max_context, tokens, kernels),
            Ok::<DeviceModelPlan, Error>(plan),
        ),
    ensures
        0 < tokens <= max_context && max_context <= count(
            observed.metadata@,
            "qwen35.context_length",
        ),
        plan.max_chunk_tokens == tokens && plan.layout.max_context == max_context,
        ({
            let w = widths(observed.metadata@);
            &&& plan.layout.hidden == w.hidden && plan.layout.feed_forward == w.forward
            &&& plan.layout.heads == w.heads && plan.layout.kv_heads == w.kv_heads
                && plan.layout.key == w.key
            &&& plan.layers@.len() == w.blocks - w.nextn
            &&& plan.output.rows == w.vocabulary && plan.output.width == w.hidden
        }),
{
    let stored = observed.metadata@["tokenizer.ggml.tokens"@]->Array_0.values;
    assert(stored.len() == stored@.len());
}

/// One block is planned for its artifact's geometry, and only where it is a main block
/// with full attention.
pub proof fn law_block_plan_from_weights(
    observed: &ObservedArtifact,
    profile: Qwen35StructuralProfile<'_>,
    lent: &Qwen35StructuralProfile<'_>,
    artifact: &VerifiedArtifact,
    block: usize,
    max_context: usize,
    kernels: BlockKernels<'_>,
    plan: DeviceFullAttentionPlan,
)
    requires
        call_ensures(
            Qwen35StructuralProfile::try_from_observed,
            (observed,),
            Ok::<Qwen35StructuralProfile<'_>, Error>(profile),
        ),
        *lent == profile,
        call_ensures(
            DeviceFullAttentionPlan::from_weights,
            (lent, artifact, block, max_context, kernels),
            Ok::<DeviceFullAttentionPlan, Error>(plan),
        ),
    ensures
        plan.block == block && plan.layout.max_context == max_context,
        ({
            let w = widths(observed.metadata@);
            &&& plan.layout.hidden == w.hidden && plan.layout.key == w.key
            &&& block < w.blocks - w.nextn && (block + 1) % w.interval == 0
        }),
{
}

/// The errors of refused and of unpublished work: what failed is handed on as it is, and
/// a broken rule is named.
pub proof fn law_work_errors(
    begin: BeginError,
    refused: Error,
    completion: CompletionError<Error>,
    failed: Error,
)
    requires
        call_ensures(begin_error, (begin,), refused),
        call_ensures(completion_error, (completion,), failed),
    ensures
        begin == BeginError::NotReady ==> refused == (Error::NativeSessionState {
            rule: "native session is permanently poisoned after submission",
        }),
        begin == BeginError::MissingResource ==> refused == (Error::NativeSessionState {
            rule: "native session lost its owned resource bundle",
        }),
        completion matches CompletionError::Commit { source } ==> failed == source,
        completion matches CompletionError::Synchronization { source } ==> failed == source,
        completion matches CompletionError::PostSynchronizationValidation { source } ==> failed
            == source,
        completion is MissingResource ==> failed == (Error::NativeSessionState {
            rule: "native in-flight guard lost its owned resource bundle",
        }),
        completion is NotSubmitted ==> failed == (Error::NativeSessionState {
            rule: "native completion requires a marked submission",
        }),
{
}

/// A retained owner is recovered as it was handed in.
pub proof fn law_resident_is_recovered<T>(
    resident: Arc<T>,
    retention: ResidentRetention<T>,
    recovered: Arc<T>,
)
    requires
        call_ensures(ResidentRetention::<T>::new, (resident,), retention),
        call_ensures(ResidentRetention::<T>::recover, (retention,), recovered),
    ensures
        recovered == resident,
{
}

/// A chunk is admitted exactly where it has a token, fits its capacity and the context
/// behind its position, and names entries of the vocabulary alone.
pub proof fn law_chunk_admission(
    plan: &DeviceModelPlan,
    position: usize,
    tokens: &[u32],
    checked: Result<(), Error>,
)
    requires
        call_ensures(check_chunk, (plan, position, tokens), checked),
    ensures
        checked is Ok <==> {
            &&& 0 < tokens@.len() <= plan.max_chunk_tokens
            &&& position + tokens@.len() <= plan.layout.max_context
            &&& forall|i: int|
                0 <= i < tokens@.len() ==> #[trigger] tokens@[i] < plan.embedding.rows
        },
{
    reveal_with_fuel(PackedPrefillPlan::sequences_failure, 2);
    reveal_with_fuel(qwen35_execution::total, 2);
    assert(tokens.len() == tokens@.len());
    lemma_all_in_vocabulary(tokens@, plan.embedding.rows as int);
    let lengths = seq![tokens@.len() as usize];
    assert(qwen35_execution::total(lengths) == tokens@.len()) by {
        assert(lengths.drop_last() =~= Seq::<usize>::empty());
        assert(lengths.last() == tokens@.len() as usize);
    }
}

proof fn lemma_all_in_vocabulary(tokens: Seq<u32>, vocabulary: int)
    ensures
        qwen35_session::token_failure(tokens, vocabulary) is None <==> forall|i: int|
            0 <= i < tokens.len() ==> #[trigger] tokens[i] < vocabulary,
    decreases tokens.len(),
{
    if tokens.len() > 0 {
        let init = tokens.drop_last();
        lemma_all_in_vocabulary(init, vocabulary);
        if qwen35_session::token_failure(tokens, vocabulary) is None {
            assert forall|i: int| 0 <= i < tokens.len() implies #[trigger] tokens[i]
                < vocabulary by {
                if i < tokens.len() - 1 {
                    assert(init[i] < vocabulary);
                }
            }
        } else if forall|i: int| 0 <= i < tokens.len() ==> #[trigger] tokens[i] < vocabulary {
            assert forall|i: int| 0 <= i < init.len() implies #[trigger] init[i] < vocabulary by {
                assert(tokens[i] < vocabulary);
            }
            assert(tokens[tokens.len() - 1] < vocabulary);
        }
    }
}

} // verus!
