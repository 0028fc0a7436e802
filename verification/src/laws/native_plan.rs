//! Laws of device plans: every byte demand is the sum of named parts, and what grows
//! with a chunk is told apart from what does not.

use crate::error::Error;
use crate::native_demand::{
    elements_bytes, sum, DeviceByteDemand, ModelDeviceByteDemand, Qwen35NativeExecutionDeviceDemand,
    Qwen35NativeLayerDeviceDemand,
};
use crate::native_plan::{
    check_chunk_capacity, control_elements, hidden_row_elements, norm_bytes, scratch_elements,
    validate_operations, verify_vocabulary_matrix, FullWorkspaceExtents, LayerFinishWorkspacePlan,
    ModelBlockPlans, ModelExtents, NativeBlockExtents, NativeKvExtents, ProjectionWeightBytes,
    RecurrentOperationPlans, RecurrentWorkspacePlan,
};
use crate::qwen35_execution::Layout;
use vstd::prelude::*;

verus! {

/// The tail of a layer needs three hidden rows and three feed-forward rows for every
/// token, four bytes for each value.
pub proof fn law_finish_rows(
    layout: Layout,
    tokens: usize,
    plan: LayerFinishWorkspacePlan,
    elements: usize,
    bytes: usize,
)
    requires
        call_ensures(
            LayerFinishWorkspacePlan::from_rows,
            (layout, tokens),
            Ok::<LayerFinishWorkspacePlan, Error>(plan),
        ),
        call_ensures(LayerFinishWorkspacePlan::elements, (plan,), Ok::<usize, Error>(elements)),
        call_ensures(LayerFinishWorkspacePlan::bytes, (plan,), Ok::<usize, Error>(bytes)),
    ensures
        tokens > 0,
        plan.attention_residual == tokens * layout.hidden && plan.post_norm == tokens
            * layout.hidden && plan.ffn_down == tokens * layout.hidden,
        plan.ffn_gate == tokens * layout.feed_forward && plan.ffn_up == tokens
            * layout.feed_forward && plan.ffn_product == tokens * layout.feed_forward,
        elements == tokens * (3 * layout.hidden + 3 * layout.feed_forward),
        bytes == 4 * elements,
{
    let t = tokens as int;
    let h = layout.hidden as int;
    let f = layout.feed_forward as int;
    assert(t * (3 * h + 3 * f) == 3 * (t * h) + 3 * (t * f)) by (nonlinear_arith);
}

/// The values of a recurrent block are what is left of its activated convolution behind
/// the queries and the keys, to its end.
pub proof fn law_value_tail(operations: &RecurrentOperationPlans, offset: usize, length: usize)
    requires
        call_ensures(
            validate_operations,
            (operations,),
            Ok::<(usize, usize), Error>((offset, length)),
        ),
    ensures
        offset == operations.qk_l2_source + operations.qk_l2_source,
        offset + length == operations.convolution_silu,
        length == operations.recurrence_output && length == operations.output_norm,
        operations.qk_l2_output == operations.recurrence_query_and_key,
        operations.scalar_value_heads == operations.recurrence_scalars,
{
}

/// The workspace of a recurrent block is the sum of its named buffers; the values take
/// none, since they stay in the activated convolution.
pub proof fn law_recurrent_workspace(
    operations: RecurrentOperationPlans,
    plan: RecurrentWorkspacePlan,
)
    requires
        call_ensures(
            RecurrentWorkspacePlan::from_operations,
            (operations,),
            Ok::<RecurrentWorkspacePlan, Error>(plan),
        ),
    ensures
        plan.elements == plan.normalized_hidden + plan.qkv + plan.z + plan.alpha
            + plan.beta_projection + plan.raw_convolution + plan.activated_convolution
            + plan.tiled_query + plan.tiled_key + plan.beta + plan.log_decay
            + plan.recurrence_output + plan.normalized_output + plan.gated_output
            + plan.projected_attention,
        plan.normalized_hidden == operations.input_norm && plan.projected_attention
            == operations.input_norm,
        plan.qkv == operations.convolution_output && plan.raw_convolution
            == operations.convolution_output,
        plan.activated_convolution == operations.convolution_silu,
        plan.tiled_query == operations.qk_l2_output && plan.tiled_key == operations.qk_l2_output,
        plan.alpha == operations.scalar_value_heads && plan.beta_projection
            == operations.scalar_value_heads && plan.beta == operations.scalar_value_heads
            && plan.log_decay == operations.scalar_value_heads,
        plan.z == operations.recurrence_output && plan.recurrence_output
            == operations.recurrence_output,
        plan.normalized_output == operations.output_norm && plan.gated_output
            == operations.output_silu_product,
        plan.value_tail_offset + plan.value_tail_elements == plan.activated_convolution,
        plan.value_tail_elements == operations.recurrence_output,
{
}

/// The scratch of a full-attention block grows with its tokens and with nothing else,
/// and a position has a cosine and a sine for every rotated pair.
pub proof fn law_attention_rows(
    layout: Layout,
    tokens: usize,
    extents: FullWorkspaceExtents,
    single: FullWorkspaceExtents,
    controls: usize,
)
    requires
        call_ensures(
            FullWorkspaceExtents::from_rows,
            (layout, tokens),
            Ok::<FullWorkspaceExtents, Error>(extents),
        ),
        call_ensures(
            FullWorkspaceExtents::from_rows,
            (layout, 1usize),
            Ok::<FullWorkspaceExtents, Error>(single),
        ),
        call_ensures(control_elements, (layout,), controls),
    ensures
        extents.elements == tokens * single.elements,
        extents.coefficient_elements == tokens * single.coefficient_elements,
        single.elements == 2 * layout.hidden + 7 * layout.query_width + 3 * layout.kv_width,
        single.coefficient_elements == controls,
        layout.n_rot % 2 == 0 ==> controls == layout.n_rot,
{
    let row = 2 * layout.hidden + 7 * layout.query_width + 3 * layout.kv_width;
    let pair = 2 * (layout.n_rot as int / 2);
    assert(1 * row == row && 1 * pair == pair);
}

/// The scratch of one row of a whole full-attention layer is its attention scratch and
/// the scratch of its tail.
pub proof fn law_layer_scratch(
    layout: Layout,
    scratch: usize,
    single: FullWorkspaceExtents,
    tail: LayerFinishWorkspacePlan,
    tail_elements: usize,
)
    requires
        call_ensures(scratch_elements, (layout,), Ok::<usize, Error>(scratch)),
        call_ensures(
            FullWorkspaceExtents::from_rows,
            (layout, 1usize),
            Ok::<FullWorkspaceExtents, Error>(single),
        ),
        call_ensures(
            LayerFinishWorkspacePlan::from_rows,
            (layout, 1usize),
            Ok::<LayerFinishWorkspacePlan, Error>(tail),
        ),
        call_ensures(LayerFinishWorkspacePlan::elements, (tail,), Ok::<usize, Error>(tail_elements)),
    ensures
        scratch == single.elements + tail_elements,
{
    let row = 2 * layout.hidden + 7 * layout.query_width + 3 * layout.kv_width;
    assert(1 * row == row && 1 * layout.hidden == layout.hidden && 1 * layout.feed_forward
        == layout.feed_forward);
}

/// The demand of one full-attention block: its seven matrices and four norms, its
/// scratch, a row in and a row out, its rotation, its keys and values, and its table,
/// four bytes for each value.
pub proof fn law_block_demand(
    layout: Layout,
    matrices: ProjectionWeightBytes,
    kv: NativeKvExtents,
    numerical_status: usize,
    demand: DeviceByteDemand,
    norms: usize,
    scratch: usize,
    controls: usize,
)
    requires
        call_ensures(
            DeviceByteDemand::from_block,
            (layout, matrices, kv, numerical_status),
            Ok::<DeviceByteDemand, Error>(demand),
        ),
        call_ensures(norm_bytes, (layout,), Ok::<usize, Error>(norms)),
        call_ensures(scratch_elements, (layout,), Ok::<usize, Error>(scratch)),
        call_ensures(control_elements, (layout,), controls),
    ensures
        norms == 4 * (layout.hidden + layout.key + layout.key + layout.hidden),
        demand.weights == matrices.q_gate + matrices.key + matrices.value + matrices.output
            + matrices.ffn_gate + matrices.ffn_up + matrices.ffn_down + norms,
        demand.scratch == 4 * scratch,
        demand.input == 4 * layout.hidden && demand.output == 4 * layout.hidden,
        demand.controls == 4 * controls,
        demand.key_values == 4 * kv.backing_elements + 4 * kv.backing_elements,
        demand.table == 4 * kv.page_table_entries,
        demand.numerical_status == numerical_status,
{
}

/// The total of a demand is the sum of its categories, as its accessors report them.
pub proof fn law_layer_demand_total(
    bytes: DeviceByteDemand,
    demand: Qwen35NativeLayerDeviceDemand,
    parts: (usize, usize, usize, usize, usize, usize, usize),
    total: usize,
)
    requires
        call_ensures(
            Qwen35NativeLayerDeviceDemand::from_bytes,
            (bytes,),
            Ok::<Qwen35NativeLayerDeviceDemand, Error>(demand),
        ),
        call_ensures(Qwen35NativeLayerDeviceDemand::weight_bytes, (demand,), parts.0),
        call_ensures(Qwen35NativeLayerDeviceDemand::scratch_bytes, (demand,), parts.1),
        call_ensures(Qwen35NativeLayerDeviceDemand::input_bytes, (demand,), parts.2),
        call_ensures(Qwen35NativeLayerDeviceDemand::output_bytes, (demand,), parts.3),
        call_ensures(Qwen35NativeLayerDeviceDemand::control_bytes, (demand,), parts.4),
        call_ensures(Qwen35NativeLayerDeviceDemand::key_value_bytes, (demand,), parts.5),
        call_ensures(Qwen35NativeLayerDeviceDemand::table_bytes, (demand,), parts.6),
        call_ensures(Qwen35NativeLayerDeviceDemand::total_bytes, (demand,), total),
    ensures
        parts.0 == bytes.weights && parts.1 == bytes.scratch && parts.2 == bytes.input && parts.3
            == bytes.output && parts.4 == bytes.controls && parts.5 == bytes.key_values && parts.6
            == bytes.table,
        total == parts.0 + parts.1 + parts.2 + parts.3 + parts.4 + parts.5 + parts.6
            + bytes.numerical_status,
{
}

/// Of a model's demand, what stays resident, what a session owns, what a step uses, and
/// what it gives out are disjoint and make up the whole.
pub proof fn law_model_demand_total(
    bytes: ModelDeviceByteDemand,
    demand: Qwen35NativeExecutionDeviceDemand,
    resident: usize,
    session: usize,
    step: usize,
    output: usize,
    total: usize,
)
    requires
        call_ensures(
            Qwen35NativeExecutionDeviceDemand::from_bytes,
            (bytes,),
            Ok::<Qwen35NativeExecutionDeviceDemand, Error>(demand),
        ),
        call_ensures(Qwen35NativeExecutionDeviceDemand::resident_bytes, (demand,), resident),
        call_ensures(Qwen35NativeExecutionDeviceDemand::session_bytes, (demand,), session),
        call_ensures(Qwen35NativeExecutionDeviceDemand::step_bytes, (demand,), step),
        call_ensures(Qwen35NativeExecutionDeviceDemand::output_bytes, (demand,), output),
        call_ensures(Qwen35NativeExecutionDeviceDemand::total_bytes, (demand,), total),
    ensures
        resident == bytes.weights && step == bytes.mrope_controls && output == bytes.logits,
        resident + session + step + output == total,
        session == bytes.full_workspace + bytes.recurrent_workspace + bytes.finish_workspace
            + bytes.hidden_rows + bytes.final_normalized + bytes.key_values + bytes.page_table
            + bytes.recurrent_history_active + bytes.recurrent_history_staged
            + bytes.recurrent_state_active + bytes.recurrent_state_staged + bytes.numerical_status,
{
}

/// The accessors of a model's demand report its categories, each its own.
pub proof fn law_model_demand_parts(
    bytes: ModelDeviceByteDemand,
    demand: Qwen35NativeExecutionDeviceDemand,
    work: (usize, usize, usize, usize, usize, usize, usize, usize),
    kept: (usize, usize, usize, usize, usize, usize, usize),
)
    requires
        call_ensures(
            Qwen35NativeExecutionDeviceDemand::from_bytes,
            (bytes,),
            Ok::<Qwen35NativeExecutionDeviceDemand, Error>(demand),
        ),
        call_ensures(Qwen35NativeExecutionDeviceDemand::weight_bytes, (demand,), work.0),
        call_ensures(Qwen35NativeExecutionDeviceDemand::full_workspace_bytes, (demand,), work.1),
        call_ensures(
            Qwen35NativeExecutionDeviceDemand::recurrent_workspace_bytes,
            (demand,),
            work.2,
        ),
        call_ensures(Qwen35NativeExecutionDeviceDemand::finish_workspace_bytes, (demand,), work.3),
        call_ensures(Qwen35NativeExecutionDeviceDemand::hidden_row_bytes, (demand,), work.4),
        call_ensures(Qwen35NativeExecutionDeviceDemand::final_normalized_bytes, (demand,), work.5),
        call_ensures(Qwen35NativeExecutionDeviceDemand::logits_bytes, (demand,), work.6),
        call_ensures(Qwen35NativeExecutionDeviceDemand::mrope_control_bytes, (demand,), work.7),
        call_ensures(Qwen35NativeExecutionDeviceDemand::key_value_bytes, (demand,), kept.0),
        call_ensures(Qwen35NativeExecutionDeviceDemand::page_table_bytes, (demand,), kept.1),
        call_ensures(
            Qwen35NativeExecutionDeviceDemand::recurrent_history_active_bytes,
            (demand,),
            kept.2,
        ),
        call_ensures(
            Qwen35NativeExecutionDeviceDemand::recurrent_history_staged_bytes,
            (demand,),
            kept.3,
        ),
        call_ensures(
            Qwen35NativeExecutionDeviceDemand::recurrent_state_active_bytes,
            (demand,),
            kept.4,
        ),
        call_ensures(
            Qwen35NativeExecutionDeviceDemand::recurrent_state_staged_bytes,
            (demand,),
            kept.5,
        ),
        call_ensures(Qwen35NativeExecutionDeviceDemand::numerical_status_bytes, (demand,), kept.6),
    ensures
        work.0 == bytes.weights && work.1 == bytes.full_workspace && work.2
            == bytes.recurrent_workspace && work.3 == bytes.finish_workspace && work.4
            == bytes.hidden_rows && work.5 == bytes.final_normalized && work.6 == bytes.logits
            && work.7 == bytes.mrope_controls,
        kept.0 == bytes.key_values && kept.1 == bytes.page_table && kept.2
            == bytes.recurrent_history_active && kept.3 == bytes.recurrent_history_staged && kept.4
            == bytes.recurrent_state_active && kept.5 == bytes.recurrent_state_staged && kept.6
            == bytes.numerical_status,
{
}

/// The demand of a model: rows of a chunk are held twice, the rows of the head once,
/// keys and values apart, and what recurrence keeps is held active and staged alike.
pub proof fn law_model_demand(
    extents: ModelExtents,
    tokens: usize,
    plans: &ModelBlockPlans,
    demand: ModelDeviceByteDemand,
    rows: usize,
)
    requires
        call_ensures(
            ModelDeviceByteDemand::from_model,
            (extents, tokens, plans),
            Ok::<ModelDeviceByteDemand, Error>(demand),
        ),
        call_ensures(hidden_row_elements, (extents.hidden, tokens), Ok::<usize, Error>(rows)),
    ensures
        demand.weights == plans.weights_bytes,
        rows == tokens * extents.hidden && demand.hidden_rows == 4 * rows + 4 * rows,
        demand.final_normalized == 4 * extents.final_normalized,
        demand.logits == 4 * extents.vocabulary,
        plans.finish_workspace_bytes == Some(demand.finish_workspace),
        plans.full_workspace matches Some(work) ==> demand.full_workspace == 4 * work.elements
            && demand.mrope_controls == 4 * work.coefficient_elements,
        plans.full_workspace is None ==> demand.full_workspace == 0 && demand.mrope_controls == 0,
        plans.recurrent_workspace matches Some(work) ==> demand.recurrent_workspace == 4 * work,
        plans.recurrent_workspace is None ==> demand.recurrent_workspace == 0,
        extents.kv matches Some(kv) ==> demand.key_values == 4 * kv.backing_elements + 4
            * kv.backing_elements && demand.page_table == 4 * kv.page_table_entries,
        extents.kv is None ==> demand.key_values == 0 && demand.page_table == 0,
        demand.recurrent_history_active == 4 * plans.recurrent_history_elements
            && demand.recurrent_history_staged == demand.recurrent_history_active,
        demand.recurrent_state_active == 4 * plans.recurrent_state_elements
            && demand.recurrent_state_staged == demand.recurrent_state_active,
        demand.numerical_status == extents.numerical_status,
{
    assert(extents.hidden * tokens == tokens * extents.hidden) by (nonlinear_arith);
}

/// One block more adds its weights and its state, counts as one more layer of its kind,
/// and shares the workspace of the first block of its kind.
pub proof fn law_block_is_added(
    plans: ModelBlockPlans,
    block: NativeBlockExtents,
    next: ModelBlockPlans,
)
    requires
        call_ensures(
            ModelBlockPlans::push,
            (plans, block),
            Ok::<ModelBlockPlans, Error>(next),
        ),
    ensures
        match block {
            NativeBlockExtents::Full { workspace, finish_scratch, matrices, norms, finish_weights } => {
                &&& next.weights_bytes == plans.weights_bytes + matrices + norms + finish_weights
                &&& next.full_layers == plans.full_layers + 1
                &&& next.recurrent_history_elements == plans.recurrent_history_elements
                &&& next.recurrent_state_elements == plans.recurrent_state_elements
                &&& next.recurrent_workspace == plans.recurrent_workspace
                &&& plans.full_workspace is None ==> next.full_workspace == Some(workspace)
                &&& plans.full_workspace is Some ==> next.full_workspace == plans.full_workspace
                &&& plans.finish_workspace_bytes is None ==> next.finish_workspace_bytes == Some(
                    finish_scratch,
                )
            },
            NativeBlockExtents::Recurrent {
                workspace_elements,
                finish_scratch,
                weights,
                finish_weights,
                history,
                state,
            } => {
                &&& next.weights_bytes == plans.weights_bytes + weights + finish_weights
                &&& next.full_layers == plans.full_layers
                &&& next.recurrent_history_elements == plans.recurrent_history_elements + history
                &&& next.recurrent_state_elements == plans.recurrent_state_elements + state
                &&& next.full_workspace == plans.full_workspace
                &&& plans.recurrent_workspace is None ==> next.recurrent_workspace == Some(
                    workspace_elements,
                )
                &&& plans.recurrent_workspace is Some ==> next.recurrent_workspace
                    == plans.recurrent_workspace
                &&& plans.finish_workspace_bytes is None ==> next.finish_workspace_bytes == Some(
                    finish_scratch,
                )
            },
        },
        plans.finish_workspace_bytes is Some ==> next.finish_workspace_bytes
            == plans.finish_workspace_bytes,
{
}

/// The plans of a list of blocks are those of all but the last, with the last added.
pub proof fn law_blocks_are_added_in_order(
    weights_bytes: usize,
    blocks: &[NativeBlockExtents],
    plans: ModelBlockPlans,
    shorter: &[NativeBlockExtents],
    before: ModelBlockPlans,
)
    requires
        call_ensures(
            ModelBlockPlans::from_blocks,
            (weights_bytes, blocks),
            Ok::<ModelBlockPlans, Error>(plans),
        ),
        call_ensures(
            ModelBlockPlans::from_blocks,
            (weights_bytes, shorter),
            Ok::<ModelBlockPlans, Error>(before),
        ),
        blocks@.len() > 0,
        shorter@ == blocks@.drop_last(),
    ensures
        ({
            let last = blocks@.last();
            &&& last matches NativeBlockExtents::Full { matrices, norms, finish_weights, .. }
                ==> plans.weights_bytes == before.weights_bytes + matrices + norms + finish_weights
                && plans.full_layers == before.full_layers + 1
            &&& last matches NativeBlockExtents::Recurrent {
                weights,
                finish_weights,
                history,
                state,
                ..
            } ==> plans.weights_bytes == before.weights_bytes + weights + finish_weights
                && plans.full_layers == before.full_layers && plans.recurrent_history_elements
                == before.recurrent_history_elements + history && plans.recurrent_state_elements
                == before.recurrent_state_elements + state
        }),
{
    lemma_same_prefix(weights_bytes, blocks@, shorter@, shorter@.len() as int);
}

proof fn lemma_same_prefix(
    weights_bytes: usize,
    blocks: Seq<NativeBlockExtents>,
    shorter: Seq<NativeBlockExtents>,
    count: int,
)
    requires
        0 <= count <= shorter.len() <= blocks.len(),
        forall|i: int| 0 <= i < shorter.len() ==> #[trigger] shorter[i] == blocks[i],
    ensures
        ModelBlockPlans::upto(weights_bytes, shorter, count) == ModelBlockPlans::upto(
            weights_bytes,
            blocks,
            count,
        ),
    decreases count,
{
    if count > 0 {
        lemma_same_prefix(weights_bytes, blocks, shorter, count - 1);
        assert(shorter[count - 1] == blocks[count - 1]);
    }
}

/// No block takes nothing but the weights outside the blocks.
pub proof fn law_no_blocks(
    weights_bytes: usize,
    blocks: &[NativeBlockExtents],
    plans: Result<ModelBlockPlans, Error>,
)
    requires
        call_ensures(ModelBlockPlans::from_blocks, (weights_bytes, blocks), plans),
        blocks@.len() == 0,
    ensures
        plans matches Ok(plans) && plans.weights_bytes == weights_bytes && plans.full_layers == 0
            && plans.full_workspace is None && plans.recurrent_workspace is None
            && plans.finish_workspace_bytes is None && plans.recurrent_history_elements == 0
            && plans.recurrent_state_elements == 0,
{
}

/// A chunk holds at least one token and no more than the context.
pub proof fn law_chunk_capacity(max_context: usize, tokens: usize, checked: Result<(), Error>)
    requires
        call_ensures(check_chunk_capacity, (max_context, tokens), checked),
    ensures
        checked is Ok <==> 0 < tokens <= max_context,
{
}

/// A vocabulary matrix has a row of the hidden width for every vocabulary entry.
pub proof fn law_vocabulary_matrix(
    rows: usize,
    width: usize,
    layout: Layout,
    rule: &'static str,
    checked: Result<(), Error>,
)
    requires
        call_ensures(verify_vocabulary_matrix, (rows, width, layout, rule), checked),
    ensures
        checked is Ok <==> rows == layout.vocabulary && width == layout.hidden,
{
}

/// A number of elements takes its product with the bytes of one.
pub proof fn law_element_bytes(
    elements: usize,
    bytes: usize,
    context: &'static str,
    total: usize,
)
    requires
        call_ensures(elements_bytes, (elements, bytes, context), Ok::<usize, Error>(total)),
    ensures
        total == elements * bytes,
{
}

/// A sum of extents is the sum of its parts.
pub proof fn law_device_sum(values: &[usize], context: &'static str, total: usize)
    requires
        call_ensures(sum, (values, context), Ok::<usize, Error>(total)),
    ensures
        values@.len() == 1 ==> total == values@[0],
        values@.len() == 2 ==> total == values@[0] + values@[1],
        values@.len() == 3 ==> total == values@[0] + values@[1] + values@[2],
        total == values@.fold_left(0int, |total: int, extent: usize| total + extent),
{
    reveal_with_fuel(crate::qwen35_execution::total, 4);
    lemma_sum_is_fold(values@);
}

proof fn lemma_sum_is_fold(values: Seq<usize>)
    ensures
        crate::qwen35_execution::total(values) == values.fold_left(
            0int,
            |total: int, extent: usize| total + extent,
        ),
    decreases values.len(),
{
    reveal_with_fuel(Seq::fold_left, 2);
    if values.len() > 0 {
        lemma_sum_is_fold(values.drop_last());
    }
}

/// The totals of byte demands add every category once.
pub proof fn law_demand_totals(
    layer: DeviceByteDemand,
    layer_total: usize,
    model: ModelDeviceByteDemand,
    model_total: usize,
    matrices: ProjectionWeightBytes,
    matrix_total: usize,
)
    requires
        call_ensures(DeviceByteDemand::total, (layer,), Ok::<usize, Error>(layer_total)),
        call_ensures(ModelDeviceByteDemand::total, (model,), Ok::<usize, Error>(model_total)),
        call_ensures(ProjectionWeightBytes::bytes, (matrices,), Ok::<usize, Error>(matrix_total)),
    ensures
        layer_total == layer.weights + layer.scratch + layer.input + layer.output + layer.controls
            + layer.key_values + layer.table + layer.numerical_status,
        model_total == model.weights + model.full_workspace + model.recurrent_workspace
            + model.finish_workspace + model.hidden_rows + model.final_normalized + model.logits
            + model.mrope_controls + model.key_values + model.page_table
            + model.recurrent_history_active + model.recurrent_history_staged
            + model.recurrent_state_active + model.recurrent_state_staged + model.numerical_status,
        matrix_total == matrices.q_gate + matrices.key + matrices.value + matrices.output
            + matrices.ffn_gate + matrices.ffn_up + matrices.ffn_down,
{
}

} // verus!
