use decoders::completion::{CompletionResource, ResourceOwner, ResourceState};
use decoders::gguf::{
    GgmlType, MetaArray, MetaValue, MetaValueType, Metadata, ObservedArtifact, TensorDescriptor,
    VerifiedArtifact,
};
use decoders::matrix::RowFormat;
use decoders::native_batch::{BatchAction, BatchRun};
use decoders::native_demand::{elements_bytes, DeviceByteDemand, ModelDeviceByteDemand};
use decoders::native_model::{ModelKernels, RecurrentKernels};
use decoders::native_plan::{
    control_elements, hidden_row_elements, norm_bytes, scratch_elements, verify_vocabulary_matrix,
    FullWorkspaceExtents, LayerFinishWorkspacePlan, ModelBlockPlans, ModelExtents,
    NativeBlockExtents, NativeKvExtents, ProjectionWeightBytes, RecurrentOperationPlans,
    RecurrentWorkspacePlan,
};
use decoders::native_session::{
    derive_session_plan, DeviceModelPlan, InventoryRelease, ModelChunkPlan, ModelSessionTeardown,
    Qwen35NativeExecutionSessionTeardownState, TeardownAdmission,
};
use decoders::native_weights::{BlockKernels, DeviceFullAttentionPlan, RowLength};
use decoders::qwen35::{
    Dimensions, ARCHITECTURE_KEY, BLOCK_COUNT_KEY, EMBEDDING_LENGTH_KEY, FEED_FORWARD_LENGTH_KEY,
    FULL_ATTENTION_INTERVAL_KEY, HEAD_COUNT_KEY, KEY_LENGTH_KEY, KEY_VALUE_HEAD_COUNT_KEY,
    LAYERNORM_RMS_EPSILON_KEY, NEXTN_PREDICT_LAYERS_KEY, SSM_CONV_KERNEL_KEY,
    SSM_GROUP_COUNT_KEY, SSM_INNER_SIZE_KEY, SSM_STATE_SIZE_KEY, SSM_TIME_STEP_RANK_KEY,
    TOKENS_KEY, VALUE_LENGTH_KEY,
};
use decoders::qwen35_execution::{
    Layout, CONTEXT_LENGTH_KEY, OUTPUT, OUTPUT_NORM, ROPE_SECTIONS_KEY, TOKEN_EMBEDDING,
};
use decoders::qwen35_inventory::expected_tensors;
use decoders::{
    Error, Qwen35NativeExecutionSession, Qwen35NativeSessionState, Qwen35StructuralProfile,
};

const CONTEXT: usize = 4;
const STATUS_BYTES: usize = 8;

fn shown<T>(value: Result<T, Error>) -> Result<T, String> {
    value.map_err(|error| format!("{error:?}"))
}

fn text(value: &str) -> MetaValue {
    MetaValue::String(value.to_string())
}

fn metadata(context: usize, nextn: u32) -> Metadata {
    let mut table = Metadata::new();
    for (key, value) in [
        (BLOCK_COUNT_KEY, 4 + nextn),
        (NEXTN_PREDICT_LAYERS_KEY, nextn),
        (FULL_ATTENTION_INTERVAL_KEY, 4),
        (EMBEDDING_LENGTH_KEY, 3),
        (FEED_FORWARD_LENGTH_KEY, 5),
        (HEAD_COUNT_KEY, 4),
        (KEY_VALUE_HEAD_COUNT_KEY, 2),
        (KEY_LENGTH_KEY, 128),
        (VALUE_LENGTH_KEY, 128),
        (SSM_CONV_KERNEL_KEY, 2),
        (SSM_INNER_SIZE_KEY, 8),
        (SSM_STATE_SIZE_KEY, 2),
        (SSM_TIME_STEP_RANK_KEY, 4),
        (SSM_GROUP_COUNT_KEY, 2),
        (CONTEXT_LENGTH_KEY, context as u32),
    ] {
        table.insert(key.to_string(), MetaValue::U32(value));
    }
    table.insert(ARCHITECTURE_KEY.to_string(), text("qwen35"));
    table.insert(
        LAYERNORM_RMS_EPSILON_KEY.to_string(),
        MetaValue::F32(1.0e-5_f32.to_bits()),
    );
    table.insert(
        TOKENS_KEY.to_string(),
        MetaValue::Array(MetaArray {
            element_type: MetaValueType::String,
            values: (0..5).map(|token| text(&format!("t{token}"))).collect(),
        }),
    );
    table.insert(
        ROPE_SECTIONS_KEY.to_string(),
        MetaValue::Array(MetaArray {
            element_type: MetaValueType::I32,
            values: [22, 21, 21, 0].iter().map(|section| MetaValue::I32(*section)).collect(),
        }),
    );
    table
}

fn artifact(context: usize, nextn: u32, terminal: f32) -> Result<VerifiedArtifact, String> {
    artifact_without(context, nextn, terminal, "")
}

fn artifact_without(
    context: usize,
    nextn: u32,
    terminal: f32,
    absent: &str,
) -> Result<VerifiedArtifact, String> {
    let metadata = metadata(context, nextn);
    let dimensions = shown(Dimensions::from_metadata(&metadata))?;
    let mut tensors = Vec::new();
    let mut payloads = Vec::new();
    for tensor in shown(expected_tensors(&dimensions))? {
        let value = if tensor.name.starts_with("blk.4.") { terminal } else { 0.5 };
        let count: u64 = tensor.shape.iter().product();
        if tensor.name != absent {
            payloads.push(value.to_le_bytes().repeat(count as usize));
            tensors.push(TensorDescriptor {
                name: tensor.name,
                dims: tensor.shape,
                ggml_type: GgmlType::F32,
            });
        }
    }
    let observation = ObservedArtifact { metadata, tensors, digest: [7; 32], file_len: 1 };
    VerifiedArtifact::pair(observation, payloads)
        .ok_or_else(|| "every tensor needs its payload".to_string())
}

fn row_lengths() -> Vec<RowLength> {
    [3, 5, 8, 512]
        .iter()
        .map(|width| RowLength { format: RowFormat::F32, width: *width, bytes: 4 * width })
        .collect()
}

fn layout(max_context: usize) -> Result<Layout, String> {
    let artifact = artifact(16, 0, 0.5)?;
    let profile = shown(Qwen35StructuralProfile::try_from_observed(artifact.observation()))?;
    shown(Layout::from_metadata(&profile, max_context))
}

fn matrices() -> ProjectionWeightBytes {
    ProjectionWeightBytes {
        q_gate: 12_288,
        key: 3_072,
        value: 3_072,
        output: 6_144,
        ffn_gate: 60,
        ffn_up: 60,
        ffn_down: 60,
    }
}

fn canonical_operations(capacity: usize) -> RecurrentOperationPlans {
    RecurrentOperationPlans {
        input_norm: 3 * capacity,
        convolution_output: 16 * capacity,
        recurrence_query_and_key: 8 * capacity,
        recurrence_scalars: 4 * capacity,
        recurrence_output: 8 * capacity,
        convolution_silu: 16 * capacity,
        qk_l2_source: 4 * capacity,
        qk_l2_output: 8 * capacity,
        scalar_value_heads: 4 * capacity,
        output_norm: 8 * capacity,
        output_silu_product: 8 * capacity,
    }
}

fn kernels(rows: &[RowLength], context: usize, capacity: usize) -> ModelKernels<'_> {
    ModelKernels {
        rows,
        recurrent: RecurrentKernels {
            operations: canonical_operations(capacity),
            convolution_weights: 32,
            history: 16,
            state: 16,
        },
        kv: NativeKvExtents {
            backing_elements: 1_024 * context,
            page_table_entries: context.div_ceil(8),
        },
        numerical_status: STATUS_BYTES,
    }
}

fn plan_of(
    artifact: &VerifiedArtifact,
    context: usize,
    capacity: usize,
) -> Result<DeviceModelPlan, Error> {
    let profile = Qwen35StructuralProfile::try_from_observed(artifact.observation())?;
    let rows = row_lengths();
    let kernels = kernels(&rows, context, capacity);
    DeviceModelPlan::from_weights_prefill(&profile, artifact, context, capacity, kernels)
}

fn device_plan(context: usize, capacity: usize) -> Result<DeviceModelPlan, String> {
    shown(plan_of(&artifact(16, 0, 0.5)?, context, capacity))
}

fn demand(context: usize, capacity: usize) -> Result<ModelDeviceByteDemand, String> {
    Ok(device_plan(context, capacity)?.bytes)
}

#[test]
fn finish_rows_derive_t1_t2_t3_workspace_extents_from_the_shared_plans() -> Result<(), String> {
    let layout = layout(CONTEXT)?;
    assert!(
        LayerFinishWorkspacePlan::from_rows(layout, 0).is_err(),
        "zero-token finish geometry must be refused before allocation"
    );
    for token_count in 1..=3 {
        let plan = shown(LayerFinishWorkspacePlan::from_rows(layout, token_count))?;
        assert_eq!(plan.attention_residual, token_count * layout.hidden);
        assert_eq!(plan.post_norm, token_count * layout.hidden);
        assert_eq!(plan.ffn_gate, token_count * layout.feed_forward);
        assert_eq!(plan.ffn_up, token_count * layout.feed_forward);
        assert_eq!(plan.ffn_product, token_count * layout.feed_forward);
        assert_eq!(plan.ffn_down, token_count * layout.hidden);
        assert_eq!(shown(plan.elements())?, 24 * token_count);
        assert_eq!(shown(plan.bytes())?, 96 * token_count);
    }
    Ok(())
}

#[test]
fn main_model_plan_binds_terminal_roles_and_only_main_blocks() -> Result<(), String> {
    let plan = shown(plan_of(&artifact(CONTEXT, 0, 0.5)?, CONTEXT, 1))?;
    let auxiliary = shown(plan_of(&artifact(CONTEXT, 1, 0.25)?, CONTEXT, 1))?;
    assert_eq!(plan.embedding.name, TOKEN_EMBEDDING);
    assert_eq!(plan.output.name, OUTPUT);
    assert_ne!(
        plan.embedding.name, plan.output.name,
        "native main model must retain its verified distinct output head"
    );
    assert_eq!(plan.output_norm.name, OUTPUT_NORM);
    assert_eq!(plan.layers.len(), plan.layout.main_blocks);
    assert_eq!(plan.layers.len(), 4, "terminal NextN must be excluded");
    assert!(matches!(&plan.layers[0], NativeBlockExtents::Recurrent { .. }));
    assert!(matches!(&plan.layers[1], NativeBlockExtents::Recurrent { .. }));
    assert!(matches!(&plan.layers[2], NativeBlockExtents::Recurrent { .. }));
    assert!(matches!(&plan.layers[3], NativeBlockExtents::Full { .. }));
    assert!(plan.blocks.full_workspace.is_some());
    assert!(plan.blocks.recurrent_workspace.is_some());
    assert!(plan.kv.is_some());
    let expected = ModelDeviceByteDemand {
        weights: 28_492,
        full_workspace: 17_432,
        recurrent_workspace: 536,
        finish_workspace: 96,
        hidden_rows: 24,
        final_normalized: 12,
        logits: 20,
        mrope_controls: 512,
        key_values: 32_768,
        page_table: 4,
        recurrent_history_active: 192,
        recurrent_history_staged: 192,
        recurrent_state_active: 192,
        recurrent_state_staged: 192,
        numerical_status: STATUS_BYTES,
    };
    assert_eq!(
        plan.bytes, expected,
        "canonical main-model demand must use shared workspaces and all staged state"
    );
    assert_eq!(
        shown(plan.bytes.total())?,
        80_664 + STATUS_BYTES,
        "hand-derived canonical model-device allocation"
    );
    assert_eq!(
        auxiliary.bytes, plan.bytes,
        "a structurally valid terminal NextN block must not reserve main-model bytes"
    );
    assert_eq!(auxiliary.layers.len(), plan.layers.len());
    Ok(())
}

#[test]
fn terminal_nextn_values_do_not_change_main_model_demand() -> Result<(), String> {
    let baseline = shown(plan_of(&artifact(CONTEXT, 0, 0.5)?, CONTEXT, 1))?;
    let first = shown(plan_of(&artifact(CONTEXT, 1, 0.25)?, CONTEXT, 1))?;
    let second = shown(plan_of(&artifact(CONTEXT, 1, -0.75)?, CONTEXT, 1))?;
    assert_eq!(first.bytes, baseline.bytes);
    assert_eq!(first.bytes, second.bytes);
    assert_eq!(
        shown(first.bytes.total())?,
        shown(second.bytes.total())?,
        "terminal NextN payload changes must not allocate native main-model bytes"
    );
    assert_eq!(first.layers.len(), baseline.layers.len());
    assert_eq!(second.layers.len(), baseline.layers.len());
    Ok(())
}

#[test]
fn main_model_plan_refuses_zero_context_before_any_device_allocation() -> Result<(), String> {
    assert!(
        plan_of(&artifact(CONTEXT, 0, 0.5)?, 0, 1).is_err(),
        "the model plan must refuse an empty caller context before device allocation"
    );
    Ok(())
}

#[test]
fn prefill_capacity_scales_only_transient_rows_controls_and_workspaces() -> Result<(), String> {
    const CAPACITY: usize = 3;
    let artifact = artifact(CONTEXT, 0, 0.5)?;
    let token_plan = shown(plan_of(&artifact, CONTEXT, 1))?;
    let chunk_plan = shown(plan_of(&artifact, CONTEXT, CAPACITY))?;
    assert_eq!(token_plan.max_chunk_tokens, 1);
    assert_eq!(chunk_plan.max_chunk_tokens, CAPACITY);
    let hidden = chunk_plan.layout.hidden;
    assert_eq!(shown(hidden_row_elements(hidden, chunk_plan.max_chunk_tokens))?, 9);
    let (token, chunk) = (token_plan.bytes, chunk_plan.bytes);
    assert_eq!(chunk.weights, token.weights);
    assert_eq!(chunk.key_values, token.key_values);
    assert_eq!(chunk.page_table, token.page_table);
    assert_eq!(chunk.recurrent_history_active, token.recurrent_history_active);
    assert_eq!(chunk.recurrent_history_staged, token.recurrent_history_staged);
    assert_eq!(chunk.recurrent_state_active, token.recurrent_state_active);
    assert_eq!(chunk.recurrent_state_staged, token.recurrent_state_staged);
    assert_eq!(chunk.final_normalized, token.final_normalized);
    assert_eq!(chunk.logits, token.logits);
    assert_eq!(chunk.full_workspace, token.full_workspace * CAPACITY);
    assert_eq!(chunk.recurrent_workspace, token.recurrent_workspace * CAPACITY);
    assert_eq!(chunk.finish_workspace, token.finish_workspace * CAPACITY);
    assert_eq!(chunk.hidden_rows, token.hidden_rows * CAPACITY);
    let controls = |plan: &DeviceModelPlan| {
        plan.blocks
            .full_workspace
            .map(|workspace| workspace.coefficient_elements)
            .ok_or("canonical model must retain full-attention workspace")
    };
    let token_controls = controls(&token_plan)?;
    let chunk_controls = controls(&chunk_plan)?;
    assert_eq!(chunk_controls, token_controls * CAPACITY);
    assert_eq!(
        chunk.mrope_controls,
        shown(elements_bytes(chunk_controls, 4, "native mRoPE controls"))?,
        "mRoPE byte demand must derive directly from its capacity workspace owner"
    );
    assert_eq!(chunk.mrope_controls, token.mrope_controls * CAPACITY);
    let trunk = shown(RecurrentWorkspacePlan::from_operations(canonical_operations(CAPACITY)))?;
    assert_eq!(trunk.elements, 354);
    Ok(())
}

fn full_block(
    artifact: &VerifiedArtifact,
    block: usize,
    context: usize,
    backing_elements: usize,
) -> Result<DeviceFullAttentionPlan, Error> {
    let profile = Qwen35StructuralProfile::try_from_observed(artifact.observation())?;
    let rows = row_lengths();
    let kernels = BlockKernels {
        rows: &rows,
        kv: NativeKvExtents { backing_elements, page_table_entries: 1 },
        numerical_status: STATUS_BYTES,
    };
    DeviceFullAttentionPlan::from_weights(&profile, artifact, block, context, kernels)
}

#[test]
fn verified_full_block_plan_accepts_each_explicit_native_page_size() -> Result<(), String> {
    let artifact = artifact(CONTEXT, 0, 0.5)?;
    for (backing_elements, key_values, base_total) in
        [(4_096, 32_768, 76_640), (8_192, 65_536, 109_408), (16_384, 131_072, 174_944)]
    {
        let plan = shown(full_block(&artifact, 3, 4, backing_elements))?;
        assert_eq!(
            plan.bytes.weights, 25_804,
            "four attention and three shared-finish matrices plus four norms"
        );
        assert_eq!(
            plan.bytes.scratch, 17_528,
            "eleven attention and six shared-finish workspace buffers"
        );
        assert_eq!(plan.bytes.input, 12, "one hidden f32 input row");
        assert_eq!(plan.bytes.output, 12, "one hidden f32 output row");
        assert_eq!(plan.bytes.controls, 512, "128 rotary f32 controls");
        assert_eq!(plan.bytes.table, 4, "four-token context uses one table entry");
        assert_eq!(plan.bytes.key_values, key_values, "page selector changes only K/V backing");
        assert_eq!(
            plan.bytes.numerical_status, STATUS_BYTES,
            "one session-owned sticky numerical status must be accounted exactly once"
        );
        assert_eq!(
            shown(plan.bytes.total())?,
            base_total + STATUS_BYTES,
            "hand-derived native byte total"
        );
        let names: Vec<&str> = plan.matrices.iter().map(|weight| weight.name.as_str()).collect();
        assert_eq!(
            names,
            vec![
                "blk.3.attn_q.weight",
                "blk.3.attn_k.weight",
                "blk.3.attn_v.weight",
                "blk.3.attn_output.weight",
                "blk.3.ffn_gate.weight",
                "blk.3.ffn_up.weight",
                "blk.3.ffn_down.weight",
            ]
        );
        let serialized: Vec<usize> =
            plan.matrices.iter().map(|weight| weight.serialized_bytes).collect();
        assert_eq!(serialized, vec![12_288, 3_072, 3_072, 6_144, 60, 60, 60]);
    }
    Ok(())
}

#[test]
fn verified_plan_refuses_a_recurrent_main_block() -> Result<(), String> {
    let artifact = artifact(CONTEXT, 0, 0.5)?;
    assert!(
        full_block(&artifact, 0, 4, 4_096).is_err(),
        "a recurrent main block cannot be presented as native full attention"
    );
    assert!(
        full_block(&artifact, 4, 4, 4_096).is_err(),
        "a nonexistent block cannot form a native plan"
    );
    assert!(full_block(&artifact, 3, 0, 4_096).is_err(), "zero context must be refused");
    assert!(
        full_block(&artifact, 3, 5, 4_096).is_err(),
        "context beyond verified metadata must be refused"
    );
    assert!(matches!(
        full_block(&artifact, 0, 4, 4_096),
        Err(Error::NativeSessionState {
            rule: "native plan requires an admitted full-attention main block"
        })
    ));
    Ok(())
}

#[test]
fn a_native_plan_names_the_tensor_that_it_cannot_bind() -> Result<(), String> {
    let whole = artifact(CONTEXT, 0, 0.5)?;
    let profile = shown(Qwen35StructuralProfile::try_from_observed(whole.observation()))?;
    let rows = row_lengths();
    for name in
        ["output.weight", "blk.0.ssm_alpha.weight", "blk.2.ffn_up.weight", "blk.3.attn_k.weight"]
    {
        let broken = artifact_without(CONTEXT, 0, 0.5, name)?;
        let refused = DeviceModelPlan::from_weights_prefill(
            &profile,
            &broken,
            CONTEXT,
            1,
            kernels(&rows, CONTEXT, 1),
        );
        assert!(matches!(
            refused,
            Err(Error::PayloadTensor { name: ref missing }) if missing == name
        ));
    }
    let narrow = &rows[1..];
    assert!(matches!(
        DeviceModelPlan::from_weights_prefill(
            &profile,
            &whole,
            CONTEXT,
            1,
            kernels(narrow, CONTEXT, 1),
        ),
        Err(Error::ProjectionLayout { ref name }) if name == TOKEN_EMBEDDING
    ));
    let mut short = kernels(&rows, CONTEXT, 1);
    short.recurrent.convolution_weights = 31;
    assert!(matches!(
        DeviceModelPlan::from_weights_prefill(&profile, &whole, CONTEXT, 1, short),
        Err(Error::ExecutionAllocationPlan { planned: 31, derived: 32, .. })
    ));
    Ok(())
}

#[test]
fn full_block_extents_refuse_overflow() -> Result<(), String> {
    let layout = layout(CONTEXT)?;
    assert_eq!(shown(scratch_elements(layout))?, 4_382);
    assert_eq!(control_elements(layout), 128);
    assert_eq!(shown(norm_bytes(layout))?, 1_048);
    let wide = Layout { query_width: usize::MAX / 4, ..layout };
    assert!(matches!(
        scratch_elements(wide),
        Err(Error::ArithmeticOverflow { context: "native query scratch" })
    ));
    assert!(matches!(
        FullWorkspaceExtents::from_rows(wide, 1),
        Err(Error::ArithmeticOverflow { context: "native query scratch" })
    ));
    let heavy = ProjectionWeightBytes { key: usize::MAX, ..matrices() };
    let kv = NativeKvExtents { backing_elements: 8, page_table_entries: 1 };
    assert!(matches!(
        DeviceByteDemand::from_block(layout, heavy, kv, 0),
        Err(Error::ArithmeticOverflow { context: "native serialized projection bytes" })
    ));
    let vast = NativeKvExtents { backing_elements: usize::MAX, page_table_entries: 1 };
    assert!(matches!(
        DeviceByteDemand::from_block(layout, matrices(), vast, 0),
        Err(Error::ArithmeticOverflow { context: "native separate K/V backing" })
    ));
    Ok(())
}

#[test]
fn prefill_capacity_refuses_zero_or_context_excess_before_device_allocation() -> Result<(), String>
{
    let artifact = artifact(CONTEXT, 0, 0.5)?;
    assert!(plan_of(&artifact, CONTEXT, 0).is_err());
    assert!(plan_of(&artifact, CONTEXT, CONTEXT + 1).is_err());
    assert!(plan_of(&artifact, CONTEXT, CONTEXT).is_ok());
    Ok(())
}

#[test]
fn session_plan_reuses_resident_binding_at_exact_smaller_context() -> Result<(), String> {
    let resident = device_plan(16, 1)?;
    let session = shown(derive_session_plan(&resident, device_plan(4, 1)?))?;
    assert_eq!(session.layout.max_context(), 4);
    assert_eq!(session.layers.len(), resident.layers.len());
    assert!(
        session.bytes.key_values < resident.bytes.key_values,
        "a smaller exact session context must allocate its own smaller K/V extent"
    );
    assert!(
        ModelChunkPlan::from_model(&session, 4, &[0]).is_err(),
        "the per-use plan cannot dispatch beyond its exact requested context"
    );
    let mut beyond = device_plan(16, 1)?;
    beyond.layout.max_context = 17;
    assert!(
        derive_session_plan(&resident, beyond).is_err(),
        "a session plan cannot exceed the resident model's immutable ceiling"
    );
    let mut rebound = device_plan(4, 1)?;
    rebound.layers[0] = rebound.layers[3];
    assert!(matches!(
        derive_session_plan(&resident, rebound),
        Err(Error::NativeSessionState { .. })
    ));
    Ok(())
}

#[test]
fn model_chunk_plan_refuses_any_out_of_vocabulary_embedding_row_before_effects(
) -> Result<(), String> {
    let plan = device_plan(16, 3)?;
    let invalid = plan.layout.vocabulary as u32;
    assert!(ModelChunkPlan::from_model(&plan, 0, &[0, 1, invalid]).is_err());
    let retry = shown(ModelChunkPlan::from_model(&plan, 0, &[0, 1]))?;
    assert_eq!(retry.position, 0);
    Ok(())
}

#[test]
fn model_chunk_plan_refuses_empty_over_capacity_and_context_overflow_action_free(
) -> Result<(), String> {
    let plan = device_plan(16, 3)?;
    assert!(ModelChunkPlan::from_model(&plan, 0, &[]).is_err());
    assert!(ModelChunkPlan::from_model(&plan, 0, &[0; 4]).is_err());
    assert!(ModelChunkPlan::from_model(&plan, 15, &[0, 0]).is_err());
    Ok(())
}

#[test]
fn model_chunk_plan_keeps_one_position_and_derives_page_crossing_geometry() -> Result<(), String> {
    let plan = device_plan(16, 3)?;
    let chunk = shown(ModelChunkPlan::from_model(&plan, 7, &[0, 1, 2]))?;
    let attention = chunk.attention.ok_or("canonical model needs paged attention")?;
    assert_eq!(chunk.position, 7);
    assert_eq!(chunk.next_position, 10);
    assert_eq!(chunk.token_count, 3);
    assert_eq!(chunk.rows.len(), 3);
    assert_eq!(chunk.rows, vec![0, 1, 2]);
    assert_eq!(attention.tokens, 3);
    assert_eq!(attention.visible_tokens, 10);
    let turned = shown(ModelChunkPlan::from_model(&plan, 7, &[2, 1, 0]))?;
    assert_eq!(turned.rows, vec![2, 1, 0], "rows keep the chronological order of their tokens");
    Ok(())
}

fn operations() -> RecurrentOperationPlans {
    RecurrentOperationPlans {
        input_norm: 7,
        convolution_output: 14,
        recurrence_query_and_key: 6,
        recurrence_scalars: 2,
        recurrence_output: 8,
        convolution_silu: 14,
        qk_l2_source: 3,
        qk_l2_output: 6,
        scalar_value_heads: 2,
        output_norm: 8,
        output_silu_product: 8,
    }
}

#[test]
fn recurrent_workspace_keeps_unequal_key_and_value_widths_distinct() -> Result<(), String> {
    let workspace = shown(RecurrentWorkspacePlan::from_operations(operations()))?;
    assert_eq!(workspace.tiled_query, 6);
    assert_eq!(workspace.recurrence_output, 8);
    assert_eq!(workspace.value_tail_offset + workspace.value_tail_elements, 14);
    assert_eq!(workspace.elements, 108);
    Ok(())
}

#[test]
fn recurrent_operations_must_share_one_layout() {
    let unequal = RecurrentOperationPlans { scalar_value_heads: 3, ..operations() };
    assert!(matches!(
        RecurrentWorkspacePlan::from_operations(unequal),
        Err(Error::NativeSessionState { .. })
    ));
    let tail = RecurrentOperationPlans { convolution_silu: 15, ..operations() };
    assert!(matches!(
        RecurrentWorkspacePlan::from_operations(tail),
        Err(Error::NativeSessionState { .. })
    ));
}

#[test]
fn a_model_without_blocks_has_no_demand() -> Result<(), String> {
    let plans = shown(ModelBlockPlans::from_blocks(132, &[]))?;
    let extents = ModelExtents {
        hidden: 3,
        vocabulary: 5,
        final_normalized: 3,
        kv: None,
        numerical_status: STATUS_BYTES,
    };
    assert!(matches!(
        ModelDeviceByteDemand::from_model(extents, 1, &plans),
        Err(Error::NativeSessionState { .. })
    ));
    assert!(verify_vocabulary_matrix(4, 3, layout(CONTEXT)?, "rows").is_err());
    Ok(())
}

#[test]
fn teardown_keeps_what_it_cannot_account_for() {
    let pending = ModelSessionTeardown {
        admission: TeardownAdmission::Releasing(InventoryRelease::Pending),
        creation_failure: false,
    };
    assert!(pending.may_retry());
    assert!(!pending.released());
    let released = pending.proceed(InventoryRelease::Released);
    assert!(released.released());
    assert_eq!(released.state(), Qwen35NativeExecutionSessionTeardownState::Released);
    let again = released.proceed(InventoryRelease::Pending);
    assert!(again.released());
    let failed = ModelSessionTeardown { creation_failure: true, ..pending };
    assert_eq!(failed.state(), Qwen35NativeExecutionSessionTeardownState::Quarantined);
    let settled = failed.proceed(InventoryRelease::Released);
    assert_eq!(settled.state(), Qwen35NativeExecutionSessionTeardownState::Quarantined);
    assert!(!settled.released());
}

#[derive(Debug)]
struct Bundle;

impl CompletionResource for Bundle {
    type Error = ();

    fn synchronize(&mut self) -> Result<(), ()> {
        Ok(())
    }

    fn validate_after_synchronization(&mut self) -> Result<(), ()> {
        Ok(())
    }
}

fn native_session(
    resident: u64,
    position: usize,
) -> Result<Qwen35NativeExecutionSession<Bundle>, String> {
    Ok(Qwen35NativeExecutionSession {
        owner: ResourceOwner::new(Bundle),
        resident,
        plan: device_plan(16, 3)?,
        position,
    })
}

#[test]
fn a_native_batch_packs_and_counts_its_sessions() -> Result<(), String> {
    let mut sessions = vec![native_session(1, 7)?, native_session(1, 0)?];
    let one = demand(16, 3)?;
    let plan = shown(Qwen35NativeExecutionSession::plan_batch(&mut sessions, &[&[0, 1, 2], &[3]]))?;
    let packed = plan.packed_prefill_plan();
    assert_eq!(packed.sequence_count(), 2);
    assert_eq!(packed.committed_offset(0), Some(7));
    assert_eq!(packed.sequence_length(1), Some(1));
    assert_eq!(packed.total_tokens(), 4);
    assert_eq!(plan.admission.chunks[0].rows, vec![0, 1, 2]);
    assert_eq!(plan.admission.chunks[1].rows, vec![3]);
    let receipt = plan.device_demand();
    assert_eq!(receipt.resident, one.weights);
    assert_eq!(receipt.steps, 2 * one.mrope_controls);
    assert_eq!(receipt.outputs, 2 * one.logits);
    assert_eq!(receipt.total, 2 * shown(one.total())? - one.weights);
    assert_eq!(
        receipt.total,
        receipt.resident + receipt.sessions + receipt.steps + receipt.outputs
    );
    Ok(())
}

#[test]
fn a_native_batch_refuses_before_any_effect() -> Result<(), String> {
    let mut none = Vec::<Qwen35NativeExecutionSession<Bundle>>::new();
    let unpaired_rule = "native model batch requires equal nonempty session and token inputs";
    assert!(matches!(
        Qwen35NativeExecutionSession::plan_batch(&mut none, &[]),
        Err(Error::NativeSessionState { rule }) if rule == unpaired_rule
    ));
    let mut unpaired = vec![native_session(1, 0)?];
    assert!(matches!(
        Qwen35NativeExecutionSession::plan_batch(&mut unpaired, &[&[0], &[0]]),
        Err(Error::NativeSessionState { rule }) if rule == unpaired_rule
    ));
    let mut strangers = vec![native_session(1, 0)?, native_session(2, 0)?];
    assert!(Qwen35NativeExecutionSession::plan_batch(&mut strangers, &[&[0], &[0]]).is_err());
    let mut busy = vec![native_session(1, 0)?];
    busy[0].owner.state = ResourceState::PoisonedIdle;
    assert!(matches!(
        Qwen35NativeExecutionSession::plan_batch(&mut busy, &[&[0]]),
        Err(Error::NativeSessionState { .. })
    ));
    let mut full = vec![native_session(1, 14)?];
    assert!(Qwen35NativeExecutionSession::plan_batch(&mut full, &[&[0, 1, 2]]).is_err());
    assert_eq!(full[0].position, 14);
    assert_eq!(full[0].state(), Qwen35NativeSessionState::Ready);
    Ok(())
}

#[test]
fn a_native_batch_publishes_every_session_together() -> Result<(), String> {
    let mut sessions = vec![native_session(1, 7)?, native_session(1, 0)?];
    let plan = shown(Qwen35NativeExecutionSession::plan_batch(&mut sessions, &[&[0, 1, 2], &[3]]))?;
    let mut run = BatchRun::begin(2).unwrap();
    let mut order = Vec::new();
    while run.next_action() != BatchAction::Published {
        order.push(run.next_action());
        run = run.succeed();
    }
    assert_eq!(
        order,
        vec![
            BatchAction::Prepare { session: 0 },
            BatchAction::Submit { session: 0 },
            BatchAction::Prepare { session: 1 },
            BatchAction::Submit { session: 1 },
            BatchAction::Synchronize { session: 0 },
            BatchAction::Validate { session: 0 },
            BatchAction::Synchronize { session: 1 },
            BatchAction::Validate { session: 1 },
            BatchAction::TakeLogits { session: 0 },
            BatchAction::TakeLogits { session: 1 },
            BatchAction::PrepareCache { session: 0 },
            BatchAction::PrepareCache { session: 1 },
            BatchAction::Publish,
        ]
    );
    assert!(matches!(plan.execute(run, Ok(vec![1, 2])), Ok(logits) if logits == vec![1, 2]));
    let unfinished = BatchRun::begin(2).unwrap();
    let plan = shown(Qwen35NativeExecutionSession::plan_batch(&mut sessions, &[&[0], &[0]]))?;
    assert!(matches!(
        plan.execute(unfinished, Ok(vec![1, 2])),
        Err(Error::NativeSessionState { .. })
    ));
    assert_eq!(sessions[0].position, 10);
    assert_eq!(sessions[1].position, 1);
    assert_eq!(sessions[0].state(), Qwen35NativeSessionState::Ready);
    Ok(())
}

#[test]
fn a_late_native_failure_poisons_every_submitted_session() -> Result<(), String> {
    let mut sessions = vec![native_session(1, 7)?, native_session(1, 0)?];
    let plan = shown(Qwen35NativeExecutionSession::plan_batch(&mut sessions, &[&[0], &[3]]))?;
    let mut run = BatchRun::begin(2).unwrap();
    while run.next_action() != (BatchAction::Validate { session: 1 }) {
        run = run.succeed();
    }
    run = run.fail(false);
    assert_eq!(run.next_action(), BatchAction::Failed);
    let failure = Error::NativeSessionState { rule: "invalid row" };
    assert!(plan.execute::<u32>(run, Err(failure)).is_err());
    for (session, position) in sessions.iter().zip([7, 0]) {
        assert_eq!(session.position, position);
        assert_eq!(session.owner.state, ResourceState::PoisonedIdle);
    }
    Ok(())
}

#[test]
fn a_failed_preparation_leaves_unsubmitted_sessions_ready() {
    let mut run = BatchRun::begin(3).unwrap();
    while run.next_action() != (BatchAction::Prepare { session: 1 }) {
        run = run.succeed();
    }
    run = run.fail(false);
    assert_eq!(run.next_action(), BatchAction::Settle { session: 0 });
    run = run.settle(false);
    assert_eq!(run.next_action(), BatchAction::Failed);
    assert_eq!(run.final_state(0), ResourceState::PoisonedUncertain);
    assert_eq!(run.final_state(1), ResourceState::Ready);
    assert_eq!(run.final_state(2), ResourceState::Ready);
    let torn = BatchRun::begin(1).unwrap().fail(true);
    assert_eq!(torn.final_state(0), ResourceState::PoisonedIdle);
}
