use decoders::allocation::{
    allocate, execution_room, projection_room, qwen3_room, recurrent_room, reserve,
};
use decoders::error::RowFault;
use decoders::gguf::{
    GgmlType, MetaArray, MetaValue, MetaValueType, Metadata, ObservedArtifact, TensorDescriptor,
    VerifiedArtifact,
};
use decoders::matrix::{CheckedMatrix, MatrixHeader};
use decoders::qwen35::{
    Dimensions, Qwen35RecurrentLayout, ARCHITECTURE_KEY, BLOCK_COUNT_KEY, EMBEDDING_LENGTH_KEY,
    FEED_FORWARD_LENGTH_KEY,
    FULL_ATTENTION_INTERVAL_KEY, HEAD_COUNT_KEY, KEY_LENGTH_KEY, KEY_VALUE_HEAD_COUNT_KEY,
    LAYERNORM_RMS_EPSILON_KEY, NEXTN_PREDICT_LAYERS_KEY, RECURRENT_LAYERS_KEY,
    SSM_CONV_KERNEL_KEY, SSM_GROUP_COUNT_KEY, SSM_INNER_SIZE_KEY, SSM_STATE_SIZE_KEY,
    SSM_TIME_STEP_RANK_KEY, TOKENS_KEY, VALUE_LENGTH_KEY,
};
use decoders::qwen35_attention::{AttentionPass, AttentionStage, FinishPass, FinishStage};
use decoders::qwen35_execution::{
    ensure_execution_plan, read_f32, split_query_gate, Layout, PagedDecodePlan,
    CONTEXT_LENGTH_KEY, OUTPUT, OUTPUT_NORM, ROPE_LEGACY_LINEAR_SCALE_KEY,
    ROPE_SCALING_ATTENTION_FACTOR_KEY, ROPE_SCALING_FACTOR_KEY, ROPE_SCALING_TYPE_KEY,
    ROPE_SECTIONS_KEY, TOKEN_EMBEDDING,
};
use decoders::qwen35_inventory::expected_tensors;
use decoders::qwen35_mrope::{RotaryPair, TextMrope};
use decoders::qwen35_recurrent::{
    heads_from_tokens, heads_to_tokens, reserve_f32, retained_elements, tile_key_heads,
    ExecutionLayout, Qwen35RecurrentExecution, RecurrentOutput,
};
use decoders::qwen35_recurrent_pass::{RecurrentPass, RecurrentStage};
use decoders::qwen35_requirements::{KernelExtents, Qwen35RequirementElements};
use decoders::report::{hex_text, report};
use decoders::qwen35_session::{FullAttentionStep, LayerState, StagedExecution, StepAction};
use decoders::{
    Error, Qwen35CpuRequirements, Qwen35Execution, Qwen35ExecutionPlan, Qwen35LogitSelection,
    Qwen35StructuralProfile,
};

const BATCH_CONTEXT: usize = 16;
const BATCH_STEP_TOKENS: usize = 3;
const CANONICAL_HIDDEN: usize = 3;
const CANONICAL_VOCABULARY: usize = 5;
const LATE_FAILURE_TOKEN: u32 = 4;
const ABSOLUTE_TOLERANCE: f64 = 1.0e-3;
const RELATIVE_TOLERANCE: f64 = 1.0e-4;

type Session = Qwen35Execution<Qwen35RecurrentExecution, Pool>;
type Staged = StagedExecution<Qwen35RecurrentExecution, Pool>;

#[derive(Clone, Debug, PartialEq)]
struct Pool {
    layers: Vec<Vec<(Vec<u32>, Vec<u32>)>>,
}

#[derive(Clone, Debug)]
struct Fixture {
    metadata: Vec<(&'static str, Value)>,
    tensors: Vec<(String, Vec<u64>, Vec<f32>)>,
}

#[derive(Clone, Debug)]
enum Value {
    U32(u32),
    F32(f32),
    Text(&'static str),
    Texts(usize),
    I32s(Vec<i32>),
    Bools(Vec<bool>),
}

fn meta_value(value: &Value) -> MetaValue {
    match value {
        Value::U32(value) => MetaValue::U32(*value),
        Value::F32(value) => MetaValue::F32(value.to_bits()),
        Value::Text(value) => MetaValue::String(value.to_string()),
        Value::Texts(count) => MetaValue::Array(MetaArray {
            element_type: MetaValueType::String,
            values: (0..*count).map(|i| MetaValue::String(format!("t{i}"))).collect(),
        }),
        Value::I32s(values) => MetaValue::Array(MetaArray {
            element_type: MetaValueType::I32,
            values: values.iter().map(|value| MetaValue::I32(*value)).collect(),
        }),
        Value::Bools(values) => MetaValue::Array(MetaArray {
            element_type: MetaValueType::Bool,
            values: values.iter().map(|value| MetaValue::Bool(*value)).collect(),
        }),
    }
}

fn table(metadata: &[(&'static str, Value)]) -> Metadata {
    let mut table = Metadata::new();
    for (key, value) in metadata {
        table.insert(key.to_string(), meta_value(value));
    }
    table
}

fn replace(fixture: &mut Fixture, key: &str, value: Value) {
    for entry in &mut fixture.metadata {
        if entry.0 == key {
            entry.1 = value.clone();
        }
    }
}

fn metadata(context: usize, nextn: u32) -> Vec<(&'static str, Value)> {
    vec![
        (ARCHITECTURE_KEY, Value::Text("qwen35")),
        (BLOCK_COUNT_KEY, Value::U32(4 + nextn)),
        (NEXTN_PREDICT_LAYERS_KEY, Value::U32(nextn)),
        (FULL_ATTENTION_INTERVAL_KEY, Value::U32(4)),
        (EMBEDDING_LENGTH_KEY, Value::U32(3)),
        (FEED_FORWARD_LENGTH_KEY, Value::U32(5)),
        (HEAD_COUNT_KEY, Value::U32(4)),
        (KEY_VALUE_HEAD_COUNT_KEY, Value::U32(2)),
        (KEY_LENGTH_KEY, Value::U32(128)),
        (VALUE_LENGTH_KEY, Value::U32(128)),
        (SSM_CONV_KERNEL_KEY, Value::U32(2)),
        (SSM_INNER_SIZE_KEY, Value::U32(8)),
        (SSM_STATE_SIZE_KEY, Value::U32(2)),
        (SSM_TIME_STEP_RANK_KEY, Value::U32(4)),
        (SSM_GROUP_COUNT_KEY, Value::U32(2)),
        (TOKENS_KEY, Value::Texts(CANONICAL_VOCABULARY)),
        (LAYERNORM_RMS_EPSILON_KEY, Value::F32(1.0e-5)),
        (CONTEXT_LENGTH_KEY, Value::U32(context as u32)),
        (ROPE_SECTIONS_KEY, Value::I32s(vec![22, 21, 21, 0])),
    ]
}

fn value_of(name: &str, tensor: usize, index: usize) -> f32 {
    let step = ((index * 37 + tensor * 11) % 17) as f32 / 32.0 - 0.25;
    if name.ends_with("norm.weight") {
        1.0 + step * 0.25
    } else if name.ends_with("ssm_a") {
        -0.5 + step * 0.25
    } else {
        step
    }
}

fn hybrid_fixture(context: usize, nextn: u32) -> Result<Fixture, String> {
    let metadata = metadata(context, nextn);
    let dimensions = shown(Dimensions::from_metadata(&table(&metadata)))?;
    let mut tensors = Vec::new();
    for (index, tensor) in shown(expected_tensors(&dimensions))?.into_iter().enumerate() {
        let count: u64 = tensor.shape.iter().product();
        let values =
            (0..count as usize).map(|i| value_of(&tensor.name, index, i)).collect();
        tensors.push((tensor.name, tensor.shape, values));
    }
    Ok(Fixture { metadata, tensors })
}

fn set_value(fixture: &mut Fixture, name: &str, index: usize, value: f32) {
    for tensor in &mut fixture.tensors {
        if tensor.0 == name {
            tensor.2[index] = value;
        }
    }
}

fn observe(fixture: &Fixture) -> (ObservedArtifact, Vec<Vec<u8>>) {
    let mut digest = [0u8; 32];
    let mut file_len = 0;
    let mut tensors = Vec::new();
    let mut payloads = Vec::new();
    for (name, dims, values) in &fixture.tensors {
        let mut payload = Vec::new();
        for value in values {
            payload.extend_from_slice(&value.to_le_bytes());
        }
        for (i, byte) in payload.iter().enumerate() {
            let slot = (file_len as usize + i) % 32;
            digest[slot] = digest[slot].wrapping_mul(31).wrapping_add(*byte);
        }
        file_len += payload.len() as u64;
        tensors.push(TensorDescriptor {
            name: name.clone(),
            dims: dims.clone(),
            ggml_type: GgmlType::F32,
        });
        payloads.push(payload);
    }
    (ObservedArtifact { metadata: table(&fixture.metadata), tensors, digest, file_len }, payloads)
}

fn verify(fixture: &Fixture) -> Result<VerifiedArtifact, String> {
    let (observation, payloads) = observe(fixture);
    VerifiedArtifact::pair(observation, payloads)
        .ok_or_else(|| "every tensor needs its payload".to_string())
}

fn shown<T>(value: Result<T, Error>) -> Result<T, String> {
    value.map_err(|error| format!("{error:?}"))
}

fn bits(values: &[f32]) -> Vec<u32> {
    values.iter().map(|value| value.to_bits()).collect()
}

fn floats(values: &[u32]) -> Vec<f32> {
    values.iter().map(|value| f32::from_bits(*value)).collect()
}

fn row_floats(bytes: &[u8]) -> Vec<f32> {
    bytes
        .chunks_exact(4)
        .map(|word| f32::from_le_bytes([word[0], word[1], word[2], word[3]]))
        .collect()
}

fn matrix<'artifact>(
    artifact: &'artifact VerifiedArtifact,
    name: &str,
) -> Result<CheckedMatrix<'artifact>, Error> {
    let header = MatrixHeader::from_payload(artifact, name)?;
    header.with_row_bytes(header.input_width.checked_mul(4))
}

fn project(artifact: &VerifiedArtifact, name: &str, input: &[f32]) -> Result<Vec<f32>, Error> {
    let matrix = matrix(artifact, name)?;
    let mut rows = Vec::new();
    for index in 0..matrix.header.output_width {
        let row = row_floats(matrix.row_bytes(index)?);
        let dot: f32 = row.iter().zip(input).map(|(left, right)| left * right).sum();
        rows.push(fault_of(&row, dot.is_finite()).map_or(Ok(dot.to_bits()), Err));
    }
    Ok(floats(&matrix.project(input.len(), &rows)?))
}

fn fault_of(row: &[f32], readable: bool) -> Option<RowFault> {
    match row.iter().position(|value| !value.is_finite()) {
        Some(index) => Some(RowFault::NonFiniteWeight { index }),
        None if readable => None,
        None => Some(RowFault::Unreadable),
    }
}

fn projected(
    artifact: &VerifiedArtifact,
    projection: Option<(String, &[u32])>,
) -> Result<Vec<u32>, Error> {
    match projection {
        Some((name, row)) => Ok(bits(&project(artifact, &name, &floats(row))?)),
        None => unreachable!("a projection stage names its matrix"),
    }
}

fn rms_norm(values: &[f32], weight: &[f32], epsilon: f32) -> Vec<f32> {
    let mut output = Vec::new();
    for row in values.chunks_exact(weight.len()) {
        let mean = row.iter().map(|value| value * value).sum::<f32>() / weight.len() as f32;
        let scale = (mean + epsilon).sqrt().recip();
        output.extend(row.iter().zip(weight).map(|(value, weight)| value * scale * weight));
    }
    output
}

fn sigmoid(value: f32) -> f32 {
    1.0 / (1.0 + (-value).exp())
}

fn silu(value: f32) -> f32 {
    value * sigmoid(value)
}

fn softplus(value: f32) -> f32 {
    value.max(0.0) + (-value.abs()).exp().ln_1p()
}

fn unit_heads(values: &[f32], width: usize, epsilon: f32) -> Vec<f32> {
    let mut output = Vec::new();
    for head in values.chunks_exact(width) {
        let length = head.iter().map(|value| value * value).sum::<f32>().sqrt().max(epsilon);
        output.extend(head.iter().map(|value| value / length));
    }
    output
}

fn convolve(
    channels: &[f32],
    kernel: &[f32],
    history: &[f32],
    layout: ExecutionLayout,
) -> (Vec<f32>, Vec<f32>) {
    let width = layout.conv_width;
    let mut rows = history.to_vec();
    rows.extend_from_slice(channels);
    let tokens = channels.len() / width;
    let mut output = Vec::new();
    for token in 0..tokens {
        for channel in 0..width {
            output.push(
                (0..layout.conv_kernel)
                    .map(|tap| {
                        kernel[channel * layout.conv_kernel + tap]
                            * rows[(token + tap) * width + channel]
                    })
                    .sum(),
            );
        }
    }
    (output, rows[tokens * width..].to_vec())
}

fn recur(pass: &RecurrentPass, state: &[f32], layout: ExecutionLayout) -> (Vec<f32>, Vec<f32>) {
    let (query, key, value, beta, decay) = pass.recurrence_inputs();
    let (query, key, value) = (floats(query), floats(key), floats(value));
    let (beta, decay) = (floats(beta), floats(decay));
    let tokens = beta.len() / layout.value_head_count;
    let scale = (layout.key_dim as f32).sqrt().recip();
    let mut state = state.to_vec();
    let mut output = Vec::new();
    for head in 0..layout.value_head_count {
        for token in 0..tokens {
            let place = head * tokens + token;
            let q = &query[place * layout.key_dim..(place + 1) * layout.key_dim];
            let k = &key[place * layout.key_dim..(place + 1) * layout.key_dim];
            let v = &value[place * layout.value_dim..(place + 1) * layout.value_dim];
            for lane in 0..layout.value_dim {
                let at = |i: usize| (head * layout.key_dim + i) * layout.value_dim + lane;
                for i in 0..layout.key_dim {
                    state[at(i)] *= decay[place].exp();
                }
                let read: f32 = (0..layout.key_dim).map(|i| state[at(i)] * k[i]).sum();
                let delta = (v[lane] - read) * beta[place];
                for i in 0..layout.key_dim {
                    state[at(i)] += k[i] * delta;
                }
                output.push((0..layout.key_dim).map(|i| state[at(i)] * q[i]).sum::<f32>() * scale);
            }
        }
    }
    (output, state)
}

fn recurrent_block(
    artifact: &VerifiedArtifact,
    execution: &mut Qwen35RecurrentExecution,
    hidden: &[f32],
) -> Result<Vec<f32>, Error> {
    let computed = recurrent_pass(artifact, execution, hidden);
    Ok(floats(&execution.step(&bits(hidden), computed)?))
}

fn recurrent_pass(
    artifact: &VerifiedArtifact,
    execution: &Qwen35RecurrentExecution,
    hidden: &[f32],
) -> Result<decoders::qwen35_recurrent::RecurrentOutput, Error> {
    let layout = execution.layout;
    let epsilon = f32::from_bits(layout.epsilon);
    let mut pass = RecurrentPass::begin(execution, &bits(hidden))?;
    assert!(pass.projection().is_none());
    let normalized = rms_norm(hidden, &floats(&execution.attention_norm), epsilon);
    pass = pass.normalize(bits(&normalized))?;
    let qkv = projected(artifact, pass.projection())?;
    pass = pass.project_channels(qkv)?;
    let z = projected(artifact, pass.projection())?;
    pass = pass.project_gating(z)?;
    let alpha = projected(artifact, pass.projection())?;
    pass = pass.project_decay(alpha)?;
    let beta = projected(artifact, pass.projection())?;
    pass = pass.project_strength(beta)?;
    let alpha = floats(pass.decay_inputs());
    let beta = floats(pass.strengths());
    let strengths: Vec<f32> = beta.iter().map(|value| sigmoid(*value)).collect();
    pass = pass.squash(&bits(&strengths))?;
    let inputs: Vec<f32> =
        alpha.iter().zip(floats(&execution.ssm_dt)).map(|(alpha, dt)| alpha + dt).collect();
    let decays: Vec<f32> = inputs
        .iter()
        .zip(floats(&execution.ssm_a))
        .map(|(input, a)| a * softplus(*input))
        .collect();
    pass = pass.decay(&bits(&inputs), &bits(&decays))?;
    let (convolved, history) = convolve(
        &floats(pass.convolution_inputs()),
        &floats(&execution.ssm_conv),
        &floats(&execution.convolution_history),
        layout,
    );
    pass = pass.convolve(bits(&convolved), bits(&history));
    let activated: Vec<f32> =
        floats(pass.channels()).iter().map(|value| silu(*value)).collect();
    pass = pass.activate(bits(&activated))?;
    let query = unit_heads(&floats(&pass.query_heads()?), layout.key_dim, epsilon);
    pass = pass.scale_query(bits(&query))?;
    let key = unit_heads(&floats(&pass.key_heads()?), layout.key_dim, epsilon);
    pass = pass.scale_key(bits(&key))?;
    let (heads, state) = recur(&pass, &floats(&execution.recurrent_state), layout);
    pass = pass.recur(&bits(&heads), bits(&state))?;
    let rows = rms_norm(&floats(pass.rows()), &floats(&execution.ssm_norm), epsilon);
    pass = pass.normalize_rows(bits(&rows))?;
    let gated: Vec<f32> =
        rows.iter().zip(floats(pass.gating())).map(|(row, z)| row * silu(z)).collect();
    pass = pass.gate_rows(bits(&gated))?;
    let output = projected(artifact, pass.projection())?;
    pass = pass.project_output(output)?;
    assert_eq!(pass.stage(), RecurrentStage::Finished);
    Ok(pass.into_output())
}

fn rotate(values: &[u32], layout: Layout, position: usize) -> Result<Vec<u32>, Error> {
    let mut values = floats(values);
    let mrope = layout.text_mrope();
    let base = f64::from(f32::from_bits(layout.rope_base));
    for row in values.chunks_exact_mut(layout.key) {
        for RotaryPair { left, right, axis } in mrope.pairs()? {
            let text_position = if axis == 3 { 0.0 } else { position as f64 };
            let angle = text_position / base.powf(2.0 * left as f64 / layout.n_rot as f64);
            let (cosine, sine) = (angle.cos() as f32, angle.sin() as f32);
            let (low, high) = (row[left], row[right]);
            row[left] = low * cosine - high * sine;
            row[right] = low * sine + high * cosine;
        }
    }
    Ok(bits(&values))
}

fn decode_plan(layout: Layout, tokens: usize) -> PagedDecodePlan {
    PagedDecodePlan {
        attention_tokens: tokens,
        heads: layout.heads,
        kv_heads: layout.kv_heads,
        key_width: layout.key,
        workspace_elements: tokens + layout.key,
    }
}

fn attend(query: &[f32], kv: &[(Vec<u32>, Vec<u32>)], head: usize, layout: Layout) -> Vec<f32> {
    let offset = head / (layout.heads / layout.kv_heads) * layout.key;
    let scale = (layout.key as f32).sqrt().recip();
    let scores: Vec<f32> = kv
        .iter()
        .map(|(key, _)| {
            let key = floats(&key[offset..offset + layout.key]);
            query.iter().zip(key).map(|(left, right)| left * right).sum::<f32>() * scale
        })
        .collect();
    let max = scores.iter().copied().fold(f32::NEG_INFINITY, f32::max);
    let exponents: Vec<f32> = scores.iter().map(|score| (score - max).exp()).collect();
    let total: f32 = exponents.iter().sum();
    (0..layout.key)
        .map(|lane| {
            exponents
                .iter()
                .zip(kv)
                .map(|(exponent, (_, value))| {
                    exponent / total * f32::from_bits(value[offset + lane])
                })
                .sum()
        })
        .collect()
}

fn full_attention(
    artifact: &VerifiedArtifact,
    layout: Layout,
    step: FullAttentionStep,
    hidden: &[f32],
    pool: &mut Pool,
) -> Result<Vec<f32>, Error> {
    let epsilon = f32::from_bits(layout.epsilon);
    let mut pass = AttentionPass::begin(layout, step, decode_plan(layout, step.position + 1))?;
    let norm = floats(&pass.read_input_norm(artifact)?);
    let normalized = rms_norm(hidden, &norm, epsilon);
    pass = pass.normalize(bits(&normalized))?;
    let q_gate = projected(artifact, pass.projection())?;
    pass = pass.project_query_gate(q_gate)?;
    let key = projected(artifact, pass.projection())?;
    pass = pass.project_key(key)?;
    let value = projected(artifact, pass.projection())?;
    pass = pass.project_value(value)?;
    let query_norm = floats(&pass.read_query_norm(artifact)?);
    let key_norm = floats(&pass.read_key_norm(artifact)?);
    pass = pass.split()?;
    let query = rms_norm(&floats(pass.query()), &query_norm, epsilon);
    pass = pass.normalize_query(bits(&query))?;
    let key = rms_norm(&floats(pass.appended_row().0), &key_norm, epsilon);
    pass = pass.normalize_key(bits(&key))?;
    let query = rotate(pass.query(), layout, step.position)?;
    pass = pass.rotate_query(query)?;
    let key = rotate(pass.appended_row().0, layout, step.position)?;
    pass = pass.rotate_key(key)?;
    let (key, value) = pass.appended_row();
    let rows = &mut pool.layers[step.full_layer];
    rows.push((key.to_vec(), value.to_vec()));
    pass = pass.append(rows.len())?;
    while let AttentionStage::Attend { head } = pass.stage() {
        let (query, gate) = pass.head();
        let attended = attend(&floats(query), &pool.layers[step.full_layer], head, layout);
        let gated: Vec<f32> =
            attended.iter().zip(floats(gate)).map(|(value, gate)| value * sigmoid(gate)).collect();
        pass = pass.attend(&bits(&gated))?;
    }
    let output = projected(artifact, pass.projection())?;
    pass = pass.project_output(output)?;
    Ok(floats(&pass.into_output()))
}

fn sums(left: &[f32], right: &[f32]) -> Vec<u32> {
    let sums: Vec<f32> = left.iter().zip(right).map(|(left, right)| left + right).collect();
    bits(&sums)
}

fn finish_layer(
    artifact: &VerifiedArtifact,
    layout: Layout,
    block: usize,
    hidden: &[f32],
    attention: &[f32],
) -> Result<Vec<u32>, Error> {
    let epsilon = f32::from_bits(layout.epsilon);
    let mut pass = FinishPass::begin(layout, block, bits(hidden), bits(attention))?;
    let rows = sums(&floats(pass.hidden()), &floats(pass.residual()));
    pass = pass.add_attention(rows)?;
    let norm = floats(&pass.read_norm(artifact)?);
    let normalized = rms_norm(&floats(pass.hidden()), &norm, epsilon);
    pass = pass.normalize(bits(&normalized))?;
    let gate = projected(artifact, pass.projection())?;
    pass = pass.project_gate(gate)?;
    let up = projected(artifact, pass.projection())?;
    pass = pass.project_up(up)?;
    let activated: Vec<f32> = floats(pass.gated().0).iter().map(|value| silu(*value)).collect();
    pass = pass.activate(bits(&activated))?;
    let (gate, up) = pass.gated();
    let fused: Vec<f32> =
        floats(gate).iter().zip(floats(up)).map(|(left, right)| left * right).collect();
    pass = pass.fuse(bits(&fused))?;
    let down = projected(artifact, pass.projection())?;
    pass = pass.project_down(down)?;
    let rows = sums(&floats(pass.hidden()), &floats(pass.residual()));
    pass = pass.add_feed_forward(rows)?;
    assert_eq!(pass.stage(), FinishStage::Finished);
    Ok(pass.into_hidden())
}

fn run(session: &Session, model: &Model<'_>, tokens: &[u32]) -> Result<Staged, Error> {
    let layout = Layout::from_metadata(&model.profile, session.context_bound())?;
    let mut staged = session.stage_copies(tokens, session.pool().clone())?;
    loop {
        staged = match staged.next_action() {
            StepAction::Embed { .. } => {
                let embedding = matrix(model.artifact, TOKEN_EMBEDDING)?;
                let row = staged.embedding_row()?;
                let values = row_floats(embedding.row_bytes(row)?);
                let decoded = fault_of(&values, true).map_or(Ok(bits(&values)), Err);
                staged.complete_embed(embedding.decode_row(row, decoded)?)?
            }
            StepAction::Recurrent { block } => {
                let mut state = match staged.recurrent_state(block) {
                    Some(state) => state.try_clone_for_transaction()?,
                    None => unreachable!("a recurrent block has a recurrent state"),
                };
                let hidden = floats(staged.hidden());
                let attention = recurrent_block(model.artifact, &mut state, &hidden)?;
                let hidden = finish_layer(model.artifact, layout, block, &hidden, &attention)?;
                staged.complete_recurrent(state, hidden)?
            }
            StepAction::FullAttention(step) => {
                let mut pool = staged.append()?.clone();
                let hidden = floats(staged.hidden());
                let attention =
                    full_attention(model.artifact, layout, step, &hidden, &mut pool)?;
                let hidden =
                    finish_layer(model.artifact, layout, step.block, &hidden, &attention)?;
                staged.complete_full_attention(pool, hidden)?
            }
            StepAction::Head { retain } => {
                let norm = read_f32(
                    model.artifact,
                    OUTPUT_NORM,
                    &[layout.hidden as u64],
                    layout.hidden,
                )?;
                let epsilon = f32::from_bits(layout.epsilon);
                let normalized = rms_norm(&floats(staged.hidden()), &floats(&norm), epsilon);
                if retain {
                    let row = project(model.artifact, OUTPUT, &normalized)?;
                    staged.complete_head(normalized.len(), bits(&row))?
                } else {
                    staged.complete_token(normalized.len())?
                }
            }
            StepAction::Complete => {
                return Ok(staged);
            }
        };
    }
}

fn step(session: &mut Session, model: &Model<'_>, tokens: &[u32]) -> Result<Vec<f32>, Error> {
    let staged = run(session, model, tokens);
    Ok(floats(&session.step(staged)?))
}

struct Model<'artifact> {
    artifact: &'artifact VerifiedArtifact,
    profile: Qwen35StructuralProfile<'artifact>,
}

fn model(artifact: &VerifiedArtifact) -> Result<Model<'_>, String> {
    let profile = shown(Qwen35StructuralProfile::try_from_observed(artifact.observation()))?;
    Ok(Model { artifact, profile })
}

fn extents(layout: Layout) -> KernelExtents {
    KernelExtents {
        recurrent_workspace: 134,
        full_attention_pool: 2 * layout.kv_width * layout.max_context,
        paged_decode: decode_plan(layout, layout.max_context),
    }
}

fn plan(
    model: &Model<'_>,
    context: usize,
    step_tokens: usize,
    selection: Qwen35LogitSelection,
) -> Result<Qwen35ExecutionPlan, Error> {
    let layout = Layout::from_metadata(&model.profile, context)?;
    Qwen35ExecutionPlan::try_from_weights(
        &model.profile,
        context,
        step_tokens,
        selection,
        extents(layout),
    )
}

fn session(
    model: &Model<'_>,
    context: usize,
    step_tokens: usize,
    selection: Qwen35LogitSelection,
) -> Result<Session, String> {
    open(shown(plan(model, context, step_tokens, selection))?, model)
}

fn open(plan: Qwen35ExecutionPlan, model: &Model<'_>) -> Result<Session, String> {
    open_as(1, plan, model)
}

fn open_as(id: u64, plan: Qwen35ExecutionPlan, model: &Model<'_>) -> Result<Session, String> {
    let pool = Pool { layers: vec![Vec::new(); plan.layout().full_layer_count()] };
    let recurrent = model.profile.recurrent_layout();
    shown(plan.hybrid_execution(model.artifact, recurrent, id, Some(pool)))
}

fn state_of(session: &Session) -> String {
    format!("{} {:?} {:?}", session.published_tokens(), session.layers(), session.pool())
}

fn states_of(sessions: &[Session]) -> Vec<String> {
    sessions.iter().map(state_of).collect()
}

struct Oracle {
    tensors: Vec<(String, Vec<f64>)>,
    context: Vec<(Vec<f64>, Vec<f64>)>,
    history: Vec<Vec<f64>>,
    state: Vec<Vec<f64>>,
    position: usize,
}

impl Oracle {
    fn new(fixture: &Fixture) -> Oracle {
        Oracle {
            tensors: fixture
                .tensors
                .iter()
                .map(|(name, _, values)| {
                    (name.clone(), values.iter().map(|value| f64::from(*value)).collect())
                })
                .collect(),
            context: Vec::new(),
            history: vec![vec![0.0; 16]; 3],
            state: vec![vec![0.0; 16]; 3],
            position: 0,
        }
    }

    fn tensor(&self, name: &str) -> &[f64] {
        match self.tensors.iter().find(|tensor| tensor.0 == name) {
            Some(tensor) => &tensor.1,
            None => panic!("no tensor {name}"),
        }
    }

    fn times(&self, name: &str, input: &[f64]) -> Vec<f64> {
        self.tensor(name)
            .chunks_exact(input.len())
            .map(|row| row.iter().zip(input).map(|(left, right)| left * right).sum())
            .collect()
    }

    fn norm(&self, name: &str, input: &[f64]) -> Vec<f64> {
        let weight = self.tensor(name);
        let mut output = Vec::new();
        for row in input.chunks_exact(weight.len()) {
            let mean: f64 = row.iter().map(|value| value * value).sum::<f64>() / row.len() as f64;
            let scale = 1.0 / (mean + f64::from(1.0e-5_f32)).sqrt();
            output.extend(row.iter().zip(weight).map(|(value, weight)| value * scale * weight));
        }
        output
    }

    fn recurrent(&mut self, block: usize, hidden: &[f64]) -> Vec<f64> {
        let name = |role: &str| format!("blk.{block}.{role}");
        let normal = self.norm(&name("attn_norm.weight"), hidden);
        let qkv = self.times(&name("attn_qkv.weight"), &normal);
        let z = self.times(&name("attn_gate.weight"), &normal);
        let alpha = self.times(&name("ssm_alpha.weight"), &normal);
        let beta = self.times(&name("ssm_beta.weight"), &normal);
        let kernel = self.tensor(&name("ssm_conv1d.weight"));
        let mixed: Vec<f64> = (0..16)
            .map(|i| kernel[2 * i] * self.history[block][i] + kernel[2 * i + 1] * qkv[i])
            .map(|value| value / (1.0 + (-value).exp()))
            .collect();
        let unit = |values: &[f64]| -> Vec<f64> {
            let length = values.iter().map(|value| value * value).sum::<f64>().sqrt();
            values.iter().map(|value| value / length.max(f64::from(1.0e-5_f32))).collect()
        };
        let mut rows = Vec::new();
        for head in 0..4 {
            let group = head % 2;
            let query = unit(&mixed[2 * group..2 * group + 2]);
            let key = unit(&mixed[4 + 2 * group..4 + 2 * group + 2]);
            let value = &mixed[8 + 2 * head..8 + 2 * head + 2];
            let input = alpha[head] + self.tensor(&name("ssm_dt.bias"))[head];
            let decay = (self.tensor(&name("ssm_a"))[head] * (1.0 + input.exp()).ln()).exp();
            let strength = 1.0 / (1.0 + (-beta[head]).exp());
            for lane in 0..2 {
                let low = 4 * head + lane;
                let high = 4 * head + 2 + lane;
                let state = &mut self.state[block];
                state[low] *= decay;
                state[high] *= decay;
                let read = state[low] * key[0] + state[high] * key[1];
                let delta = (value[lane] - read) * strength;
                state[low] += key[0] * delta;
                state[high] += key[1] * delta;
                rows.push((state[low] * query[0] + state[high] * query[1]) / 2.0_f64.sqrt());
            }
        }
        self.history[block] = qkv;
        let normal = self.norm(&name("ssm_norm.weight"), &rows);
        let gated: Vec<f64> =
            normal.iter().zip(&z).map(|(row, z)| row * z / (1.0 + (-z).exp())).collect();
        self.times(&name("ssm_out.weight"), &gated)
    }

    fn turn(&self, values: &[f64]) -> Vec<f64> {
        let mut output = values.to_vec();
        for row in output.chunks_exact_mut(128) {
            for pair in 0..64 {
                let angle = self.position as f64 / 10_000.0_f64.powf(pair as f64 / 64.0);
                let (low, high) = (row[pair], row[pair + 64]);
                row[pair] = low * angle.cos() - high * angle.sin();
                row[pair + 64] = low * angle.sin() + high * angle.cos();
            }
        }
        output
    }

    fn attention(&mut self, hidden: &[f64]) -> Vec<f64> {
        let normal = self.norm("blk.3.attn_norm.weight", hidden);
        let q_gate = self.times("blk.3.attn_q.weight", &normal);
        let key = self.times("blk.3.attn_k.weight", &normal);
        let value = self.times("blk.3.attn_v.weight", &normal);
        let key = self.turn(&self.norm("blk.3.attn_k_norm.weight", &key));
        self.context.push((key, value));
        let mut merged = Vec::new();
        for head in 0..4 {
            let query = self.norm("blk.3.attn_q_norm.weight", &q_gate[256 * head..256 * head + 128]);
            let query = self.turn(&query);
            let gate = &q_gate[256 * head + 128..256 * head + 256];
            let offset = head / 2 * 128;
            let weights: Vec<f64> = self
                .context
                .iter()
                .map(|(key, _)| {
                    let dot: f64 =
                        query.iter().zip(&key[offset..]).map(|(left, right)| left * right).sum();
                    (dot / 128.0_f64.sqrt()).exp()
                })
                .collect();
            let total: f64 = weights.iter().sum();
            for lane in 0..128 {
                let attended: f64 = weights
                    .iter()
                    .zip(&self.context)
                    .map(|(weight, (_, value))| weight / total * value[offset + lane])
                    .sum();
                merged.push(attended / (1.0 + (-gate[lane]).exp()));
            }
        }
        self.times("blk.3.attn_output.weight", &merged)
    }

    fn step(&mut self, tokens: &[u32]) -> Vec<f64> {
        let mut logits = Vec::new();
        for token in tokens {
            let row = 3 * *token as usize;
            let mut hidden = self.tensor("token_embd.weight")[row..row + 3].to_vec();
            for block in 0..4 {
                let attention =
                    if block == 3 { self.attention(&hidden) } else { self.recurrent(block, &hidden) };
                for (value, added) in hidden.iter_mut().zip(attention) {
                    *value += added;
                }
                let name = |role: &str| format!("blk.{block}.{role}");
                let normal = self.norm(&name("post_attention_norm.weight"), &hidden);
                let gate = self.times(&name("ffn_gate.weight"), &normal);
                let up = self.times(&name("ffn_up.weight"), &normal);
                let fused: Vec<f64> = gate
                    .iter()
                    .zip(&up)
                    .map(|(gate, up)| gate / (1.0 + (-gate).exp()) * up)
                    .collect();
                let down = self.times(&name("ffn_down.weight"), &fused);
                for (value, added) in hidden.iter_mut().zip(down) {
                    *value += added;
                }
            }
            let normal = self.norm("output_norm.weight", &hidden);
            logits.extend(self.times("output.weight", &normal));
            self.position += 1;
        }
        logits
    }

    fn check_state(&self, session: &Session) -> Result<(), String> {
        assert_eq!(session.published_tokens(), self.position);
        for (block, layer) in session.layers().iter().enumerate() {
            match layer {
                LayerState::Recurrent(state) => {
                    check_close(&floats(&state.convolution_history), &self.history[block])?;
                    check_close(&floats(&state.recurrent_state), &self.state[block])?;
                }
                LayerState::Full(layer) => {
                    assert_eq!((block, *layer), (3, 0));
                }
            }
        }
        let pool = match session.pool() {
            Some(pool) => pool,
            None => panic!("a hybrid session owns a pool"),
        };
        assert_eq!(pool.layers[0].len(), self.context.len());
        for ((key, value), (expected_key, expected_value)) in
            pool.layers[0].iter().zip(&self.context)
        {
            check_close(&floats(key), expected_key)?;
            check_close(&floats(value), expected_value)?;
        }
        Ok(())
    }
}

fn check_close(actual: &[f32], expected: &[f64]) -> Result<(), String> {
    assert_eq!(actual.len(), expected.len());
    for (index, (actual, expected)) in actual.iter().zip(expected).enumerate() {
        let difference = (f64::from(*actual) - expected).abs();
        if difference.is_nan()
            || difference > ABSOLUTE_TOLERANCE + RELATIVE_TOLERANCE * expected.abs()
        {
            return Err(format!("value {index} is {actual}, not {expected}"));
        }
    }
    Ok(())
}

fn advance(
    session: &mut Session,
    oracle: &mut Oracle,
    model: &Model<'_>,
    chunks: &[&[u32]],
) -> Result<(), String> {
    for chunk in chunks {
        let logits = shown(step(session, model, chunk))?;
        let expected = oracle.step(chunk);
        let start = expected.len() - logits.len();
        check_close(&logits, &expected[start..])?;
    }
    Ok(())
}

fn execute(
    sessions: &mut Vec<Session>,
    model: &Model<'_>,
    chunks: &[&[u32]],
) -> Result<Vec<Vec<f32>>, Error> {
    let mut staged = Ok(Vec::new());
    for (session, chunk) in sessions.iter().zip(chunks) {
        staged = match (staged, run(session, model, chunk)) {
            (Ok(mut steps), Ok(step)) => {
                steps.push(step);
                Ok(steps)
            }
            (Err(error), _) | (_, Err(error)) => Err(error),
        };
    }
    let plan = Qwen35Execution::plan_batch(sessions, chunks)?;
    let logits = plan.execute(staged)?;
    Ok(logits.iter().map(|row| floats(row)).collect())
}

fn check_refusal_preserves(sessions: &mut Vec<Session>, chunks: &[&[u32]]) {
    let before = states_of(sessions);
    assert!(Qwen35Execution::plan_batch(sessions, chunks).is_err());
    assert_eq!(states_of(sessions), before);
}

#[test]
fn batch_execution_deinterleaves_unequal_histories_and_continues() -> Result<(), String> {
    let fixture = hybrid_fixture(BATCH_CONTEXT, 0)?;
    let artifact = verify(&fixture)?;
    let model = model(&artifact)?;
    let all = Qwen35LogitSelection::AllTokens;
    let mut first_oracle = Oracle::new(&fixture);
    let mut second_oracle = Oracle::new(&fixture);
    let mut first = session(&model, BATCH_CONTEXT, BATCH_STEP_TOKENS, all)?;
    let mut second = session(&model, BATCH_CONTEXT, BATCH_STEP_TOKENS, all)?;
    advance(&mut first, &mut first_oracle, &model, &[&[0, 1, 2], &[3, 4, 0], &[1]])?;
    advance(&mut second, &mut second_oracle, &model, &[&[2, 3, 4]])?;
    let first_chunk = [2, 3];
    let second_chunk = [0, 1, 2];
    let expected_first = first_oracle.step(&first_chunk);
    let expected_second = second_oracle.step(&second_chunk);
    let mut sessions = vec![first, second];
    let logits =
        shown(execute(&mut sessions, &model, &[first_chunk.as_slice(), second_chunk.as_slice()]))?;
    assert_eq!(logits.len(), 2, "batch results must retain sequence order");
    check_close(&logits[0], &expected_first)?;
    check_close(&logits[1], &expected_second)?;
    first_oracle.check_state(&sessions[0])?;
    second_oracle.check_state(&sessions[1])?;
    advance(&mut sessions[0], &mut first_oracle, &model, &[&[4]])?;
    advance(&mut sessions[1], &mut second_oracle, &model, &[&[3]])?;
    first_oracle.check_state(&sessions[0])?;
    second_oracle.check_state(&sessions[1])
}

#[test]
fn batch_execution_preserves_per_sequence_logit_selection() -> Result<(), String> {
    let fixture = hybrid_fixture(BATCH_CONTEXT, 0)?;
    let artifact = verify(&fixture)?;
    let model = model(&artifact)?;
    let mut all_oracle = Oracle::new(&fixture);
    let mut last_oracle = Oracle::new(&fixture);
    let mut all =
        session(&model, BATCH_CONTEXT, BATCH_STEP_TOKENS, Qwen35LogitSelection::AllTokens)?;
    let mut last =
        session(&model, BATCH_CONTEXT, BATCH_STEP_TOKENS, Qwen35LogitSelection::LastToken)?;
    advance(&mut all, &mut all_oracle, &model, &[&[0, 1]])?;
    advance(&mut last, &mut last_oracle, &model, &[&[3]])?;
    let all_chunk = [2, 3];
    let last_chunk = [4, 0, 1];
    let all_expected = all_oracle.step(&all_chunk);
    let last_expected = last_oracle.step(&last_chunk);
    let last_start = last_expected.len() - CANONICAL_VOCABULARY;
    let mut sessions = vec![all, last];
    let outputs =
        shown(execute(&mut sessions, &model, &[all_chunk.as_slice(), last_chunk.as_slice()]))?;
    assert_eq!(outputs.len(), 2);
    assert_eq!(outputs[0].len(), CANONICAL_VOCABULARY * all_chunk.len());
    assert_eq!(outputs[1].len(), CANONICAL_VOCABULARY);
    check_close(&outputs[0], &all_expected)?;
    check_close(&outputs[1], &last_expected[last_start..])?;
    all_oracle.check_state(&sessions[0])?;
    last_oracle.check_state(&sessions[1])
}

#[test]
fn batch_execution_admits_distinct_owner_context_and_step_bounds() -> Result<(), String> {
    let fixture = hybrid_fixture(BATCH_CONTEXT, 0)?;
    let artifact = verify(&fixture)?;
    let model = model(&artifact)?;
    let mut wider_oracle = Oracle::new(&fixture);
    let mut narrower_oracle = Oracle::new(&fixture);
    let wider =
        session(&model, BATCH_CONTEXT, BATCH_STEP_TOKENS, Qwen35LogitSelection::AllTokens)?;
    let narrower = session(&model, 4, 1, Qwen35LogitSelection::LastToken)?;
    let wider_chunk = [0, 1, 2];
    let narrower_chunk = [3];
    let wider_expected = wider_oracle.step(&wider_chunk);
    let narrower_expected = narrower_oracle.step(&narrower_chunk);
    let mut sessions = vec![wider, narrower];
    let outputs = shown(execute(
        &mut sessions,
        &model,
        &[wider_chunk.as_slice(), narrower_chunk.as_slice()],
    ))?;
    check_close(&outputs[0], &wider_expected)?;
    check_close(&outputs[1], &narrower_expected)?;
    wider_oracle.check_state(&sessions[0])?;
    narrower_oracle.check_state(&sessions[1])
}

#[test]
fn batch_plan_refuses_smaller_owner_context_despite_larger_aggregate_bound() -> Result<(), String> {
    let artifact = verify(&hybrid_fixture(BATCH_CONTEXT, 0)?)?;
    let model = model(&artifact)?;
    let all = Qwen35LogitSelection::AllTokens;
    let wider = session(&model, BATCH_CONTEXT, BATCH_STEP_TOKENS, all)?;
    let mut narrower = session(&model, 2, 2, all)?;
    shown(step(&mut narrower, &model, &[3]))?;
    let mut sessions = vec![wider, narrower];
    check_refusal_preserves(&mut sessions, &[&[0], &[1, 2]]);
    Ok(())
}

#[test]
fn batch_plan_preflight_refusals_leave_every_execution_unchanged() -> Result<(), String> {
    let fixture = hybrid_fixture(BATCH_CONTEXT, 0)?;
    let artifact = verify(&fixture)?;
    let model_a = model(&artifact)?;
    let all = Qwen35LogitSelection::AllTokens;
    let fresh = || session(&model_a, BATCH_CONTEXT, BATCH_STEP_TOKENS, all);
    let mut count = vec![fresh()?, fresh()?];
    check_refusal_preserves(&mut count, &[&[0, 1]]);
    let mut empty = vec![fresh()?];
    check_refusal_preserves(&mut empty, &[&[]]);
    let mut token = vec![fresh()?];
    check_refusal_preserves(&mut token, &[&[u32::MAX]]);
    let mut step_bound = vec![session(&model_a, BATCH_CONTEXT, 2, all)?];
    check_refusal_preserves(&mut step_bound, &[&[0, 1, 2]]);
    let mut context_bound = vec![fresh()?];
    for chunk in [[0, 1, 2], [3, 4, 0], [1, 2, 3], [4, 0, 1], [2, 3, 4]] {
        shown(step(&mut context_bound[0], &model_a, &chunk))?;
    }
    check_refusal_preserves(&mut context_bound, &[&[0, 1]]);
    let mut changed = fixture.clone();
    set_value(&mut changed, OUTPUT, 0, 0.25);
    let changed_artifact = verify(&changed)?;
    let changed_model = model(&changed_artifact)?;
    let mut different = vec![
        fresh()?,
        session(&changed_model, BATCH_CONTEXT, BATCH_STEP_TOKENS, all)?,
    ];
    check_refusal_preserves(&mut different, &[&[0], &[1]]);
    Ok(())
}

#[test]
fn batch_plan_aggregates_identical_artifacts_conservatively() -> Result<(), String> {
    let fixture = hybrid_fixture(BATCH_CONTEXT, 0)?;
    let shared = verify(&fixture)?;
    let separate = verify(&fixture)?;
    let first_model = model(&shared)?;
    let second_model = model(&separate)?;
    let first_plan = shown(plan(
        &first_model,
        BATCH_CONTEXT,
        BATCH_STEP_TOKENS,
        Qwen35LogitSelection::AllTokens,
    ))?;
    let second_plan = shown(plan(
        &second_model,
        BATCH_CONTEXT,
        BATCH_STEP_TOKENS,
        Qwen35LogitSelection::LastToken,
    ))?;
    let first = first_plan.cpu_requirements();
    let second = second_plan.cpu_requirements();
    assert_eq!(first.artifact_digest(), second.artifact_digest());
    let mut sessions = vec![open(first_plan, &first_model)?, open(second_plan, &second_model)?];
    let plan = shown(Qwen35Execution::plan_batch(&mut sessions, &[&[0, 1], &[2]]))?;
    let requirements = plan.cpu_requirements();
    assert_eq!(requirements.artifact_digest, first.artifact_digest());
    assert_eq!(requirements.sequence_count, 2);
    assert_eq!(requirements.total_tokens, 3);
    assert_eq!(requirements.max_context, BATCH_CONTEXT);
    assert_eq!(
        requirements.serialized_backing_upper_bound_bytes,
        first.serialized_backing_bytes() + second.serialized_backing_bytes()
    );
    assert_eq!(requirements.retained_bytes, first.retained_bytes + second.retained_bytes);
    assert_eq!(
        requirements.transaction_copy_bytes,
        first.transaction_copy_bytes + second.transaction_copy_bytes
    );
    assert_eq!(
        requirements.workspace_upper_bound_bytes,
        first.workspace_upper_bound_bytes.max(second.workspace_upper_bound_bytes)
    );
    assert_eq!(
        requirements.returned_logits_bytes,
        first.returned_logits_bytes + second.returned_logits_bytes
    );
    assert_eq!(
        requirements.logical_f32_upper_bound_bytes,
        requirements.retained_bytes
            + requirements.transaction_copy_bytes
            + requirements.workspace_upper_bound_bytes
            + requirements.returned_logits_bytes
    );
    let packed = plan.packed_prefill_plan();
    assert_eq!(packed.sequence_count(), 2);
    assert_eq!(packed.sequence_length(0), Some(2));
    assert_eq!(packed.committed_offset(1), Some(0));
    assert_eq!(packed.committed_offset(2), None);
    Ok(())
}

#[test]
fn dropped_batch_plan_does_not_publish_private_state() -> Result<(), String> {
    let artifact = verify(&hybrid_fixture(BATCH_CONTEXT, 0)?)?;
    let model = model(&artifact)?;
    let all = Qwen35LogitSelection::AllTokens;
    let mut sessions = vec![
        session(&model, BATCH_CONTEXT, BATCH_STEP_TOKENS, all)?,
        session(&model, BATCH_CONTEXT, BATCH_STEP_TOKENS, all)?,
    ];
    shown(step(&mut sessions[0], &model, &[0, 1]))?;
    shown(step(&mut sessions[1], &model, &[2]))?;
    let before = states_of(&sessions);
    let plan = shown(Qwen35Execution::plan_batch(&mut sessions, &[&[2, 3], &[4]]))?;
    drop(plan);
    assert_eq!(states_of(&sessions), before);
    Ok(())
}

#[test]
fn late_second_sequence_refusal_rolls_back_the_whole_batch_and_retries() -> Result<(), String> {
    let pristine = hybrid_fixture(BATCH_CONTEXT, 0)?;
    let mut faulty = pristine.clone();
    let index = LATE_FAILURE_TOKEN as usize * CANONICAL_HIDDEN;
    set_value(&mut faulty, TOKEN_EMBEDDING, index, f32::NAN);
    let artifact = verify(&faulty)?;
    let model = model(&artifact)?;
    let all = Qwen35LogitSelection::AllTokens;
    let mut sessions = vec![
        session(&model, BATCH_CONTEXT, BATCH_STEP_TOKENS, all)?,
        session(&model, BATCH_CONTEXT, BATCH_STEP_TOKENS, all)?,
    ];
    shown(step(&mut sessions[0], &model, &[0, 1, 2]))?;
    shown(step(&mut sessions[1], &model, &[3]))?;
    let before = states_of(&sessions);
    let refused = execute(&mut sessions, &model, &[&[2, 3], &[0, LATE_FAILURE_TOKEN]]);
    assert!(
        matches!(
            refused,
            Err(Error::ProjectionRow {
                ref name,
                row,
                source: RowFault::NonFiniteWeight { index: 0 },
            }) if name == TOKEN_EMBEDDING && row == LATE_FAILURE_TOKEN as usize
        ),
        "the valid token id must fail only when its unique embedding row executes"
    );
    assert_eq!(
        states_of(&sessions),
        before,
        "late second-sequence failure must not publish either staged state"
    );
    let retry = shown(execute(&mut sessions, &model, &[&[2, 3], &[0, 1]]))?;
    let good_artifact = verify(&pristine)?;
    let good_model = self::model(&good_artifact)?;
    let mut control = vec![
        session(&good_model, BATCH_CONTEXT, BATCH_STEP_TOKENS, all)?,
        session(&good_model, BATCH_CONTEXT, BATCH_STEP_TOKENS, all)?,
    ];
    shown(step(&mut control[0], &good_model, &[0, 1, 2]))?;
    shown(step(&mut control[1], &good_model, &[3]))?;
    let expected = shown(execute(&mut control, &good_model, &[&[2, 3], &[0, 1]]))?;
    let logits_bits =
        |logits: &[Vec<f32>]| -> Vec<Vec<u32>> { logits.iter().map(|row| bits(row)).collect() };
    assert_eq!(
        logits_bits(&retry),
        logits_bits(&expected),
        "whole-batch retry must match a pristine control bitwise"
    );
    assert_eq!(
        states_of(&sessions),
        states_of(&control),
        "retry must publish exactly the pristine-control state"
    );
    Ok(())
}

#[test]
fn execution_capacity_refusal_preserves_allocation_source() -> Result<(), String> {
    let error = reserve::<u8>("capacity witness", usize::MAX)
        .err()
        .ok_or("an impossible byte capacity must refuse without attempting allocation")?;
    assert!(matches!(
        &error,
        Error::ExecutionAllocation { target: "capacity witness", length: usize::MAX, .. }
    ));
    let source: &dyn std::error::Error = match &error {
        Error::ExecutionAllocation { source, .. } => source,
        _ => return Err("allocation source was discarded".to_string()),
    };
    assert!(source.is::<std::collections::TryReserveError>());
    Ok(())
}

#[test]
fn every_refused_allocation_keeps_what_the_allocator_answered() -> Result<(), String> {
    let refusal = || Vec::<u8>::new().try_reserve_exact(usize::MAX);
    let answer = refusal().err().ok_or("no room for every byte")?;
    let room = || -> Result<Vec<u8>, std::collections::TryReserveError> {
        refusal()?;
        Ok(Vec::new())
    };
    assert!(matches!(
        execution_room(room(), "rows", 5),
        Err(Error::ExecutionAllocation { target: "rows", length: 5, source }) if source == answer
    ));
    assert!(matches!(
        recurrent_room(room(), "rows", 5),
        Err(Error::RecurrentAllocation { target: "rows", length: 5, source }) if source == answer
    ));
    assert!(matches!(
        qwen3_room(room(), "rows", 5),
        Err(Error::Qwen3Allocation { target: "rows", length: 5, source }) if source == answer
    ));
    assert!(matches!(
        projection_room(room(), &"output.weight".to_string(), 5),
        Err(Error::ProjectionAllocation { ref name, output_width: 5, ref source })
            if name == OUTPUT && *source == answer
    ));
    let granted: Result<Vec<u8>, std::collections::TryReserveError> = Ok(vec![7]);
    assert!(matches!(execution_room(granted, "rows", 5), Ok(values) if values == vec![7]));
    assert!(allocate::<u8>(0).is_ok());
    assert!(allocate::<u32>(usize::MAX).is_err());
    Ok(())
}

#[test]
fn an_oversized_recurrent_reservation_is_refused() -> Result<(), String> {
    assert!(matches!(
        reserve_f32::<u32>("recurrent state", usize::MAX),
        Err(Error::RecurrentAllocation { target: "recurrent state", length: usize::MAX, .. })
    ));
    let none: Vec<u32> = shown(reserve_f32("recurrent state", 0))?;
    assert!(none.is_empty());
    Ok(())
}

#[test]
fn an_admitted_reservation_is_empty_and_has_room() -> Result<(), String> {
    let values: Vec<u32> = shown(reserve("room", 7))?;
    assert!(values.is_empty());
    assert!(values.capacity() >= 7);
    Ok(())
}

#[test]
fn late_projection_refusal_leaves_private_hybrid_state_unchanged() -> Result<(), String> {
    let mut fixture = hybrid_fixture(4, 0)?;
    let mut oracle = Oracle::new(&fixture);
    let all = Qwen35LogitSelection::AllTokens;
    let good_artifact = verify(&fixture)?;
    let good_model = model(&good_artifact)?;
    let mut good = session(&good_model, 4, 4, all)?;
    shown(step(&mut good, &good_model, &[1]))?;
    oracle.step(&[1]);
    oracle.check_state(&good)?;
    set_value(&mut fixture, OUTPUT, 0, f32::NAN);
    let artifact = verify(&fixture)?;
    let model = model(&artifact)?;
    let mut session = session(&model, 4, 4, all)?;
    let before = state_of(&session);
    assert!(matches!(
        step(&mut session, &model, &[1]),
        Err(Error::ProjectionRow {
            ref name,
            row: 0,
            source: RowFault::NonFiniteWeight { index: 0 },
        }) if name == OUTPUT
    ));
    assert_eq!(state_of(&session), before);
    Ok(())
}

#[test]
fn paged_kv_crosses_the_selected_boundary_and_rolls_back_a_committed_tail() -> Result<(), String> {
    let fixture = hybrid_fixture(16, 0)?;
    let tokens = [0, 1, 2, 3, 4, 0, 1, 2, 3, 4, 0, 1, 2, 3, 4, 0];
    let artifact = verify(&fixture)?;
    let model = model(&artifact)?;
    let fresh = || session(&model, 16, 16, Qwen35LogitSelection::AllTokens);
    let mut oracle = Oracle::new(&fixture);
    let expected = oracle.step(&tokens);
    let mut unchunked = fresh()?;
    let actual = shown(step(&mut unchunked, &model, &tokens))?;
    check_close(&actual, &expected)?;
    oracle.check_state(&unchunked)?;
    let mut chunked = fresh()?;
    let mut chunked_logits = shown(step(&mut chunked, &model, &tokens[..7]))?;
    chunked_logits.extend(shown(step(&mut chunked, &model, &tokens[7..8]))?);
    chunked_logits.extend(shown(step(&mut chunked, &model, &tokens[8..]))?);
    assert_eq!(chunked_logits, actual, "unequal chunks must preserve token-serial logits");
    assert_eq!(state_of(&chunked), state_of(&unchunked));
    let prefix = &tokens[..7];
    let suffix = &tokens[7..15];
    let mut rollback = fresh()?;
    shown(step(&mut rollback, &model, prefix))?;
    let before = state_of(&rollback);
    let mut refused = suffix.to_vec();
    refused.push(u32::MAX);
    assert!(matches!(
        step(&mut rollback, &model, &refused),
        Err(Error::ExecutionToken { token_id: u32::MAX, vocabulary: 5 })
    ));
    assert_eq!(state_of(&rollback), before);
    let retry = shown(step(&mut rollback, &model, suffix))?;
    let mut control = fresh()?;
    shown(step(&mut control, &model, prefix))?;
    let expected_retry = shown(step(&mut control, &model, suffix))?;
    assert_eq!(retry, expected_retry, "a dropped append must preserve retry equivalence");
    assert_eq!(state_of(&rollback), state_of(&control));
    Ok(())
}

fn report_sum(requirements: Qwen35CpuRequirements) -> u64 {
    requirements.retained_bytes
        + requirements.transaction_copy_bytes
        + requirements.workspace_upper_bound_bytes
        + requirements.returned_logits_bytes
}

#[test]
fn artifact_plan_report_and_all_last_execution_agree() -> Result<(), String> {
    let artifact = verify(&hybrid_fixture(4, 0)?)?;
    let model = model(&artifact)?;
    let all = shown(plan(&model, 4, 3, Qwen35LogitSelection::AllTokens))?;
    let last = shown(plan(&model, 4, 3, Qwen35LogitSelection::LastToken))?;
    let vocabulary = all.layout().vocabulary;
    let all_requirements = all.cpu_requirements();
    let last_requirements = last.cpu_requirements();
    assert_eq!(all_requirements.artifact_digest(), artifact.observation().digest);
    assert_eq!(all_requirements.serialized_backing_bytes(), artifact.observation().file_len);
    assert_eq!(all_requirements.max_context, 4);
    assert_eq!(all_requirements.max_step_tokens, 3);
    assert_eq!(all_requirements.selection, Qwen35LogitSelection::AllTokens);
    assert_eq!(last_requirements.selection, Qwen35LogitSelection::LastToken);
    assert_eq!(all_requirements.retained_bytes, last_requirements.retained_bytes);
    assert_eq!(all_requirements.transaction_copy_bytes, last_requirements.transaction_copy_bytes);
    assert_eq!(
        all_requirements.workspace_upper_bound_bytes,
        last_requirements.workspace_upper_bound_bytes
    );
    assert!(all_requirements.transaction_copy_bytes < all_requirements.retained_bytes);
    assert_eq!(
        all_requirements.returned_logits_bytes,
        last_requirements.returned_logits_bytes * 3
    );
    assert_eq!(all_requirements.logical_f32_upper_bound_bytes, report_sum(all_requirements));
    assert_eq!(last_requirements.logical_f32_upper_bound_bytes, report_sum(last_requirements));
    let mut all = open(all, &model)?;
    let mut last = open(last, &model)?;
    let all_logits = shown(step(&mut all, &model, &[0, 1, 2]))?;
    let last_logits = shown(step(&mut last, &model, &[0, 1, 2]))?;
    assert_eq!(all_logits.len(), vocabulary * 3);
    assert_eq!(last_logits.len(), vocabulary);
    assert_eq!(all_logits[vocabulary * 2..], last_logits[..]);
    assert_eq!(all.published_tokens(), 3);
    assert_eq!(state_of(&all), state_of(&last));
    shown(step(&mut all, &model, &[3]))?;
    shown(step(&mut last, &model, &[3]))?;
    assert_eq!(all.published_tokens(), 4);
    assert_eq!(state_of(&all), state_of(&last));
    assert!(step(&mut all, &model, &[0]).is_err());
    assert!(step(&mut last, &model, &[0]).is_err());
    assert_eq!(all.published_tokens(), 4);
    assert_eq!(last.published_tokens(), 4);
    Ok(())
}

fn demanding_layout() -> Layout {
    Layout {
        hidden: 7,
        feed_forward: 19,
        heads: 6,
        kv_heads: 2,
        key: 5,
        n_rot: 4,
        kv_width: 10,
        query_width: 30,
        vocabulary: 1_009,
        main_blocks: 5,
        full_interval: 3,
        max_context: 257,
        epsilon: 1.0e-5_f32.to_bits(),
        rope_base: 10_000.0_f32.to_bits(),
        rope_sections: [1, 1, 0, 0],
    }
}

fn demanding_recurrent_layout() -> Qwen35RecurrentLayout {
    Qwen35RecurrentLayout {
        hidden: 7,
        conv_kernel: 4,
        inner: 42,
        state: 17,
        time_step_rank: 6,
        group_count: 2,
        main_block_count: 5,
        full_attention_interval: 3,
    }
}

fn demanding_extents(layout: Layout) -> KernelExtents {
    KernelExtents {
        recurrent_workspace: 2_704,
        full_attention_pool: 5_440,
        paged_decode: decode_plan(layout, layout.max_context),
    }
}

#[test]
fn named_owners_reconcile_a_large_nondegenerate_shape() -> Result<(), String> {
    let layout = demanding_layout();
    let elements = shown(Qwen35RequirementElements::try_from_layout(
        layout,
            demanding_recurrent_layout(),
        17,
        Qwen35LogitSelection::AllTokens,
        demanding_extents(layout),
    ))?;
    assert_eq!(elements.recurrent_layer_retained, 1_510);
    assert_eq!(elements.full_attention_pool_retained, 5_440);
    assert_eq!(elements.retained, 11_480);
    assert_eq!(elements.transaction_copy, 6_040);
    assert_eq!(elements.recurrent_workspace, 2_704);
    assert_eq!(elements.full_attention_workspace, 496);
    assert_eq!(elements.layer_finish_workspace, 104);
    assert_eq!(elements.lm_head_workspace, 1_023);
    assert_eq!(elements.workspace_upper_bound, 2_711);
    assert_eq!(elements.returned_logits, 17_153);
    assert_eq!(elements.logical_upper_bound, 37_384);
    let last = shown(Qwen35RequirementElements::try_from_layout(
        layout,
            demanding_recurrent_layout(),
        17,
        Qwen35LogitSelection::LastToken,
        demanding_extents(layout),
    ))?;
    assert_eq!(last.returned_logits, 1_009);
    assert_eq!(last.logical_upper_bound, 21_240);
    assert_eq!(last.retained, elements.retained);
    assert_eq!(last.transaction_copy, elements.transaction_copy);
    assert_eq!(last.workspace_upper_bound, elements.workspace_upper_bound);
    Ok(())
}

#[test]
fn independent_shape_axes_change_their_named_owner_components() -> Result<(), String> {
    let layout = demanding_layout();
    let recurrent = demanding_recurrent_layout();
    let count = |layout: Layout, recurrent: Qwen35RecurrentLayout| {
        shown(Qwen35RequirementElements::try_from_layout(
            layout,
            recurrent,
            17,
            Qwen35LogitSelection::AllTokens,
            demanding_extents(layout),
        ))
    };
    let baseline = count(layout, recurrent)?;
    let kernel = count(layout, Qwen35RecurrentLayout { conv_kernel: 5, ..recurrent })?;
    assert!(kernel.recurrent_layer_retained > baseline.recurrent_layer_retained);
    let state = count(layout, Qwen35RecurrentLayout { state: 19, ..recurrent })?;
    assert!(state.recurrent_layer_retained > baseline.recurrent_layer_retained);
    let values = count(layout, Qwen35RecurrentLayout { inner: 48, ..recurrent })?;
    assert!(values.recurrent_layer_retained > baseline.recurrent_layer_retained);
    let ffn = count(Layout { feed_forward: 97, ..layout }, recurrent)?;
    assert!(ffn.layer_finish_workspace > baseline.layer_finish_workspace);
    let vocabulary = count(Layout { vocabulary: 2_003, ..layout }, recurrent)?;
    assert!(vocabulary.lm_head_workspace > baseline.lm_head_workspace);
    assert!(vocabulary.returned_logits > baseline.returned_logits);
    let context = count(Layout { max_context: 521, ..layout }, recurrent)?;
    assert!(context.full_attention_workspace > baseline.full_attention_workspace);
    Ok(())
}

#[test]
fn owner_arithmetic_overflow_is_rejected_before_execution() -> Result<(), String> {
    let layout = demanding_layout();
    let overflowing = Layout { max_context: usize::MAX, ..layout };
    let decode = PagedDecodePlan {
        workspace_elements: usize::MAX,
        ..decode_plan(overflowing, 1)
    };
    let error = Qwen35RequirementElements::try_from_layout(
        overflowing,
        demanding_recurrent_layout(),
        1,
        Qwen35LogitSelection::AllTokens,
        KernelExtents {
            paged_decode: PagedDecodePlan { attention_tokens: usize::MAX, ..decode },
            ..demanding_extents(layout)
        },
    )
    .err()
    .ok_or("overflowing owner plan unexpectedly succeeded")?;
    assert!(matches!(error, Error::ArithmeticOverflow { .. }));
    let wide = Qwen35RecurrentLayout { state: u64::MAX / 3, ..demanding_recurrent_layout() };
    assert!(matches!(
        Qwen35RequirementElements::try_from_layout(
            layout,
            wide,
            1,
            Qwen35LogitSelection::AllTokens,
            demanding_extents(layout),
        ),
        Err(Error::ArithmeticOverflow { context: "recurrent convolution Q/K width" })
    ));
    let deep = Qwen35RecurrentLayout { conv_kernel: u64::MAX, ..demanding_recurrent_layout() };
    assert!(matches!(
        Qwen35RequirementElements::try_from_layout(
            layout,
            deep,
            1,
            Qwen35LogitSelection::AllTokens,
            demanding_extents(layout),
        ),
        Err(Error::ArithmeticOverflow { context: "recurrent convolution history" })
    ));
    Ok(())
}

#[test]
fn a_block_retains_its_parameters_its_history_and_its_state() -> Result<(), String> {
    let artifact = verify(&hybrid_fixture(4, 0)?)?;
    let model = model(&artifact)?;
    let layout = model.profile.recurrent_layout();
    let block = shown(Qwen35RecurrentExecution::try_from_weights(&artifact, layout, 0))?;
    assert_eq!(shown(retained_elements(block.layout))?, 77);
    let host = shown(ExecutionLayout::try_from_profile(demanding_recurrent_layout(), 0))?;
    assert_eq!(shown(retained_elements(host))?, 1_510);
    Ok(())
}

#[test]
fn expands_qk_heads_in_direct_gguf_tiled_order() -> Result<(), String> {
    let grouped = bits(&[1.0, 2.0, 10.0, 20.0]);
    let tiled = shown(tile_key_heads(&grouped, 1, 2, 4, 2))?;
    let contiguous = [1.0_f32, 2.0, 1.0, 2.0, 10.0, 20.0, 10.0, 20.0];
    assert_eq!(floats(&tiled), vec![1.0, 2.0, 10.0, 20.0, 1.0, 2.0, 10.0, 20.0]);
    assert_ne!(floats(&tiled), contiguous);
    Ok(())
}

#[test]
fn heads_of_tokens_round_trip() -> Result<(), String> {
    let values: Vec<u32> = (0..12).collect();
    let heads = shown(heads_from_tokens(&values, 2, 6, 0, 3, 2))?;
    assert_eq!(heads, vec![0, 1, 6, 7, 2, 3, 8, 9, 4, 5, 10, 11]);
    assert_eq!(shown(heads_to_tokens(&heads, 2, 3, 2))?, values);
    let tail = shown(heads_from_tokens(&values, 2, 6, 4, 1, 2))?;
    assert_eq!(tail, vec![4, 5, 10, 11]);
    assert!(matches!(
        heads_from_tokens(&values, 2, 6, 5, 1, 2),
        Err(Error::RecurrentInput { hidden: 6, actual: 6 })
    ));
    Ok(())
}

#[test]
fn recurrent_plan_refuses_a_full_attention_or_missing_main_block() -> Result<(), String> {
    let artifact = verify(&hybrid_fixture(4, 0)?)?;
    let model = model(&artifact)?;
    let layout = model.profile.recurrent_layout();
    assert!(Qwen35RecurrentExecution::try_from_weights(&artifact, layout, 2).is_ok());
    for block in [3, 4] {
        assert!(matches!(
            Qwen35RecurrentExecution::try_from_weights(&artifact, layout, block),
            Err(Error::RecurrentLayer { block_index, .. }) if block_index == block
        ));
    }
    Ok(())
}

#[test]
fn a_failed_recurrent_step_keeps_the_prior_state() -> Result<(), String> {
    let artifact = verify(&hybrid_fixture(4, 0)?)?;
    let model = model(&artifact)?;
    let layout = model.profile.recurrent_layout();
    let mut block = shown(Qwen35RecurrentExecution::try_from_weights(&artifact, layout, 0))?;
    assert_eq!(block.layout.conv_width, 16);
    assert_eq!(block.convolution_history, vec![0; 16]);
    assert_eq!(block.recurrent_state, vec![0; 16]);
    let before = format!("{block:?}");
    let short = recurrent_block(&artifact, &mut block, &[0.5, 0.25]);
    assert!(matches!(short, Err(Error::RecurrentInput { hidden: 3, actual: 2 })));
    let infinite = recurrent_block(&artifact, &mut block, &[0.5, f32::INFINITY, 0.0]);
    assert!(matches!(infinite, Err(Error::RecurrentArithmetic { stage: "input", index: 1 })));
    assert_eq!(format!("{block:?}"), before);
    shown(recurrent_block(&artifact, &mut block, &[0.5, 0.25, -0.5]))?;
    assert_ne!(format!("{block:?}"), before);
    Ok(())
}

#[test]
fn terminal_nextn_blocks_are_outside_the_main_model() -> Result<(), String> {
    let baseline = verify(&hybrid_fixture(4, 0)?)?;
    let auxiliary = verify(&hybrid_fixture(4, 1)?)?;
    let baseline = model(&baseline)?.profile;
    let auxiliary = model(&auxiliary)?.profile;
    assert_eq!(auxiliary.stored_block_count(), 5);
    assert_eq!(auxiliary.nextn_block_count(), 1);
    assert_eq!(auxiliary.main_block_count(), baseline.main_block_count());
    assert_eq!(
        format!("{:?}", auxiliary.recurrent_layout()),
        format!("{:?}", baseline.recurrent_layout())
    );
    assert_eq!(
        format!("{:?}", auxiliary.execution_dimensions()),
        format!("{:?}", baseline.execution_dimensions())
    );
    Ok(())
}

#[test]
fn the_structural_preflight_names_what_it_refuses() -> Result<(), String> {
    let fixture = hybrid_fixture(4, 1)?;
    let check = |fixture: &Fixture| {
        let (observation, _) = observe(fixture);
        match Qwen35StructuralProfile::try_from_observed(&observation) {
            Ok(_) => None,
            Err(error) => Some(format!("{error:?}")),
        }
    };
    assert_eq!(check(&fixture), None);
    let mut missing = fixture.clone();
    missing.metadata.retain(|entry| entry.0 != HEAD_COUNT_KEY);
    assert_eq!(
        check(&missing),
        Some("MissingMetadata { key: \"qwen35.attention.head_count\" }".to_string())
    );
    let mut typed = fixture.clone();
    replace(&mut typed, HEAD_COUNT_KEY, Value::F32(4.0));
    assert!(matches!(check(&typed), Some(error) if error.starts_with("MetadataType")));
    let mut related = fixture.clone();
    replace(&mut related, SSM_STATE_SIZE_KEY, Value::U32(3));
    assert!(matches!(check(&related), Some(error) if error.contains("ssm.state_size must equal")));
    let mut listed = fixture.clone();
    listed.metadata.push((RECURRENT_LAYERS_KEY, Value::Bools(vec![true])));
    assert!(matches!(check(&listed), Some(error) if error.contains("recurrent_layers")));
    let mut fewer = fixture.clone();
    fewer.tensors.pop();
    assert!(matches!(check(&fewer), Some(error) if error.contains("tensor count")));
    let mut twice = fixture.clone();
    let first = twice.tensors[0].0.clone();
    twice.tensors[1].0 = first;
    assert!(matches!(check(&twice), Some(error) if error.starts_with("DuplicateTensor")));
    let mut unknown = fixture.clone();
    unknown.tensors[1].0 = "rope_freqs.weight".to_string();
    assert!(matches!(check(&unknown), Some(error) if error.starts_with("UnclassifiedTensor")));
    let mut shaped = fixture.clone();
    shaped.tensors[0].1.push(1);
    assert!(matches!(check(&shaped), Some(error) if error.starts_with("TensorShape")));
    Ok(())
}

#[test]
fn execution_metadata_is_bounded() -> Result<(), String> {
    let fixture = hybrid_fixture(16, 0)?;
    let check = |fixture: &Fixture, context: usize| -> Result<Option<Error>, String> {
        let artifact = verify(fixture)?;
        let model = model(&artifact)?;
        Ok(Layout::from_metadata(&model.profile, context).err())
    };
    assert!(check(&fixture, 16)?.is_none());
    assert!(matches!(check(&fixture, 0)?, Some(Error::ExecutionContext { requested: 0, .. })));
    assert!(matches!(check(&fixture, 17)?, Some(Error::ExecutionContext { requested: 17, .. })));
    let mut negative = fixture.clone();
    replace(&mut negative, ROPE_SECTIONS_KEY, Value::I32s(vec![24, -1, 20, 0]));
    assert!(matches!(
        check(&negative, 4)?,
        Some(Error::MetadataRelation { key: ROPE_SECTIONS_KEY, .. })
    ));
    let mut short = fixture.clone();
    replace(&mut short, ROPE_SECTIONS_KEY, Value::I32s(vec![24, 20, 20]));
    assert!(matches!(
        check(&short, 4)?,
        Some(Error::MetadataRelation { key: ROPE_SECTIONS_KEY, .. })
    ));
    let mut epsilon = fixture.clone();
    replace(&mut epsilon, LAYERNORM_RMS_EPSILON_KEY, Value::F32(0.0));
    assert!(matches!(
        check(&epsilon, 4)?,
        Some(Error::MetadataRelation { key: LAYERNORM_RMS_EPSILON_KEY, .. })
    ));
    Ok(())
}

#[test]
fn a_faulty_scaling_factor_names_its_own_key() -> Result<(), String> {
    let check = |entries: &[(&'static str, Value)]| -> Result<Option<(&'static str, &'static str)>, String> {
        let mut fixture = hybrid_fixture(4, 0)?;
        fixture.metadata.extend(entries.iter().cloned());
        let artifact = verify(&fixture)?;
        let model = model(&artifact)?;
        match Layout::from_metadata(&model.profile, 4) {
            Ok(_) => Ok(None),
            Err(Error::MetadataRelation { key, rule }) => Ok(Some((key, rule))),
            Err(other) => Err(format!("{other:?}")),
        }
    };
    let unscaled = "only source-defined effective unscaled RoPE is implemented";
    let positive = "present scaling factors must be finite and positive";
    let (current, legacy, attention) = (
        ROPE_SCALING_FACTOR_KEY,
        ROPE_LEGACY_LINEAR_SCALE_KEY,
        ROPE_SCALING_ATTENTION_FACTOR_KEY,
    );
    assert_eq!(check(&[(attention, Value::F32(2.0))])?, Some((attention, unscaled)));
    assert_eq!(check(&[(attention, Value::F32(0.0))])?, Some((attention, positive)));
    assert_eq!(check(&[(attention, Value::F32(f32::NAN))])?, Some((attention, positive)));
    assert_eq!(check(&[(current, Value::F32(2.0))])?, Some((current, unscaled)));
    assert_eq!(check(&[(current, Value::F32(-1.0))])?, Some((current, positive)));
    assert_eq!(check(&[(legacy, Value::F32(4.0))])?, Some((legacy, unscaled)));
    let none = (ROPE_SCALING_TYPE_KEY, Value::Text("none"));
    assert_eq!(check(&[none.clone(), (current, Value::F32(2.0))])?, None);
    assert_eq!(
        check(&[none, (current, Value::F32(2.0)), (attention, Value::F32(2.0))])?,
        Some((attention, unscaled))
    );
    assert_eq!(check(&[(current, Value::F32(1.0)), (attention, Value::F32(1.0))])?, None);
    Ok(())
}

#[test]
fn a_recurrent_step_hands_out_as_many_values_as_it_was_given() -> Result<(), String> {
    let artifact = verify(&hybrid_fixture(4, 0)?)?;
    let model = model(&artifact)?;
    let layout = model.profile.recurrent_layout();
    let mut block = shown(Qwen35RecurrentExecution::try_from_weights(&artifact, layout, 1))?;
    let hidden = [0.5, 0.25, -0.5];
    let output = shown(recurrent_block(&artifact, &mut block, &hidden))?;
    assert_eq!(output.len(), hidden.len());
    let pass = shown(RecurrentPass::begin(&block, &bits(&hidden)))?;
    let pass = shown(pass.normalize(bits(&hidden)))?;
    assert!(matches!(
        pass.projection(),
        Some((name, rows)) if name == "blk.1.attn_qkv.weight" && rows == bits(&hidden)
    ));
    assert!(matches!(
        pass.project_channels(vec![0; 15]),
        Err(Error::RecurrentInput { hidden: 16, actual: 15 })
    ));
    let before = format!("{block:?}");
    let failure = Error::RecurrentInput { hidden: 9, actual: 9 };
    assert!(matches!(
        block.step(&bits(&hidden), Err(failure)),
        Err(Error::RecurrentInput { hidden: 9, actual: 9 })
    ));
    assert_eq!(format!("{block:?}"), before);
    let fitting = || RecurrentOutput {
        output: vec![0; 3],
        convolution_history: vec![0; 16],
        state: vec![0; 16],
    };
    for (target, computed) in [
        ("recurrent step output", RecurrentOutput { output: vec![0; 2], ..fitting() }),
        (
            "convolution history",
            RecurrentOutput { convolution_history: vec![0; 15], ..fitting() },
        ),
        ("GDN state", RecurrentOutput { state: vec![0; 17], ..fitting() }),
    ] {
        assert!(matches!(
            block.step(&bits(&hidden), Ok(computed)),
            Err(Error::ExecutionAllocationPlan { target: named, .. }) if named == target
        ));
        assert_eq!(format!("{block:?}"), before);
    }
    assert!(block.step(&bits(&hidden), Ok(fitting())).is_ok());
    Ok(())
}

#[test]
fn a_copy_for_a_transaction_holds_the_same_values() -> Result<(), String> {
    let artifact = verify(&hybrid_fixture(4, 0)?)?;
    let model = model(&artifact)?;
    let layout = model.profile.recurrent_layout();
    let block = shown(Qwen35RecurrentExecution::try_from_weights(&artifact, layout, 2))?;
    let copy = shown(block.try_clone_for_transaction())?;
    assert_eq!(format!("{copy:?}"), format!("{block:?}"));
    let empty = Qwen35RecurrentExecution {
        attention_norm: Vec::new(),
        ssm_a: Vec::new(),
        ssm_conv: Vec::new(),
        ssm_dt: Vec::new(),
        ssm_norm: Vec::new(),
        convolution_history: Vec::new(),
        recurrent_state: Vec::new(),
        ..copy
    };
    assert!(empty.try_clone_for_transaction().is_ok());
    Ok(())
}

#[test]
fn a_session_needs_its_states_and_its_pool() -> Result<(), String> {
    let artifact = verify(&hybrid_fixture(4, 0)?)?;
    let model = model(&artifact)?;
    let all = Qwen35LogitSelection::AllTokens;
    let states = |count: usize| -> Result<Vec<Qwen35RecurrentExecution>, String> {
        (0..count as u64)
            .map(|block| {
                let layout = model.profile.recurrent_layout();
                shown(Qwen35RecurrentExecution::try_from_weights(&artifact, layout, block))
            })
            .collect()
    };
    let opened = session(&model, 4, 4, all)?;
    assert!(matches!(
        shown(plan(&model, 4, 4, all))?.execution(1, states(2)?, opened.pool().clone()),
        Err(Error::ExecutionContext { requested: 2, .. })
    ));
    assert!(matches!(
        shown(plan(&model, 4, 4, all))?.execution(1, states(3)?, None::<Pool>),
        Err(Error::ExecutionContext { requested: 1, .. })
    ));
    assert!(matches!(
        opened.stage(&[0], states(1)?, opened.pool().clone()),
        Err(Error::ExecutionContext { requested: 1, .. })
    ));
    Ok(())
}

#[test]
fn a_step_of_another_session_is_refused() -> Result<(), String> {
    let artifact = verify(&hybrid_fixture(4, 0)?)?;
    let model = model(&artifact)?;
    let mut last = session(&model, 4, 4, Qwen35LogitSelection::LastToken)?;
    let all = session(&model, 4, 4, Qwen35LogitSelection::AllTokens)?;
    let foreign = shown(run(&all, &model, &[0, 1]))?;
    assert!(matches!(
        last.step(Ok(foreign)),
        Err(Error::ExecutionContext { requested: 2, .. })
    ));
    let narrower = session(&model, 3, 3, Qwen35LogitSelection::LastToken)?;
    let narrow = shown(run(&narrower, &model, &[0, 1]))?;
    assert!(last.step(Ok(narrow)).is_err());
    let alike = open_as(2, shown(plan(&model, 4, 4, Qwen35LogitSelection::LastToken))?, &model)?;
    let twin = shown(run(&alike, &model, &[0, 1]))?;
    assert!(matches!(
        last.step(Ok(twin)),
        Err(Error::ExecutionContext { requested: 2, .. })
    ));
    assert_eq!(last.published_tokens(), 0);
    let own = shown(run(&last, &model, &[0, 1]))?;
    assert!(last.step(Ok(own)).is_ok());
    assert_eq!(last.published_tokens(), 2);
    Ok(())
}

#[test]
fn a_batch_publishes_only_the_tokens_it_planned() -> Result<(), String> {
    let artifact = verify(&hybrid_fixture(BATCH_CONTEXT, 0)?)?;
    let model = model(&artifact)?;
    let all = Qwen35LogitSelection::AllTokens;
    let mut sessions = vec![
        session(&model, BATCH_CONTEXT, BATCH_STEP_TOKENS, all)?,
        session(&model, BATCH_CONTEXT, BATCH_STEP_TOKENS, all)?,
    ];
    let before = states_of(&sessions);
    let first = shown(run(&sessions[0], &model, &[0, 1]))?;
    let other = shown(run(&sessions[1], &model, &[3, 2]))?;
    let plan = shown(Qwen35Execution::plan_batch(&mut sessions, &[&[0, 1], &[2, 3]]))?;
    assert!(matches!(
        plan.execute(Ok(vec![first, other])),
        Err(Error::ExecutionBatch { sequence: 1, .. })
    ));
    assert_eq!(states_of(&sessions), before);
    Ok(())
}

#[test]
fn a_layout_cadence_selects_full_attention_blocks() -> Result<(), String> {
    let artifact = verify(&hybrid_fixture(16, 0)?)?;
    let model = model(&artifact)?;
    let layout = shown(Layout::from_metadata(&model.profile, 16))?;
    assert_eq!(layout.n_rot, 128);
    assert_eq!((layout.query_width, layout.kv_width), (512, 256));
    assert_eq!(layout.full_layer_count(), 1);
    assert!(matches!(layout.recurrent_layer_count(), Ok(3)));
    let admitted: Vec<bool> = (0..5).map(|block| layout.is_admitted_full_block(block)).collect();
    assert_eq!(admitted, vec![false, false, false, true, false]);
    Ok(())
}

#[test]
fn text_rotary_axes_interleave_until_their_section_ends() -> Result<(), String> {
    let mrope = TextMrope::new(16, 10_000.0_f32.to_bits(), [3, 2, 1, 2]);
    let axes: Vec<usize> = shown(mrope.pairs())?.iter().map(|pair| pair.axis).collect();
    assert_eq!(axes, vec![0, 1, 2, 0, 1, 3, 0, 3]);
    let pair = shown(mrope.pairs())?[5];
    assert_eq!((pair.left, pair.right), (5, 13));
    assert!(matches!(mrope.axis(8), Ok(0)));
    Ok(())
}

#[test]
fn a_query_gate_projection_splits_per_head() -> Result<(), String> {
    let projection: Vec<u32> = (0..8).collect();
    let (query, gate) = shown(split_query_gate(&projection, 2, 2, 4))?;
    assert_eq!(query, vec![0, 1, 4, 5]);
    assert_eq!(gate, vec![2, 3, 6, 7]);
    assert!(split_query_gate(&projection, 3, 2, 6).is_err());
    Ok(())
}

#[test]
fn a_misaligned_batch_publishes_nothing() -> Result<(), String> {
    let artifact = verify(&hybrid_fixture(BATCH_CONTEXT, 0)?)?;
    let model = model(&artifact)?;
    let all = Qwen35LogitSelection::AllTokens;
    let mut sessions = vec![
        session(&model, BATCH_CONTEXT, BATCH_STEP_TOKENS, all)?,
        session(&model, BATCH_CONTEXT, BATCH_STEP_TOKENS, all)?,
    ];
    let early = shown(run(&sessions[1], &model, &[0]))?;
    shown(step(&mut sessions[1], &model, &[1]))?;
    let aligned = shown(run(&sessions[0], &model, &[0]))?;
    let before = states_of(&sessions);
    let plan = shown(Qwen35Execution::plan_batch(&mut sessions, &[&[0], &[0]]))?;
    assert!(matches!(
        plan.execute(Ok(vec![aligned, early])),
        Err(Error::ExecutionBatch { sequence: 1, .. })
    ));
    assert_eq!(states_of(&sessions), before);
    Ok(())
}

#[test]
fn a_step_that_started_elsewhere_is_refused() -> Result<(), String> {
    let artifact = verify(&hybrid_fixture(4, 0)?)?;
    let model = model(&artifact)?;
    let mut session = session(&model, 4, 4, Qwen35LogitSelection::LastToken)?;
    let stale = shown(run(&session, &model, &[0, 1]))?;
    shown(step(&mut session, &model, &[2]))?;
    assert!(matches!(
        session.step(Ok(stale)),
        Err(Error::ExecutionContext { requested: 2, .. })
    ));
    assert_eq!(session.published_tokens(), 1);
    Ok(())
}

#[test]
fn staged_rows_are_checked() -> Result<(), String> {
    let artifact = verify(&hybrid_fixture(4, 0)?)?;
    let model = model(&artifact)?;
    let session = session(&model, 4, 4, Qwen35LogitSelection::AllTokens)?;
    let stage = || session.stage_copies(&[4], session.pool().clone());
    let staged = shown(stage())?;
    assert_eq!(staged.next_action(), StepAction::Embed { token: 4 });
    assert!(matches!(staged.embedding_row(), Ok(4)));
    assert!(matches!(
        staged.complete_embed(vec![0; 2]),
        Err(Error::ExecutionContext { requested: 2, .. })
    ));
    assert!(matches!(
        shown(stage())?.complete_embed(vec![0, 0, f32::NAN.to_bits()]),
        Err(Error::ExecutionArithmetic { stage: "token embedding", index: 2 })
    ));
    let embedded = shown(shown(stage())?.complete_embed(vec![0; 3]))?;
    assert_eq!(embedded.next_action(), StepAction::Recurrent { block: 0 });
    assert!(matches!(
        session.stage(&[4], Vec::new(), session.pool().clone()),
        Err(Error::ExecutionContext { requested: 0, .. })
    ));
    assert!(matches!(
        session.validate_step(&[0; 5]),
        Err(Error::ExecutionContext { requested: 5, .. })
    ));
    assert!(matches!(
        session.validate_step(&[5]),
        Err(Error::ExecutionToken { token_id: 5, vocabulary: 5 })
    ));
    Ok(())
}

#[test]
fn attention_rows_must_match_the_visible_tokens() -> Result<(), String> {
    let artifact = verify(&hybrid_fixture(4, 0)?)?;
    let model = model(&artifact)?;
    let layout = shown(Layout::from_metadata(&model.profile, 4))?;
    let step = FullAttentionStep { position: 1, block: 3, full_layer: 0, append_token: 0 };
    let mut pool = Pool { layers: vec![Vec::new()] };
    let refused = full_attention(&artifact, layout, step, &[0.5, 0.25, 0.125], &mut pool);
    assert!(matches!(refused, Err(Error::ExecutionContext { requested: 1, .. })));
    let pass = shown(AttentionPass::begin(layout, step, decode_plan(layout, 2)))?;
    assert!(matches!(
        pass.normalize(vec![0; 2]),
        Err(Error::ExecutionAllocationPlan { planned: 3, derived: 2, .. })
    ));
    Ok(())
}

#[test]
fn a_layer_tail_checks_its_residuals() -> Result<(), String> {
    let artifact = verify(&hybrid_fixture(4, 0)?)?;
    let model = model(&artifact)?;
    let layout = shown(Layout::from_metadata(&model.profile, 4))?;
    assert!(FinishPass::begin(layout, 0, vec![0; 3], vec![0; 2]).is_err());
    let pass = shown(FinishPass::begin(layout, 0, vec![0; 3], vec![0; 3]))?;
    assert!(matches!(
        pass.add_attention(vec![0, f32::NAN.to_bits(), 0]),
        Err(Error::ExecutionArithmetic { stage: "attention residual", index: 1 })
    ));
    assert!(matches!(
        ensure_execution_plan("extent", 3, 4),
        Err(Error::ExecutionAllocationPlan { target: "extent", planned: 4, derived: 3 })
    ));
    Ok(())
}

#[test]
fn matrices_are_checked_before_they_are_read() -> Result<(), String> {
    let mut fixture = hybrid_fixture(4, 0)?;
    fixture.tensors[0].2.pop();
    let artifact = verify(&fixture)?;
    let name = fixture.tensors[0].0.clone();
    assert!(matches!(matrix(&artifact, &name), Err(Error::ProjectionBytes { .. })));
    assert!(matches!(matrix(&artifact, "absent"), Err(Error::PayloadTensor { .. })));
    assert!(matches!(
        matrix(&artifact, OUTPUT_NORM),
        Err(Error::ProjectionRank { actual: 1, .. })
    ));
    let header = shown(MatrixHeader::from_payload(&artifact, OUTPUT))?;
    assert!(matches!(header.with_row_bytes(None), Err(Error::ProjectionLayout { .. })));
    let output = shown(matrix(&artifact, OUTPUT))?;
    assert!(matches!(
        output.row_bytes(5),
        Err(Error::ProjectionInputWidth { expected: 5, actual: 5, .. })
    ));
    assert!(matches!(
        output.decode_row::<u32>(2, Err(RowFault::NonFiniteWeight { index: 1 })),
        Err(Error::ProjectionRow {
            row: 2,
            source: RowFault::NonFiniteWeight { index: 1 },
            ..
        })
    ));
    assert!(matches!(
        output.project(2, &[Ok(0u32); 5]),
        Err(Error::ProjectionInputWidth { expected: 3, actual: 2, .. })
    ));
    Ok(())
}

#[test]
fn a_session_starts_from_the_parameters_of_its_blocks() -> Result<(), String> {
    let fixture = hybrid_fixture(4, 0)?;
    let artifact = verify(&fixture)?;
    let model = model(&artifact)?;
    let layout = shown(Layout::from_metadata(&model.profile, 4))?;
    let pool = Pool { layers: vec![Vec::new()] };
    let session = shown(Session::try_from_weights(
        &model.profile,
        &artifact,
        4,
        extents(layout),
        1,
        Some(pool.clone()),
    ))?;
    assert_eq!(session.published_tokens(), 0);
    assert_eq!(session.pool().as_ref(), Some(&pool));
    for (block, layer) in session.layers().iter().enumerate() {
        match layer {
            LayerState::Recurrent(state) => {
                assert_eq!(state.block_index, block as u64);
                assert!(state.recurrent_state.iter().all(|value| *value == 0));
            }
            LayerState::Full(layer) => assert_eq!((block, *layer), (3, 0)),
        }
    }
    assert_eq!(session.cpu_requirements().max_step_tokens, 4);
    assert!(matches!(
        Session::try_from_weights(&model.profile, &artifact, 4, extents(layout), 1, None),
        Err(Error::ExecutionContext { requested: 1, .. })
    ));
    let mut faulty = fixture.clone();
    for tensor in &mut faulty.tensors {
        if tensor.0 == "blk.1.ssm_dt.bias" {
            tensor.2.pop();
        }
    }
    let faulty = verify(&faulty)?;
    assert!(matches!(
        Session::try_from_weights(&model.profile, &faulty, 4, extents(layout), 1, Some(pool)),
        Err(Error::ProjectionBytes { ref name, expected: 16, actual: 12 })
            if name == "blk.1.ssm_dt.bias"
    ));
    Ok(())
}

#[test]
fn a_preflight_reports_what_it_observed() -> Result<(), String> {
    let (mut observation, _) = observe(&hybrid_fixture(4, 1)?);
    observation.digest = [0; 32];
    observation.digest[0] = 0xa0;
    observation.digest[31] = 0x1f;
    let tensors = observation.tensors.len();
    let bytes = observation.file_len;
    let profile = shown(Qwen35StructuralProfile::try_from_observed(&observation))?;
    let zeros = "0".repeat(60);
    assert_eq!(
        report(&profile),
        format!(
            "{{\"schema_version\":1,\"outcome\":\"structural_preflight\",\"digest\":\
             {{\"algorithm\":\"sha256\",\"hex\":\"a0{zeros}1f\"}},\"file_bytes\":{bytes},\
             \"tensor_count\":{tensors},\"stored_block_count\":5,\"main_block_count\":4,\
             \"nextn_block_count\":1}}"
        )
    );
    assert_eq!(hex_text(&[0, 255, 16]), "00ff10");
    Ok(())
}
