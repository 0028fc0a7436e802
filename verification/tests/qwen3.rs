use decoders::error::RowFault;
use decoders::gguf::{
    GgmlType, MetaArray, MetaValue, MetaValueType, Metadata, ObservedArtifact, TensorDescriptor,
    VerifiedArtifact,
};
use decoders::matrix::{CheckedMatrix, MatrixHeader};
use decoders::qwen3::{
    block_name, positive, require_f32, require_string, vocabulary, Layout, ARCHITECTURE,
    BLOCK_COUNT, CAUSAL, CONTEXT_LENGTH, FEED_FORWARD, HEADS, HIDDEN, KEY_LENGTH, KV_HEADS,
    OUTPUT_NORM, POOLING_TYPE, RANK_HEAD, RANK_LABELS_KEY, RMS_EPSILON, ROPE_BASE, ROPE_DIMENSION,
    ROPE_LEGACY_LINEAR_SCALE, ROPE_SCALING_ATTENTION_FACTOR, ROPE_SCALING_FACTOR,
    ROPE_SCALING_TYPE, TOKENS, TOKEN_EMBEDDING, VALUE_LENGTH,
};
use decoders::qwen3_inventory::{role_for_name, split_block_name, Storage};
use decoders::qwen3_pass::{
    finite, finite_one, kv_head, neox_pair, read_attention_norms, read_f32_vector, reserve, row,
    BlockStorage, PassStage, Qwen3Pass,
};
use decoders::qwen3_token::{FeedForwardPass, FeedForwardStage, TokenPass, TokenStage};
use decoders::{Error, Qwen3Execution, Qwen3RankWeights, Qwen3Weights};

const TEST_HIDDEN: u64 = 3;
const TEST_HEADS: u64 = 2;
const TEST_KV_HEADS: u64 = 1;
const TEST_HEAD_DIM: u64 = 2;
const TEST_FEED_FORWARD: u64 = 4;
const TEST_VOCABULARY: u64 = 4;
const TEST_BLOCKS: u32 = 1;
const TEST_CONTEXT: u32 = 4;

#[derive(Clone, Debug)]
enum RawValue {
    U32(u32),
    F32(f32),
    Bool(bool),
    Text(String),
    TextArray(Vec<String>),
    I32Array(Vec<i32>),
}

#[derive(Clone, Debug)]
struct RawTensor {
    name: String,
    dims: Vec<u64>,
    format: u32,
    payload: Vec<u8>,
}

#[derive(Clone, Debug)]
struct Raw {
    metadata: Vec<(String, RawValue)>,
    tensors: Vec<RawTensor>,
}

fn tensor(name: &str, dims: Vec<u64>, seed: f32) -> RawTensor {
    let count: u64 = dims.iter().product();
    let mut payload = Vec::new();
    for index in 0..count {
        payload.extend_from_slice(&(seed + index as f32 * 0.007_812_5).to_le_bytes());
    }
    RawTensor { name: name.to_string(), dims, format: 0, payload }
}

fn zero_tensor(name: &str, dims: Vec<u64>, bytes: usize) -> RawTensor {
    RawTensor { name: name.to_string(), dims, format: 0, payload: vec![0; bytes] }
}

fn texts(values: &[&str]) -> RawValue {
    RawValue::TextArray(values.iter().map(|value| value.to_string()).collect())
}

fn fixture() -> Raw {
    let mut tensors = vec![
        tensor(TOKEN_EMBEDDING, vec![TEST_HIDDEN, TEST_VOCABULARY], 0.125),
        tensor(OUTPUT_NORM, vec![TEST_HIDDEN], 1.0),
    ];
    for (role, dimensions, seed) in [
        ("attn_norm.weight", vec![TEST_HIDDEN], 1.0),
        ("attn_q_norm.weight", vec![TEST_HEAD_DIM], 1.0),
        ("attn_k_norm.weight", vec![TEST_HEAD_DIM], 1.0),
        ("ffn_norm.weight", vec![TEST_HIDDEN], 1.0),
        ("attn_q.weight", vec![TEST_HIDDEN, TEST_HEADS * TEST_HEAD_DIM], 0.0625),
        ("attn_k.weight", vec![TEST_HIDDEN, TEST_KV_HEADS * TEST_HEAD_DIM], 0.09375),
        ("attn_v.weight", vec![TEST_HIDDEN, TEST_KV_HEADS * TEST_HEAD_DIM], 0.125),
        ("attn_output.weight", vec![TEST_HEADS * TEST_HEAD_DIM, TEST_HIDDEN], 0.15625),
        ("ffn_gate.weight", vec![TEST_HIDDEN, TEST_FEED_FORWARD], 0.1875),
        ("ffn_up.weight", vec![TEST_HIDDEN, TEST_FEED_FORWARD], 0.21875),
        ("ffn_down.weight", vec![TEST_FEED_FORWARD, TEST_HIDDEN], 0.25),
    ] {
        tensors.push(tensor(&format!("blk.0.{role}"), dimensions, seed));
    }
    let mut raw = Raw { metadata: Vec::new(), tensors };
    push(&mut raw, ARCHITECTURE, RawValue::Text("qwen3".to_string()));
    push(&mut raw, BLOCK_COUNT, RawValue::U32(TEST_BLOCKS));
    push(&mut raw, CONTEXT_LENGTH, RawValue::U32(TEST_CONTEXT));
    push(&mut raw, HIDDEN, RawValue::U32(TEST_HIDDEN as u32));
    push(&mut raw, FEED_FORWARD, RawValue::U32(TEST_FEED_FORWARD as u32));
    push(&mut raw, HEADS, RawValue::U32(TEST_HEADS as u32));
    push(&mut raw, KV_HEADS, RawValue::U32(TEST_KV_HEADS as u32));
    push(&mut raw, KEY_LENGTH, RawValue::U32(TEST_HEAD_DIM as u32));
    push(&mut raw, VALUE_LENGTH, RawValue::U32(TEST_HEAD_DIM as u32));
    push(&mut raw, RMS_EPSILON, RawValue::F32(0.001));
    push(&mut raw, ROPE_DIMENSION, RawValue::U32(TEST_HEAD_DIM as u32));
    push(&mut raw, ROPE_BASE, RawValue::F32(10_000.0));
    push(&mut raw, POOLING_TYPE, RawValue::U32(3));
    push(&mut raw, TOKENS, texts(&["alice", "bob", "acme", "corp"]));
    raw
}

fn rank_fixture() -> Raw {
    let mut raw = fixture();
    replace(&mut raw, POOLING_TYPE, RawValue::U32(4));
    push(&mut raw, RANK_LABELS_KEY, texts(&["yes", "no"]));
    raw.tensors.push(tensor(RANK_HEAD, vec![TEST_HIDDEN, 2], 0.3125));
    raw
}

fn push(raw: &mut Raw, key: &str, value: RawValue) {
    raw.metadata.push((key.to_string(), value));
}

fn replace(raw: &mut Raw, key: &str, value: RawValue) {
    for entry in &mut raw.metadata {
        if entry.0 == key {
            entry.1 = value.clone();
        }
    }
}

fn remove(raw: &mut Raw, key: &str) {
    raw.metadata.retain(|entry| entry.0 != key);
}

fn replace_dims(raw: &mut Raw, name: &str, dims: &[u64]) {
    for tensor in &mut raw.tensors {
        if tensor.name == name {
            tensor.dims = dims.to_vec();
        }
    }
}

fn as_half_precision(raw: &mut Raw, name: &str, bytes: usize) {
    for tensor in &mut raw.tensors {
        if tensor.name == name {
            tensor.format = 1;
            tensor.payload = vec![0; bytes];
        }
    }
}

fn meta_value(value: &RawValue) -> MetaValue {
    match value {
        RawValue::U32(value) => MetaValue::U32(*value),
        RawValue::F32(value) => MetaValue::F32(value.to_bits()),
        RawValue::Bool(value) => MetaValue::Bool(*value),
        RawValue::Text(value) => MetaValue::String(value.clone()),
        RawValue::TextArray(values) => MetaValue::Array(MetaArray {
            element_type: MetaValueType::String,
            values: values.iter().map(|value| MetaValue::String(value.clone())).collect(),
        }),
        RawValue::I32Array(values) => MetaValue::Array(MetaArray {
            element_type: MetaValueType::I32,
            values: values.iter().map(|value| MetaValue::I32(*value)).collect(),
        }),
    }
}

fn table(raw: &Raw) -> Metadata {
    let mut metadata = Metadata::new();
    for (key, value) in &raw.metadata {
        metadata.insert(key.clone(), meta_value(value));
    }
    metadata
}

fn verify(raw: &Raw) -> Result<VerifiedArtifact, String> {
    let mut tensors = Vec::new();
    let mut payloads = Vec::new();
    for tensor in &raw.tensors {
        tensors.push(TensorDescriptor {
            name: tensor.name.clone(),
            dims: tensor.dims.clone(),
            ggml_type: if tensor.format == 0 { GgmlType::F32 } else { GgmlType::Other(1) },
        });
        payloads.push(tensor.payload.clone());
    }
    let observation =
        ObservedArtifact { metadata: table(raw), tensors, digest: [7; 32], file_len: 4_096 };
    VerifiedArtifact::pair(observation, payloads)
        .ok_or_else(|| "every tensor needs its payload".to_string())
}

fn shown<T>(value: Result<T, Error>) -> Result<T, String> {
    value.map_err(|error| format!("{error:?}"))
}

fn bits(values: &[f32]) -> Vec<u32> {
    values.iter().map(|value| value.to_bits()).collect()
}

fn floats(values: &[u32]) -> Vec<f32> {
    values.iter().map(|value| f32::from_bits(*value)).collect()
}

fn matrix<'artifact>(
    artifact: &'artifact VerifiedArtifact,
    name: &str,
) -> Result<CheckedMatrix<'artifact>, Error> {
    let header = MatrixHeader::from_payload(artifact, name)?;
    header.with_row_bytes(header.input_width.checked_mul(4))
}

fn row_floats(bytes: &[u8]) -> Vec<f32> {
    bytes
        .chunks_exact(4)
        .map(|word| f32::from_le_bytes([word[0], word[1], word[2], word[3]]))
        .collect()
}

fn project(
    artifact: &VerifiedArtifact,
    name: &str,
    activations: &[f32],
) -> Result<Vec<f32>, Error> {
    let matrix = matrix(artifact, name)?;
    let mut rows = Vec::new();
    for index in 0..matrix.header.output_width {
        let row = row_floats(matrix.row_bytes(index)?);
        let dot: f32 = row.iter().zip(activations).map(|(left, right)| left * right).sum();
        rows.push(match row.iter().position(|value| !value.is_finite()) {
            Some(index) => Err(RowFault::NonFiniteWeight { index }),
            None if dot.is_finite() => Ok(dot.to_bits()),
            None => Err(RowFault::Unreadable),
        });
    }
    Ok(floats(&matrix.project(activations.len(), &rows)?))
}

fn rms_norm(values: &[f32], weight: &[f32], epsilon: f32) -> Vec<f32> {
    let mut output = Vec::new();
    for row in values.chunks_exact(weight.len()) {
        let mean = row.iter().map(|value| value * value).sum::<f32>() / weight.len() as f32;
        let scale = (mean + epsilon).sqrt().recip();
        output.extend(row.iter().zip(weight).map(|(value, weight)| value * scale * weight));
    }
    output
}

fn rotate(values: &mut [f32], position: usize, layout: Layout) {
    let base = f64::from(f32::from_bits(layout.rope_base));
    for head in values.chunks_exact_mut(layout.head_dim) {
        for pair in 0..layout.head_dim / 2 {
            let angle =
                position as f64 / base.powf(2.0 * pair as f64 / layout.head_dim as f64);
            let (left, right) = neox_pair(layout, pair);
            let (cosine, sine) = (angle.cos() as f32, angle.sin() as f32);
            let (low, high) = (head[left], head[right]);
            head[left] = low * cosine - high * sine;
            head[right] = low * sine + high * cosine;
        }
    }
}

fn attend(query: &[f32], keys: &[f32], values: &[f32], layout: Layout) -> Vec<f32> {
    let scale = (layout.head_dim as f32).sqrt().recip();
    let mut output = Vec::new();
    for head in 0..layout.heads {
        let offset = kv_head(layout, head) * layout.head_dim;
        let query = &query[head * layout.head_dim..(head + 1) * layout.head_dim];
        let scores: Vec<f32> = keys
            .chunks_exact(layout.kv_width)
            .map(|row| {
                let key = &row[offset..offset + layout.head_dim];
                query.iter().zip(key).map(|(left, right)| left * right).sum::<f32>() * scale
            })
            .collect();
        let max = scores.iter().copied().fold(f32::NEG_INFINITY, f32::max);
        let exponents: Vec<f32> = scores.iter().map(|score| (score - max).exp()).collect();
        let total: f32 = exponents.iter().sum();
        for lane in 0..layout.head_dim {
            let merged: f32 = exponents
                .iter()
                .zip(values.chunks_exact(layout.kv_width))
                .map(|(exponent, row)| exponent / total * row[offset + lane])
                .sum();
            output.push(merged);
        }
    }
    output
}

fn sums(left: &[u32], right: &[u32]) -> Vec<u32> {
    let sums: Vec<f32> = floats(left)
        .iter()
        .zip(floats(right))
        .map(|(left, right)| left + right)
        .collect();
    bits(&sums)
}

fn silu(value: f32) -> f32 {
    value / (1.0 + (-value).exp())
}

fn named(name: Option<String>) -> String {
    match name {
        Some(name) => name,
        None => unreachable!("the stage reads a stored tensor"),
    }
}

fn attention_inputs(
    artifact: &VerifiedArtifact,
    layout: Layout,
    pass: &Qwen3Pass,
    position: usize,
) -> Result<(Vec<u32>, Vec<u32>, Vec<u32>), Error> {
    let epsilon = f32::from_bits(layout.epsilon);
    let mut token = TokenPass::begin(pass);
    loop {
        let input = floats(token.input());
        let values = match token.stage() {
            TokenStage::Normalize => {
                let name = named(token.operand());
                let weight = read_f32_vector(artifact, &name, layout.hidden)?;
                rms_norm(&input, &floats(&weight), epsilon)
            }
            TokenStage::NormalizeQuery | TokenStage::NormalizeKey => {
                let name = named(token.operand());
                let weight = read_f32_vector(artifact, &name, layout.head_dim)?;
                rms_norm(&input, &floats(&weight), epsilon)
            }
            TokenStage::ProjectQuery | TokenStage::ProjectKey | TokenStage::ProjectValue => {
                project(artifact, &named(token.operand()), &input)?
            }
            TokenStage::RotateQuery | TokenStage::RotateKey => {
                assert!(token.operand().is_none());
                let mut values = input;
                rotate(&mut values, position, layout);
                values
            }
            TokenStage::Finished => {
                return Ok(token.into_parts());
            }
        };
        token = token.take(bits(&values))?;
    }
}

fn feed_forward(
    artifact: &VerifiedArtifact,
    layout: Layout,
    pass: &Qwen3Pass,
) -> Result<Vec<u32>, Error> {
    let epsilon = f32::from_bits(layout.epsilon);
    let mut token = FeedForwardPass::begin(pass);
    loop {
        let input = floats(token.input());
        let values: Vec<f32> = match token.stage() {
            FeedForwardStage::Normalize => {
                let name = named(token.operand());
                let weight = read_f32_vector(artifact, &name, layout.hidden)?;
                rms_norm(&input, &floats(&weight), epsilon)
            }
            FeedForwardStage::ProjectGate
            | FeedForwardStage::ProjectUp
            | FeedForwardStage::ProjectDown => {
                project(artifact, &named(token.operand()), &input)?
            }
            FeedForwardStage::Activate => input.iter().map(|value| silu(*value)).collect(),
            FeedForwardStage::Fuse => {
                let up = floats(token.factor());
                input.iter().zip(up).map(|(left, right)| left * right).collect()
            }
            FeedForwardStage::Finished => {
                return Ok(token.into_output());
            }
        };
        token = token.take(bits(&values))?;
    }
}

fn last_hidden(
    execution: &Qwen3Execution<'_, '_>,
    artifact: &VerifiedArtifact,
    tokens: &[u32],
) -> Result<Vec<f32>, Error> {
    Ok(hidden_rows(execution, artifact, tokens)?.1)
}

fn hidden_rows(
    execution: &Qwen3Execution<'_, '_>,
    artifact: &VerifiedArtifact,
    tokens: &[u32],
) -> Result<(Vec<u32>, Vec<f32>), Error> {
    let layout = execution.layout();
    let epsilon = f32::from_bits(layout.epsilon);
    let shape = execution.admit_tokens(tokens.len())?;
    let mut pass = execution.last_hidden(tokens)?;
    loop {
        pass = match pass.stage() {
            PassStage::Embed { .. } => {
                let name = named(pass.matrix_name());
                let row = row_floats(matrix(artifact, &name)?.row_bytes(pass.embedding_row())?);
                pass.embed(&bits(&row))?
            }
            PassStage::OpenBlock { .. } => pass.open_block(BlockStorage::try_reserve(&shape)?),
            PassStage::Project { token, .. } => {
                let (query, key, value) = attention_inputs(artifact, layout, &pass, token)?;
                pass.project(query, &key, &value)?
            }
            PassStage::Attend { .. } => {
                let (query, keys, values) = pass.attention();
                let merged = attend(&floats(query), &floats(keys), &floats(values), layout);
                let output = project(artifact, &named(pass.matrix_name()), &merged)?;
                pass.attend(&bits(&output))
            }
            PassStage::AddAttention { .. } => {
                let rows = sums(pass.hidden(), pass.residual());
                pass.add_attention(rows)?
            }
            PassStage::OpenFeedForward { .. } => {
                pass.open_feed_forward(reserve("FFN residual", shape.hidden_rows)?)
            }
            PassStage::FeedForward { .. } => {
                let output = feed_forward(artifact, layout, &pass)?;
                pass.feed_forward(&output)
            }
            PassStage::AddFeedForward { .. } => {
                let rows = sums(pass.hidden(), pass.residual());
                pass.add_feed_forward(rows)?
            }
            PassStage::Normalize => {
                let weight = read_f32_vector(artifact, OUTPUT_NORM, layout.hidden)?;
                let rows = rms_norm(&floats(pass.hidden()), &floats(&weight), epsilon);
                pass.normalize(&bits(&rows), reserve("final hidden row", layout.hidden)?)?
            }
            PassStage::Finished => {
                let rows = pass.hidden().to_vec();
                return Ok((rows, floats(&pass.into_last_row())));
            }
        };
    }
}

#[test]
fn passes_repeat_and_rows_are_causal() -> Result<(), String> {
    let artifact = verify(&fixture())?;
    let weights = shown(Qwen3Weights::try_from_verified(&artifact))?;
    let execution = shown(weights.execution(TEST_CONTEXT as usize))?;
    let (first, row) = shown(hidden_rows(&execution, &artifact, &[0, 1, 2]))?;
    assert!(hidden_rows(&execution, &artifact, &[9]).is_err());
    let (other, other_row) = shown(hidden_rows(&execution, &artifact, &[0, 1, 3]))?;
    let (again, row_again) = shown(hidden_rows(&execution, &artifact, &[0, 1, 2]))?;
    assert_eq!(bits(&row), bits(&row_again));
    assert_eq!(first, again);
    let width = TEST_HIDDEN as usize;
    assert_eq!(first[..2 * width], other[..2 * width]);
    assert_ne!(first[2 * width..], other[2 * width..]);
    assert_ne!(row, other_row);
    Ok(())
}

#[test]
fn token_stages_name_their_operands() -> Result<(), String> {
    let artifact = verify(&fixture())?;
    let weights = shown(Qwen3Weights::try_from_verified(&artifact))?;
    let execution = shown(weights.execution(2))?;
    let shape = shown(execution.admit_tokens(1))?;
    let mut pass = shown(execution.last_hidden(&[2]))?;
    assert_eq!(pass.matrix_name(), Some(TOKEN_EMBEDDING.to_string()));
    assert_eq!(pass.embedding_row(), 2);
    pass = shown(pass.embed(&[7, 8, 9]))?;
    pass = pass.open_block(shown(BlockStorage::try_reserve(&shape))?);
    let mut token = TokenPass::begin(&pass);
    assert_eq!(token.input(), [7, 8, 9]);
    let mut names = Vec::new();
    let mut next = 0;
    while token.stage() != TokenStage::Finished {
        names.push(token.operand());
        token = shown(token.take(vec![next]))?;
        next += 1;
    }
    let named = |role: &str| Some(format!("blk.0.{role}.weight"));
    assert_eq!(
        names,
        vec![
            named("attn_norm"),
            named("attn_q"),
            named("attn_k"),
            named("attn_v"),
            named("attn_q_norm"),
            named("attn_k_norm"),
            None,
            None,
        ]
    );
    assert_eq!(token.into_parts(), (vec![6], vec![7], vec![3]));
    let norms = shown(read_attention_norms(&artifact, 0, execution.layout()))?;
    assert_eq!(norms.hidden.len(), TEST_HIDDEN as usize);
    let start = row(pass.hidden(), 0, 3).map(|row| row.to_vec());
    assert_eq!(shown(start)?, vec![7, 8, 9]);
    let mut rotating = TokenPass::begin(&pass);
    while rotating.stage() != TokenStage::RotateKey {
        rotating = shown(rotating.take(vec![0]))?;
    }
    assert!(matches!(
        rotating.take(vec![0, f32::NAN.to_bits()]),
        Err(Error::Qwen3Arithmetic { stage: "NeoX RoPE", index: 1 })
    ));
    Ok(())
}

#[test]
fn feed_forward_stages_name_their_operands() -> Result<(), String> {
    let artifact = verify(&fixture())?;
    let weights = shown(Qwen3Weights::try_from_verified(&artifact))?;
    let execution = shown(weights.execution(2))?;
    let shape = shown(execution.admit_tokens(1))?;
    let mut pass = shown(shown(execution.last_hidden(&[2]))?.embed(&[0, 0, 0]))?;
    pass = pass.open_block(shown(BlockStorage::try_reserve(&shape))?);
    pass = shown(pass.project(vec![0; 4], &[0; 2], &[0; 2]))?;
    assert_eq!(pass.matrix_name(), Some("blk.0.attn_output.weight".to_string()));
    pass = pass.attend(&[0; 3]);
    pass = shown(pass.add_attention(vec![4, 5, 6]))?;
    pass = pass.open_feed_forward(shown(reserve("FFN residual", 3))?);
    let mut token = FeedForwardPass::begin(&pass);
    let mut names = Vec::new();
    let mut inputs = Vec::new();
    let mut next = 10;
    while token.stage() != FeedForwardStage::Finished {
        names.push(token.operand());
        inputs.push(token.input().to_vec());
        token = shown(token.take(vec![next]))?;
        next += 1;
    }
    let named = |role: &str| Some(format!("blk.0.{role}.weight"));
    assert_eq!(
        names,
        vec![
            named("ffn_norm"),
            named("ffn_gate"),
            None,
            named("ffn_up"),
            None,
            named("ffn_down"),
        ]
    );
    assert_eq!(
        inputs,
        vec![vec![4, 5, 6], vec![10], vec![11], vec![10], vec![12], vec![14]]
    );
    assert_eq!(token.factor(), [13]);
    assert_eq!(token.into_output(), vec![15]);
    Ok(())
}

#[test]
fn executes_an_asymmetric_causal_fixture_to_a_final_hidden_row() -> Result<(), String> {
    let artifact = verify(&fixture())?;
    let weights = shown(Qwen3Weights::try_from_verified(&artifact))?;
    let execution = shown(weights.execution(TEST_CONTEXT as usize))?;
    let one = shown(last_hidden(&execution, &artifact, &[0]))?;
    let two = shown(last_hidden(&execution, &artifact, &[0, 1]))?;
    if one.len() != TEST_HIDDEN as usize {
        return Err("one-token result did not retain the hidden width".to_string());
    }
    if !two.iter().all(|value| value.is_finite()) {
        return Err("final hidden row was not finite".to_string());
    }
    if one == two {
        return Err("causal fixture did not distinguish its final token row".to_string());
    }
    Ok(())
}

#[test]
fn reports_the_executor_admitted_context_and_returned_hidden_vector() -> Result<(), String> {
    let artifact = verify(&fixture())?;
    let weights = shown(Qwen3Weights::try_from_verified(&artifact))?;
    let execution = shown(weights.execution(2))?;
    let observation = artifact.observation();
    let requirements = shown(execution.cpu_requirements())?;
    let repeated = shown(execution.cpu_requirements())?;
    assert_eq!(format!("{requirements:?}"), format!("{repeated:?}"));
    assert_eq!(requirements.max_context, 2);
    assert_eq!(requirements.artifact_digest, observation.digest);
    assert_eq!(requirements.serialized_backing_bytes, observation.file_len);
    let hidden = shown(last_hidden(&execution, &artifact, &[0, 1]))?;
    let returned_bytes = std::mem::size_of_val(hidden.as_slice()) as u64;
    assert_eq!(requirements.returned_output_bytes, returned_bytes);
    assert_ne!(requirements.workspace_upper_bound_bytes, 0);
    assert_eq!(
        requirements.logical_f32_upper_bound_bytes,
        requirements.workspace_upper_bound_bytes + requirements.returned_output_bytes
    );
    Ok(())
}

#[test]
fn rejects_an_output_head_outside_the_embedding_profile() -> Result<(), String> {
    let mut raw = fixture();
    raw.tensors.push(tensor("output.weight", vec![TEST_HIDDEN, TEST_VOCABULARY], 0.5));
    let artifact = verify(&raw)?;
    if Qwen3Weights::try_from_verified(&artifact).is_ok() {
        return Err("bounded embedding profile accepted output.weight".to_string());
    }
    Ok(())
}

#[test]
fn refuses_a_general_pooling_key_without_the_qwen3_contract_key() -> Result<(), String> {
    let mut raw = fixture();
    remove(&mut raw, POOLING_TYPE);
    push(&mut raw, "general.pooling_type", RawValue::U32(3));
    let artifact = verify(&raw)?;
    if Qwen3Weights::try_from_verified(&artifact).is_ok() {
        return Err("general pooling metadata substituted for qwen3 pooling metadata".to_string());
    }
    Ok(())
}

#[derive(Clone, Copy)]
enum Expected {
    Metadata(&'static str),
    Tensor(&'static str),
}

fn check_case(name: &str, error: Error, expected: Expected) {
    let accepted = match expected {
        Expected::Metadata(key) => {
            matches!(error, Error::Qwen3Metadata { key: actual, .. } if actual == key)
        }
        Expected::Tensor(tensor) => {
            matches!(error, Error::Qwen3Tensor { name: ref actual, .. } if actual == tensor)
        }
    };
    assert!(accepted, "{name} returned the wrong typed profile error: {error:?}");
}

fn check_profile(name: &str, mutate: fn(&mut Raw), expected: Expected) -> Result<(), String> {
    let mut raw = fixture();
    mutate(&mut raw);
    let artifact = verify(&raw)?;
    match Qwen3Weights::try_from_verified(&artifact) {
        Ok(_) => Err(format!("{name} was accepted")),
        Err(error) => {
            check_case(name, error, expected);
            Ok(())
        }
    }
}

fn check_rank_profile(name: &str, mutate: fn(&mut Raw), expected: Expected) -> Result<(), String> {
    let mut raw = rank_fixture();
    mutate(&mut raw);
    let artifact = verify(&raw)?;
    match Qwen3RankWeights::try_from_verified(&artifact) {
        Ok(_) => Err(format!("rank {name} was accepted")),
        Err(error) => {
            check_case(name, error, expected);
            Ok(())
        }
    }
}

fn nonneutral_current_rope_scaling(raw: &mut Raw) {
    push(raw, ROPE_SCALING_FACTOR, RawValue::F32(2.0));
}

fn remove_down_projection(raw: &mut Raw) {
    raw.tensors.retain(|tensor| tensor.name != "blk.0.ffn_down.weight");
}

fn noncausal(raw: &mut Raw) {
    push(raw, CAUSAL, RawValue::Bool(false));
}

#[test]
fn rejects_each_strict_metadata_contract_witness() -> Result<(), String> {
    check_profile(
        "missing required hidden width",
        |raw| remove(raw, HIDDEN),
        Expected::Metadata(HIDDEN),
    )?;
    check_profile(
        "mistyped hidden width",
        |raw| replace(raw, HIDDEN, RawValue::F32(3.0)),
        Expected::Metadata(HIDDEN),
    )?;
    check_profile("explicit noncausal", noncausal, Expected::Metadata(CAUSAL))?;
    check_profile(
        "unknown rope scaling",
        |raw| push(raw, ROPE_SCALING_TYPE, RawValue::Text("dynamic".to_string())),
        Expected::Metadata(ROPE_SCALING_TYPE),
    )?;
    check_profile(
        "nonneutral legacy rope scaling",
        |raw| push(raw, ROPE_LEGACY_LINEAR_SCALE, RawValue::F32(2.0)),
        Expected::Metadata(ROPE_LEGACY_LINEAR_SCALE),
    )?;
    check_profile(
        "nonneutral current rope scaling",
        nonneutral_current_rope_scaling,
        Expected::Metadata(ROPE_SCALING_FACTOR),
    )?;
    check_profile(
        "nonneutral RoPE attention scaling",
        |raw| push(raw, ROPE_SCALING_ATTENTION_FACTOR, RawValue::F32(2.0)),
        Expected::Metadata(ROPE_SCALING_ATTENTION_FACTOR),
    )?;
    check_profile(
        "uneven Q/KV heads",
        |raw| {
            replace(raw, HEADS, RawValue::U32(3));
            replace(raw, KV_HEADS, RawValue::U32(2));
        },
        Expected::Metadata(HEADS),
    )?;
    check_profile(
        "unequal K/V widths",
        |raw| replace(raw, VALUE_LENGTH, RawValue::U32(1)),
        Expected::Metadata(VALUE_LENGTH),
    )?;
    check_profile(
        "partial rotary width",
        |raw| replace(raw, ROPE_DIMENSION, RawValue::U32(1)),
        Expected::Metadata(ROPE_DIMENSION),
    )
}

#[test]
fn accepts_source_neutral_rope_scaling_precedence() -> Result<(), String> {
    let cases: [fn(&mut Raw); 3] = [
        |raw| {
            push(raw, ROPE_SCALING_TYPE, RawValue::Text("none".to_string()));
            push(raw, ROPE_SCALING_FACTOR, RawValue::F32(2.0));
            push(raw, ROPE_LEGACY_LINEAR_SCALE, RawValue::F32(2.0));
        },
        |raw| {
            push(raw, ROPE_SCALING_FACTOR, RawValue::F32(0.0));
            push(raw, ROPE_LEGACY_LINEAR_SCALE, RawValue::F32(2.0));
        },
        |raw| push(raw, ROPE_LEGACY_LINEAR_SCALE, RawValue::F32(1.0)),
    ];
    for mutate in cases {
        let mut raw = fixture();
        mutate(&mut raw);
        let artifact = verify(&raw)?;
        shown(Qwen3Weights::try_from_verified(&artifact))?;
    }
    Ok(())
}

#[test]
fn rejects_each_strict_tensor_contract_witness() -> Result<(), String> {
    check_profile(
        "missing required tensor",
        remove_down_projection,
        Expected::Tensor("inventory"),
    )?;
    check_profile(
        "extra output tensor",
        |raw| {
            raw.tensors.push(zero_tensor("output.weight", vec![TEST_HIDDEN, TEST_VOCABULARY], 48));
        },
        Expected::Tensor("inventory"),
    )?;
    check_profile(
        "wrong matrix shape",
        |raw| replace_dims(raw, "blk.0.attn_q.weight", &[TEST_HIDDEN, TEST_HEAD_DIM]),
        Expected::Tensor("blk.0.attn_q.weight"),
    )?;
    check_profile(
        "wrong matrix dtype",
        |raw| as_half_precision(raw, "blk.0.attn_q.weight", 24),
        Expected::Tensor("blk.0.attn_q.weight"),
    )?;
    check_profile(
        "wrong norm dtype",
        |raw| as_half_precision(raw, OUTPUT_NORM, 6),
        Expected::Tensor("output_norm.weight"),
    )
}

#[test]
fn rejects_invalid_execution_requests_and_token_ids() -> Result<(), String> {
    let artifact = verify(&fixture())?;
    let weights = shown(Qwen3Weights::try_from_verified(&artifact))?;
    for requested in [0, TEST_CONTEXT as usize + 1] {
        if !matches!(weights.execution(requested), Err(Error::Qwen3Execution { .. })) {
            return Err("invalid maximum context did not return Qwen3Execution".to_string());
        }
    }
    let execution = shown(weights.execution(TEST_CONTEXT as usize))?;
    for tokens in [&[][..], &[0, 1, 2, 3, 0][..]] {
        if !matches!(execution.last_hidden(tokens), Err(Error::Qwen3Execution { .. })) {
            return Err("empty or over-context token IDs did not return Qwen3Execution".to_string());
        }
    }
    if !matches!(
        last_hidden(&execution, &artifact, &[TEST_VOCABULARY as u32]),
        Err(Error::ProjectionInputWidth { expected: 4, actual: 4, .. })
    ) {
        return Err(
            "out-of-vocabulary token ID did not preserve checked matrix bounds error".to_string(),
        );
    }
    Ok(())
}

#[test]
fn rejects_late_nonfinite_weights_without_poisoning_a_pristine_retry() -> Result<(), String> {
    let mut malformed = fixture();
    for tensor in &mut malformed.tensors {
        if tensor.name == "blk.0.ffn_down.weight" {
            tensor.payload[..4].copy_from_slice(&f32::NAN.to_le_bytes());
        }
    }
    let bad_artifact = verify(&malformed)?;
    let bad_weights = shown(Qwen3Weights::try_from_verified(&bad_artifact))?;
    let bad_execution = shown(bad_weights.execution(TEST_CONTEXT as usize))?;
    if !matches!(
        last_hidden(&bad_execution, &bad_artifact, &[0]),
        Err(Error::ProjectionRow { row: 0, .. })
    ) {
        return Err("late nonfinite FFN weight did not preserve checked-row refusal".to_string());
    }
    let artifact = verify(&fixture())?;
    let weights = shown(Qwen3Weights::try_from_verified(&artifact))?;
    let execution = shown(weights.execution(TEST_CONTEXT as usize))?;
    let result = shown(last_hidden(&execution, &artifact, &[0]))?;
    if !result.iter().all(|value| value.is_finite()) {
        return Err("pristine executor retry produced a nonfinite hidden row".to_string());
    }
    Ok(())
}

#[test]
fn rejects_rank_profile_metadata_and_inventory_deviations() -> Result<(), String> {
    check_rank_profile(
        "embedding pool",
        |raw| replace(raw, POOLING_TYPE, RawValue::U32(3)),
        Expected::Metadata(POOLING_TYPE),
    )?;
    check_rank_profile(
        "missing labels",
        |raw| remove(raw, RANK_LABELS_KEY),
        Expected::Metadata(RANK_LABELS_KEY),
    )?;
    check_rank_profile(
        "typed labels",
        |raw| replace(raw, RANK_LABELS_KEY, RawValue::I32Array(vec![1, 2])),
        Expected::Metadata(RANK_LABELS_KEY),
    )?;
    check_rank_profile(
        "reversed labels",
        |raw| replace(raw, RANK_LABELS_KEY, texts(&["no", "yes"])),
        Expected::Metadata(RANK_LABELS_KEY),
    )?;
    check_rank_profile(
        "wrong labels",
        |raw| replace(raw, RANK_LABELS_KEY, texts(&["yes", "maybe"])),
        Expected::Metadata(RANK_LABELS_KEY),
    )?;
    check_rank_profile(
        "extra label",
        |raw| replace(raw, RANK_LABELS_KEY, texts(&["yes", "no", "maybe"])),
        Expected::Metadata(RANK_LABELS_KEY),
    )?;
    check_rank_profile(
        "missing head",
        |raw| raw.tensors.retain(|tensor| tensor.name != RANK_HEAD),
        Expected::Tensor("inventory"),
    )?;
    check_rank_profile(
        "wrong head shape",
        |raw| replace_dims(raw, RANK_HEAD, &[TEST_HIDDEN, 1]),
        Expected::Tensor(RANK_HEAD),
    )?;
    check_rank_profile(
        "wrong head dtype",
        |raw| as_half_precision(raw, RANK_HEAD, 12),
        Expected::Tensor(RANK_HEAD),
    )?;
    check_rank_profile(
        "extra classifier bias",
        |raw| raw.tensors.push(zero_tensor("cls.output.bias", vec![2], 8)),
        Expected::Tensor("inventory"),
    )?;
    check_rank_profile(
        "extra language head",
        |raw| {
            raw.tensors.push(zero_tensor("output.weight", vec![TEST_HIDDEN, TEST_VOCABULARY], 48));
        },
        Expected::Tensor("inventory"),
    )?;
    check_rank_profile(
        "missing trunk tensor",
        remove_down_projection,
        Expected::Tensor("inventory"),
    )?;
    check_rank_profile("noncausal", noncausal, Expected::Metadata(CAUSAL))?;
    check_rank_profile(
        "nonneutral rope scaling",
        nonneutral_current_rope_scaling,
        Expected::Metadata(ROPE_SCALING_FACTOR),
    )
}

#[test]
fn embedding_profile_refuses_an_otherwise_valid_rank_artifact() -> Result<(), String> {
    let artifact = verify(&rank_fixture())?;
    if !matches!(
        Qwen3Weights::try_from_verified(&artifact),
        Err(Error::Qwen3Metadata { key: POOLING_TYPE, .. })
    ) {
        return Err("embedding profile accepted a valid rank artifact".to_string());
    }
    Ok(())
}

#[test]
fn a_rank_artifact_keeps_its_geometry() -> Result<(), String> {
    let artifact = verify(&rank_fixture())?;
    let weights = shown(Qwen3RankWeights::try_from_verified(&artifact))?;
    assert_eq!(weights.hidden_width(), TEST_HIDDEN as usize);
    assert_eq!(weights.max_context(), TEST_CONTEXT as usize);
    Ok(())
}

#[test]
fn a_pass_reserves_its_derived_extents() -> Result<(), String> {
    let artifact = verify(&fixture())?;
    let weights = shown(Qwen3Weights::try_from_verified(&artifact))?;
    assert_eq!(weights.hidden_width(), 3);
    assert_eq!(weights.max_context(), 4);
    let execution = shown(weights.execution(4))?;
    assert_eq!(execution.admitted_max_context(), 4);
    let shape = shown(execution.allocation_shape(3))?;
    assert_eq!(shape.hidden_rows, 9);
    assert_eq!(shape.key_cache, 6);
    assert_eq!(shape.value_cache, 6);
    assert_eq!(shape.q_width, 4);
    assert_eq!(shape.kv_width, 2);
    assert!(matches!(
        execution.allocation_shape(usize::MAX),
        Err(Error::Qwen3Execution { requested: usize::MAX, .. })
    ));
    Ok(())
}

#[test]
fn a_block_returns_its_first_refused_buffer() -> Result<(), String> {
    let artifact = verify(&fixture())?;
    let weights = shown(Qwen3Weights::try_from_verified(&artifact))?;
    let shape = shown(shown(weights.execution(4))?.allocation_shape(3))?;
    assert!(matches!(
        reserve("hidden rows", usize::MAX),
        Err(Error::Qwen3Allocation { target: "hidden rows", length: usize::MAX, .. })
    ));
    let mut residual = shape;
    residual.hidden_rows = usize::MAX;
    assert!(matches!(
        BlockStorage::try_reserve(&residual),
        Err(Error::Qwen3Allocation { target: "attention residual", length: usize::MAX, .. })
    ));
    let mut value = residual;
    value.value_cache = usize::MAX;
    assert!(matches!(
        BlockStorage::try_reserve(&value),
        Err(Error::Qwen3Allocation { target: "causal value cache", length: usize::MAX, .. })
    ));
    let mut key = value;
    key.key_cache = usize::MAX;
    assert!(matches!(
        BlockStorage::try_reserve(&key),
        Err(Error::Qwen3Allocation { target: "causal key cache", length: usize::MAX, .. })
    ));
    Ok(())
}

#[test]
fn a_pass_refuses_rows_that_do_not_fit() -> Result<(), String> {
    let artifact = verify(&fixture())?;
    let weights = shown(Qwen3Weights::try_from_verified(&artifact))?;
    let execution = shown(weights.execution(4))?;
    let shape = shown(execution.admit_tokens(1))?;
    let pass = shown(execution.last_hidden(&[2]))?;
    assert!(matches!(pass.embed(&[0, 0]), Err(Error::Qwen3Execution { requested: 2, .. })));
    let pass = shown(execution.last_hidden(&[2]))?;
    let pass = shown(pass.embed(&[0, 0, 0]))?;
    assert_eq!(pass.stage(), PassStage::OpenBlock { block: 0 });
    let pass = pass.open_block(shown(BlockStorage::try_reserve(&shape))?);
    assert_eq!(pass.stage(), PassStage::Project { block: 0, token: 0 });
    let nan = f32::NAN.to_bits();
    assert!(matches!(
        pass.project(vec![0; 4], &[0, nan], &[0, 0]),
        Err(Error::Qwen3Arithmetic { stage: "key cache", index: 1 })
    ));
    Ok(())
}

#[test]
fn later_positions_are_out_of_sight() -> Result<(), String> {
    let artifact = verify(&fixture())?;
    let weights = shown(Qwen3Weights::try_from_verified(&artifact))?;
    let execution = shown(weights.execution(4))?;
    let shape = shown(execution.admit_tokens(2))?;
    let mut pass = shown(execution.last_hidden(&[0, 1]))?;
    pass = shown(pass.embed(&[0; 3]))?;
    pass = shown(pass.embed(&[0; 3]))?;
    pass = pass.open_block(shown(BlockStorage::try_reserve(&shape))?);
    pass = shown(pass.project(vec![5; 4], &[1, 2], &[3, 4]))?;
    assert_eq!(pass.attention(), (&[5, 5, 5, 5][..], &[1, 2][..], &[3, 4][..]));
    pass = pass.attend(&[0; 3]);
    pass = shown(pass.project(vec![6; 4], &[7, 8], &[9, 10]))?;
    assert_eq!(
        pass.attention(),
        (&[6, 6, 6, 6][..], &[1, 2, 7, 8][..], &[3, 4, 9, 10][..])
    );
    Ok(())
}

#[test]
fn residual_sums_have_as_many_finite_values_as_rows() -> Result<(), String> {
    let artifact = verify(&fixture())?;
    let weights = shown(Qwen3Weights::try_from_verified(&artifact))?;
    let execution = shown(weights.execution(4))?;
    let shape = shown(execution.admit_tokens(1))?;
    let infinity = f32::INFINITY.to_bits();
    for (rows, refused) in [(vec![0; 2], true), (vec![0, infinity, 0], true), (vec![0; 3], false)] {
        let mut pass = shown(execution.last_hidden(&[0]))?;
        pass = shown(pass.embed(&[0; 3]))?;
        pass = pass.open_block(shown(BlockStorage::try_reserve(&shape))?);
        pass = shown(pass.project(vec![0; 4], &[0; 2], &[0; 2]))?;
        pass = pass.attend(&[0; 3]);
        assert_eq!(pass.add_attention(rows).is_err(), refused);
    }
    Ok(())
}

#[test]
fn the_final_row_must_be_finite_and_complete() -> Result<(), String> {
    let artifact = verify(&fixture())?;
    let weights = shown(Qwen3Weights::try_from_verified(&artifact))?;
    let execution = shown(weights.execution(4))?;
    let shape = shown(execution.admit_tokens(1))?;
    let nan = f32::NAN.to_bits();
    for (rows, accepted) in [(vec![1, 2, 3], true), (vec![1, nan, 3], false), (vec![1, 2], false)] {
        let mut pass = shown(execution.last_hidden(&[0]))?;
        pass = shown(pass.embed(&[0; 3]))?;
        pass = pass.open_block(shown(BlockStorage::try_reserve(&shape))?);
        pass = shown(pass.project(vec![0; 4], &[0; 2], &[0; 2]))?;
        pass = pass.attend(&[0; 3]);
        pass = shown(pass.add_attention(vec![0; 3]))?;
        pass = pass.open_feed_forward(Vec::new());
        pass = pass.feed_forward(&[0; 3]);
        pass = shown(pass.add_feed_forward(vec![0; 3]))?;
        assert_eq!(pass.stage(), PassStage::Normalize);
        match pass.normalize(&rows, Vec::new()) {
            Ok(pass) => {
                assert!(accepted);
                assert_eq!(pass.into_last_row(), rows);
            }
            Err(_) => assert!(!accepted),
        }
    }
    Ok(())
}

#[test]
fn query_heads_share_key_value_heads_in_groups() -> Result<(), String> {
    let artifact = verify(&fixture())?;
    let weights = shown(Qwen3Weights::try_from_verified(&artifact))?;
    let execution = shown(weights.execution(4))?;
    let layout = Layout { heads: 6, kv_heads: 3, head_dim: 8, ..execution.layout() };
    let shared: Vec<usize> = (0..6).map(|head| kv_head(layout, head)).collect();
    assert_eq!(shared, vec![0, 0, 1, 1, 2, 2]);
    assert_eq!(neox_pair(layout, 0), (0, 4));
    assert_eq!(neox_pair(layout, 3), (3, 7));
    Ok(())
}

#[test]
fn block_names_split_and_classify() {
    let roles = decoders::qwen3::Qwen3Profile::Embedding.profile_roles();
    assert_eq!(block_name(12, "attn_q.weight"), "blk.12.attn_q.weight");
    assert_eq!(split_block_name("blk.12.attn_q.weight"), Some(("12", "attn_q.weight")));
    assert_eq!(split_block_name("output_norm.weight"), None);
    let role = role_for_name("blk.1.attn_norm.weight", 2, &roles);
    assert!(matches!(role.map(|role| role.storage), Some(Storage::F32Vector)));
    assert!(role_for_name("blk.2.attn_norm.weight", 2, &roles).is_none());
    assert!(role_for_name("blk.1.unknown.weight", 2, &roles).is_none());
    assert!(role_for_name(RANK_HEAD, 2, &roles).is_none());
}

#[test]
fn duplicate_tensor_names_are_refused() -> Result<(), String> {
    let mut raw = fixture();
    raw.tensors.push(tensor(OUTPUT_NORM, vec![TEST_HIDDEN], 1.0));
    let artifact = verify(&raw)?;
    assert!(matches!(
        Qwen3Weights::try_from_verified(&artifact),
        Err(Error::Qwen3Tensor { .. })
    ));
    Ok(())
}

#[test]
fn metadata_readers_check_type_and_value() {
    let raw = fixture();
    let metadata = table(&raw);
    assert!(require_string(&metadata, ARCHITECTURE, "qwen3").is_ok());
    assert!(matches!(
        require_string(&metadata, ARCHITECTURE, "llama"),
        Err(Error::Qwen3Metadata { key: ARCHITECTURE, .. })
    ));
    assert!(matches!(positive(&metadata, HIDDEN), Ok(3)));
    assert!(matches!(vocabulary(&metadata), Ok(4)));
    assert!(matches!(require_f32(&metadata, RMS_EPSILON), Ok(bits) if bits == 0.001_f32.to_bits()));
    assert!(matches!(
        require_f32(&metadata, HIDDEN),
        Err(Error::Qwen3Metadata { key: HIDDEN, .. })
    ));
}

#[test]
fn the_first_nonfinite_value_is_named() {
    let values = [0, f32::MAX.to_bits(), f32::NEG_INFINITY.to_bits(), f32::NAN.to_bits()];
    assert!(matches!(
        finite(&values, "stage"),
        Err(Error::Qwen3Arithmetic { stage: "stage", index: 2 })
    ));
    assert!(finite(&values[..2], "stage").is_ok());
    assert!(finite_one(values[3], "one", 9).is_err());
}
