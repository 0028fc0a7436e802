//! The order, buffers, and checks of one Qwen3 causal pass.
//!
//! A kernel computes the values; the pass says which values come next, keeps
//! them in checked buffers, and yields the last normalized row.

use crate::allocation;
use crate::error::Error;
use crate::float_bits;
use crate::float_bits::is_finite;
use crate::gguf;
use crate::gguf::{read_word, GgmlType, VerifiedArtifact, VerifiedTensor};
use crate::payload;
use crate::qwen3::{block_name, product, Layout, Qwen3Profile};
use crate::qwen35_execution;
use crate::qwen3;
use crate::qwen3_execution;
use crate::qwen3_execution::{Qwen3AllocationShape, Qwen3Execution};
use crate::qwen3_inventory;
use crate::text;
use vstd::prelude::*;
use vstd::slice::slice_subrange;

verus! {

/// Require one value to be finite.
pub fn finite_one(bits: u32, stage: &'static str, index: usize) -> (checked: Result<(), Error>)
    ensures
        match checked {
            Ok(_) => float_bits::finite(bits),
            Err(error) => !float_bits::finite(bits) && error == (Error::Qwen3Arithmetic {
                stage,
                index,
            }),
        },
{
    if is_finite(bits) {
        Ok(())
    } else {
        Err(Error::Qwen3Arithmetic { stage, index })
    }
}

/// Whether an error names the first value that is not finite.
pub open spec fn nonfinite_error(values: Seq<u32>, stage: &'static str, error: Error) -> bool {
    error matches Error::Qwen3Arithmetic { stage: at, index } && at == stage
        && qwen35_execution::first_nonfinite(values, index as int)
}

/// Require every value to be finite.
pub fn finite(values: &[u32], stage: &'static str) -> (checked: Result<(), Error>)
    ensures
        match checked {
            Ok(_) => qwen35_execution::all_finite(values@),
            Err(error) => {
                &&& !qwen35_execution::all_finite(values@)
                &&& nonfinite_error(values@, stage, error)
            },
        },
{
    let mut i: usize = 0;
    while i < values.len()
        invariant
            0 <= i <= values.len(),
            forall|j: int| 0 <= j < i ==> float_bits::finite(#[trigger] values@[j]),
        decreases values.len() - i,
    {
        finite_one(values[i], stage, i)?;
        i = i + 1;
    }
    Ok(())
}

/// Whether room for a number of four-byte values stays within `isize::MAX` bytes, the
/// most that one allocation can hold.
pub open spec fn room_fits(length: int) -> bool {
    4 * length <= isize::MAX
}

/// Allocate an empty buffer with room for `length` values, or refuse.
///
/// No room is always granted, and room that exceeds `isize::MAX` bytes is always
/// refused; in between the allocator decides.
pub fn reserve(target: &'static str, length: usize) -> (values: Result<Vec<u32>, Error>)
    ensures
        match values {
            Ok(values) => values@.len() == 0 && room_fits(length as int),
            Err(error) => length > 0 && error.qwen3_allocation(target, length),
        },
{
    allocation::qwen3_room(allocation::allocate(length), target, length)
}

/// Borrow one row of a buffer of rows.
pub fn row<T>(values: &[T], index: usize, width: usize) -> (row: Result<&[T], Error>)
    requires
        index * width > usize::MAX || index * width + width <= usize::MAX,
    ensures
        match row {
            Ok(row) => {
                &&& index * width + width <= values@.len()
                &&& row@ == values@.subrange(index * width, index * width + width)
            },
            Err(error) => if index * width > usize::MAX {
                Some(error) == qwen3::overflow_failure(index)
            } else {
                &&& index * width + width > values@.len()
                &&& error == (Error::Qwen3Execution {
                    requested: index,
                    rule: "row must fit its checked buffer",
                })
            },
        },
{
    let start: usize = product(index, width)?;
    let end: usize = start + width;
    if end > values.len() {
        return Err(
            Error::Qwen3Execution { requested: index, rule: "row must fit its checked buffer" },
        );
    }
    proof {
        assert(0 <= index * width) by (nonlinear_arith)
            requires
                index >= 0,
                width >= 0,
        ;
    }
    Ok(slice_subrange(values, start, end))
}

/// A buffer with a range of its values replaced.
pub open spec fn spliced(destination: Seq<u32>, start: int, source: Seq<u32>) -> Seq<u32> {
    Seq::new(
        destination.len(),
        |i: int|
            if start <= i < start + source.len() {
                source[i - start]
            } else {
                destination[i]
            },
    )
}

/// Copy values into a range of a buffer, and require them to be finite. Values
/// that are not finite are copied and refused.
pub fn copy_into(
    destination: &mut Vec<u32>,
    start: usize,
    source: &[u32],
    target: &'static str,
) -> (copied: Result<(), Error>)
    ensures
        if start + source@.len() > usize::MAX {
            &&& final(destination)@ == old(destination)@
            &&& copied == Err::<(), Error>(
                Error::Qwen3Execution { requested: start, rule: "copy range overflowed" },
            )
        } else if start + source@.len() > old(destination)@.len() {
            &&& final(destination)@ == old(destination)@
            &&& copied == Err::<(), Error>(
                Error::Qwen3Execution {
                    requested: start,
                    rule: "copy range must fit its checked buffer",
                },
            )
        } else {
            &&& final(destination)@ == spliced(old(destination)@, start as int, source@)
            &&& match copied {
                Ok(_) => qwen35_execution::all_finite(source@),
                Err(error) => {
                    &&& !qwen35_execution::all_finite(source@)
                    &&& nonfinite_error(source@, target, error)
                },
            }
        },
{
    let length: usize = source.len();
    let end: usize = match start.checked_add(length) {
        Some(end) => end,
        None => {
            return Err(Error::Qwen3Execution { requested: start, rule: "copy range overflowed" });
        },
    };
    if end > destination.len() {
        return Err(
            Error::Qwen3Execution {
                requested: start,
                rule: "copy range must fit its checked buffer",
            },
        );
    }
    let mut i: usize = 0;
    while i < length
        invariant
            0 <= i <= length,
            length == source@.len(),
            start + length == end,
            end <= destination@.len(),
            destination@.len() == old(destination)@.len(),
            destination@ =~= spliced(old(destination)@, start as int, source@.take(i as int)),
        decreases length - i,
    {
        destination.set(start + i, source[i]);
        i = i + 1;
    }
    assert(source@.take(length as int) =~= source@);
    finite(source, target)
}

/// Append a row to a buffer.
fn extend_rows(buffer: &mut Vec<u32>, row: &[u32])
    ensures
        final(buffer)@ == old(buffer)@ + row@,
{
    let length: usize = row.len();
    let mut i: usize = 0;
    while i < length
        invariant
            0 <= i <= length,
            length == row@.len(),
            buffer@ =~= old(buffer)@ + row@.take(i as int),
        decreases length - i,
    {
        buffer.push(row[i]);
        i = i + 1;
    }
    assert(row@.take(length as int) =~= row@);
}

/// Copy the last values of a list.
fn copy_from(values: &[u32], start: usize, storage: Vec<u32>) -> (copied: Vec<u32>)
    requires
        start <= values@.len(),
        storage@.len() == 0,
    ensures
        copied@ == values@.skip(start as int),
{
    let mut storage: Vec<u32> = storage;
    let tail = slice_subrange(values, start, values.len());
    extend_rows(&mut storage, tail);
    assert(storage@ =~= values@.skip(start as int));
    storage
}

/// Which rule a stored vector breaks, if it breaks one.
pub open spec fn vector_rule(tensor: VerifiedTensor<'_>, width: usize) -> Option<&'static str> {
    if tensor.descriptor.ggml_type != GgmlType::F32 || tensor.descriptor.dims@
        != seq![width as u64] {
        Some("must be an F32 vector with its metadata-derived width")
    } else if tensor.bytes@.len() != 4 * width || !qwen35_execution::all_finite(
        Seq::new(width as nat, |i: int| gguf::word(tensor.bytes@, i)),
    ) {
        Some("must contain one finite complete F32 row")
    } else {
        None
    }
}

/// Whether values are those of a stored vector.
pub open spec fn vector_read(
    artifact: VerifiedArtifact,
    name: Seq<char>,
    width: usize,
    values: Seq<u32>,
) -> bool {
    exists|tensor: VerifiedTensor<'_>|
        {
            &&& #[trigger] payload::found(artifact, name, tensor)
            &&& vector_rule(tensor, width) is None
            &&& values.len() == width
            &&& payload::words_of(tensor.bytes@, values)
        }
}

/// Whether a stored vector is refused with an error: it is missing, or breaks a rule.
pub open spec fn vector_refused(
    artifact: VerifiedArtifact,
    name: Seq<char>,
    width: usize,
    error: Error,
) -> bool {
    ||| {
        &&& gguf::unnamed(artifact.spec_observation().tensors@, name)
        &&& error matches Error::Qwen3Tensor { name: named, rule }
        &&& named@ == name
        &&& rule == "must be present in the verified payload"
    }
    ||| exists|tensor: VerifiedTensor<'_>|
        {
            &&& #[trigger] payload::found(artifact, name, tensor)
            &&& error matches Error::Qwen3Tensor { name: named, rule }
            &&& named@ == name
            &&& vector_rule(tensor, width) == Some(rule)
        }
}

/// Read a stored vector of finite `f32` values as bit patterns.
pub fn read_f32_vector(artifact: &VerifiedArtifact, name: &str, width: usize) -> (values: Result<
    Vec<u32>,
    Error,
>)
    ensures
        match values {
            Ok(values) => vector_read(*artifact, name@, width, values@),
            Err(error) => vector_refused(*artifact, name@, width, error),
        },
{
    let tensor = match artifact.tensor(name) {
        Some(tensor) => tensor,
        None => {
            return Err(
                Error::Qwen3Tensor {
                    name: name.to_owned(),
                    rule: "must be present in the verified payload",
                },
            );
        },
    };
    assert(payload::found(*artifact, name@, tensor));
    let dims = &tensor.descriptor.dims;
    let shaped: bool = dims.len() == 1 && dims[0] == width as u64;
    assert(shaped == (dims@ == seq![width as u64])) by {
        if shaped {
            assert(dims@ =~= seq![width as u64]);
        }
    }
    if tensor.descriptor.ggml_type != GgmlType::F32 || !shaped {
        return Err(
            Error::Qwen3Tensor {
                name: name.to_owned(),
                rule: "must be an F32 vector with its metadata-derived width",
            },
        );
    }
    let ghost words = Seq::new(width as nat, |i: int| gguf::word(tensor.bytes@, i));
    let length: usize = tensor.bytes.len();
    if length % 4 != 0 || length / 4 != width {
        return Err(
            Error::Qwen3Tensor {
                name: name.to_owned(),
                rule: "must contain one finite complete F32 row",
            },
        );
    }
    let mut values: Vec<u32> = Vec::new();
    let mut i: usize = 0;
    while i < width
        invariant
            0 <= i <= width,
            values@.len() == i,
            4 * width == tensor.bytes@.len(),
            words == Seq::new(width as nat, |i: int| gguf::word(tensor.bytes@, i)),
            forall|j: int| 0 <= j < i ==> #[trigger] values@[j] == words[j],
            forall|j: int| 0 <= j < i ==> float_bits::finite(#[trigger] words[j]),
            tensor.descriptor.ggml_type == GgmlType::F32,
            tensor.descriptor.dims@ == seq![width as u64],
            payload::found(*artifact, name@, tensor),
        decreases width - i,
    {
        let bits: u32 = read_word(tensor.bytes.as_slice(), i);
        assert(bits == words[i as int]);
        if !is_finite(bits) {
            assert(!qwen35_execution::all_finite(words));
            return Err(
                Error::Qwen3Tensor {
                    name: name.to_owned(),
                    rule: "must contain one finite complete F32 row",
                },
            );
        }
        values.push(bits);
        i = i + 1;
    }
    assert(vector_rule(tensor, width) is None);
    Ok(values)
}

/// The normalization vectors of a block's attention.
#[derive(Debug)]
pub struct AttentionNorms {
    pub hidden: Vec<u32>,
    pub query: Vec<u32>,
    pub key: Vec<u32>,
}

/// The name of a block's tensor.
pub open spec fn tensor_name(block: usize, role: &'static str) -> Seq<char> {
    text::block_name_spec(block as nat, role@)
}

/// Read the normalization vectors of a block's attention.
pub fn read_attention_norms(artifact: &VerifiedArtifact, block: usize, layout: Layout) -> (norms:
    Result<AttentionNorms, Error>)
    ensures
        ({
            let hidden = tensor_name(block, "attn_norm.weight");
            let query = tensor_name(block, "attn_q_norm.weight");
            let key = tensor_name(block, "attn_k_norm.weight");
            match norms {
                Ok(norms) => {
                    &&& vector_read(*artifact, hidden, layout.hidden, norms.hidden@)
                    &&& vector_read(*artifact, query, layout.head_dim, norms.query@)
                    &&& vector_read(*artifact, key, layout.head_dim, norms.key@)
                },
                Err(error) => {
                    ||| vector_refused(*artifact, hidden, layout.hidden, error)
                    ||| {
                        &&& exists|values: Seq<u32>|
                            vector_read(*artifact, hidden, layout.hidden, values)
                        &&& vector_refused(*artifact, query, layout.head_dim, error)
                    }
                    ||| {
                        &&& exists|values: Seq<u32>|
                            vector_read(*artifact, hidden, layout.hidden, values)
                        &&& exists|values: Seq<u32>|
                            vector_read(*artifact, query, layout.head_dim, values)
                        &&& vector_refused(*artifact, key, layout.head_dim, error)
                    }
                },
            }
        }),
{
    let hidden: Vec<u32> = read_f32_vector(
        artifact,
        block_name(block, "attn_norm.weight").as_str(),
        layout.hidden,
    )?;
    let query: Vec<u32> = read_f32_vector(
        artifact,
        block_name(block, "attn_q_norm.weight").as_str(),
        layout.head_dim,
    )?;
    let key: Vec<u32> = read_f32_vector(
        artifact,
        block_name(block, "attn_k_norm.weight").as_str(),
        layout.head_dim,
    )?;
    Ok(AttentionNorms { hidden, query, key })
}

/// A stored block vector of an admitted artifact is never missing and never of
/// another type or width: only its bytes can still be refused.
pub proof fn lemma_bound_vector(
    artifact: VerifiedArtifact,
    profile: Qwen3Profile,
    layout: Layout,
    block: usize,
    r: int,
    width: usize,
    error: Error,
)
    requires
        qwen3_execution::bound(artifact, profile, layout),
        block < layout.blocks,
        0 <= r < 4,
        width == qwen3_inventory::block_roles_spec()[r].shape.dims(layout)[0],
        vector_refused(
            artifact,
            tensor_name(block, qwen3_inventory::block_roles_spec()[r].name),
            width,
            error,
        ),
    ensures
        error matches Error::Qwen3Tensor { name, rule } && rule
            == "must contain one finite complete F32 row",
{
    let tensors = artifact.spec_observation().tensors@;
    let roles = qwen3_inventory::profile_roles_spec(profile);
    let role = qwen3_inventory::block_roles_spec()[r];
    let name = tensor_name(block, role.name);
    qwen3_inventory::lemma_admitted_block(tensors, layout, profile, block, r);
    qwen3_inventory::lemma_block_role(profile, layout.blocks, block, r);
    assert forall|tensor: VerifiedTensor<'_>| #[trigger]
        payload::found(artifact, name, tensor) implies tensor.descriptor.ggml_type == GgmlType::F32
        && tensor.descriptor.dims@ =~= seq![width as u64] by {
        let i = choose|i: int|
            {
                &&& #[trigger] gguf::first_named(tensors, name, i)
                &&& i < artifact.spec_payloads().len()
                &&& *tensor.descriptor == tensors[i]
                &&& *tensor.bytes == artifact.spec_payloads()[i]
            };
        assert(qwen3_inventory::tensor_rule(tensors, layout, roles, i) is None);
    }
}

/// Which key and value head a query head reads: the query heads are divided into
/// equal groups, one for each key and value head.
pub fn kv_head(layout: Layout, head: usize) -> (kv_head: usize)
    requires
        layout.wf(),
        head < layout.heads,
    ensures
        kv_head == head / (layout.heads / layout.kv_heads),
        kv_head < layout.kv_heads,
{
    proof {
        lemma_kv_head(layout, head);
    }
    head / (layout.heads / layout.kv_heads)
}

/// Every query head reads one of the key and value heads, and the query heads that
/// read a key and value head are one contiguous group.
pub proof fn lemma_kv_head(layout: Layout, head: usize)
    requires
        layout.wf(),
        head < layout.heads,
    ensures
        layout.heads / layout.kv_heads > 0,
        head / (layout.heads / layout.kv_heads) < layout.kv_heads,
        ({
            let group = layout.heads / layout.kv_heads;
            let kv = head / group;
            kv * group <= head < kv * group + group <= layout.heads
        }),
{
    let heads = layout.heads as int;
    let kv_heads = layout.kv_heads as int;
    let group = heads / kv_heads;
    let h = head as int;
    assert(heads == group * kv_heads) by (nonlinear_arith)
        requires
            group == heads / kv_heads,
            heads % kv_heads == 0,
            kv_heads > 0,
    ;
    assert(group > 0) by (nonlinear_arith)
        requires
            heads == group * kv_heads,
            heads > 0,
            kv_heads > 0,
    ;
    let kv = h / group;
    assert(kv * group <= h < kv * group + group) by (nonlinear_arith)
        requires
            kv == h / group,
            group > 0,
            h >= 0,
    ;
    assert(kv < kv_heads) by (nonlinear_arith)
        requires
            kv * group <= h,
            h < heads,
            heads == group * kv_heads,
            group > 0,
    ;
    assert(kv * group + group <= heads) by (nonlinear_arith)
        requires
            kv + 1 <= kv_heads,
            heads == group * kv_heads,
            group > 0,
    ;
}

/// The two lanes of a head that one NeoX rotary pair turns: a lane of the first
/// half and its partner in the second.
pub fn neox_pair(layout: Layout, pair_index: usize) -> (lanes: (usize, usize))
    requires
        layout.wf(),
        pair_index < layout.head_dim / 2,
    ensures
        lanes.0 == pair_index,
        lanes.1 == pair_index + layout.head_dim / 2,
        lanes.1 < layout.head_dim,
{
    (pair_index, pair_index + layout.head_dim / 2)
}

/// What a pass waits for next.
#[derive(Clone, Copy, Debug, PartialEq, Eq, Structural)]
pub enum PassStage {
    /// The embedding row of a token.
    Embed { token: usize },
    /// Empty caches and residual rows for a block.
    OpenBlock { block: usize },
    /// The rotated query and key and the value of a token.
    Project { block: usize, token: usize },
    /// The projected attention output of a token.
    Attend { block: usize, token: usize },
    /// The hidden rows with the attention residual added.
    AddAttention { block: usize },
    /// Empty residual rows for a block's feed-forward network.
    OpenFeedForward { block: usize },
    /// The feed-forward output of a token.
    FeedForward { block: usize, token: usize },
    /// The hidden rows with the feed-forward residual added.
    AddFeedForward { block: usize },
    /// The normalized rows.
    Normalize,
    /// Nothing: the last row is ready.
    Finished,
}

/// The stage that follows a stage.
pub open spec fn next_stage(stage: PassStage, tokens: int, blocks: int) -> PassStage {
    match stage {
        PassStage::Embed { token } => if token + 1 < tokens {
            PassStage::Embed { token: (token + 1) as usize }
        } else {
            PassStage::OpenBlock { block: 0 }
        },
        PassStage::OpenBlock { block } => PassStage::Project { block, token: 0 },
        PassStage::Project { block, token } => PassStage::Attend { block, token },
        PassStage::Attend { block, token } => if token + 1 < tokens {
            PassStage::Project { block, token: (token + 1) as usize }
        } else {
            PassStage::AddAttention { block }
        },
        PassStage::AddAttention { block } => PassStage::OpenFeedForward { block },
        PassStage::OpenFeedForward { block } => PassStage::FeedForward { block, token: 0 },
        PassStage::FeedForward { block, token } => if token + 1 < tokens {
            PassStage::FeedForward { block, token: (token + 1) as usize }
        } else {
            PassStage::AddFeedForward { block }
        },
        PassStage::AddFeedForward { block } => if block + 1 < blocks {
            PassStage::OpenBlock { block: (block + 1) as usize }
        } else {
            PassStage::Normalize
        },
        PassStage::Normalize => PassStage::Finished,
        PassStage::Finished => PassStage::Finished,
    }
}

/// Whether the token and block of a stage exist.
pub open spec fn stage_wf(stage: PassStage, tokens: int, blocks: int) -> bool {
    match stage {
        PassStage::Embed { token } => token < tokens,
        PassStage::OpenBlock { block } => block < blocks,
        PassStage::Project { block, token } => block < blocks && token < tokens,
        PassStage::Attend { block, token } => block < blocks && token < tokens,
        PassStage::AddAttention { block } => block < blocks,
        PassStage::OpenFeedForward { block } => block < blocks,
        PassStage::FeedForward { block, token } => block < blocks && token < tokens,
        PassStage::AddFeedForward { block } => block < blocks,
        PassStage::Normalize => true,
        PassStage::Finished => true,
    }
}

/// The number of stages that come before a stage.
pub open spec fn stage_position(stage: PassStage, tokens: int, blocks: int) -> int {
    let width = 3 * tokens + 4;
    match stage {
        PassStage::Embed { token } => token as int,
        PassStage::OpenBlock { block } => tokens + block * width,
        PassStage::Project { block, token } => tokens + block * width + 1 + 2 * token,
        PassStage::Attend { block, token } => tokens + block * width + 2 + 2 * token,
        PassStage::AddAttention { block } => tokens + block * width + 1 + 2 * tokens,
        PassStage::OpenFeedForward { block } => tokens + block * width + 2 + 2 * tokens,
        PassStage::FeedForward { block, token } => tokens + block * width + 3 + 2 * tokens + token,
        PassStage::AddFeedForward { block } => tokens + block * width + 3 + 3 * tokens,
        PassStage::Normalize => tokens + blocks * width,
        PassStage::Finished => tokens + blocks * width + 1,
    }
}

/// A pass visits every token and every block, each exactly once and in order: the
/// stage after a stage exists and is the one in the next position, and the last is
/// `tokens + blocks * (3 * tokens + 4) + 1` stages after the first.
pub proof fn lemma_stage_advances(stage: PassStage, tokens: int, blocks: int)
    requires
        0 < tokens <= usize::MAX,
        0 < blocks <= usize::MAX,
        stage_wf(stage, tokens, blocks),
        stage != PassStage::Finished,
    ensures
        stage_wf(next_stage(stage, tokens, blocks), tokens, blocks),
        stage_position(next_stage(stage, tokens, blocks), tokens, blocks) == stage_position(
            stage,
            tokens,
            blocks,
        ) + 1,
        stage_position(PassStage::Embed { token: 0 }, tokens, blocks) == 0,
        stage_position(PassStage::Finished, tokens, blocks) == tokens + blocks * (3 * tokens + 4)
            + 1,
{
    let width = 3 * tokens + 4;
    if let PassStage::AddFeedForward { block } = stage {
        let after = block + 1;
        assert(after * width == block * width + width) by (nonlinear_arith)
            requires
                after == block + 1,
        ;
        if after == blocks {
            assert(after * width == blocks * width);
        }
    }
    assert(0 * width == 0);
}

/// What a pass holds.
pub struct PassModel {
    /// The geometry of the artifact.
    pub layout: Layout,
    /// The token ids of the pass.
    pub tokens: Seq<u32>,
    /// What the pass waits for.
    pub stage: PassStage,
    /// The hidden rows so far.
    pub hidden: Seq<u32>,
    /// The key cache of the current block.
    pub keys: Seq<u32>,
    /// The value cache of the current block.
    pub values: Seq<u32>,
    /// The query of the current token.
    pub query: Seq<u32>,
    /// The residual rows so far.
    pub residual: Seq<u32>,
    /// The last normalized row, once the pass is finished.
    pub output: Seq<u32>,
}

impl PassModel {
    /// The name of the stored matrix that the current stage itself reads, if any.
    pub open spec fn matrix(self) -> Option<Seq<char>> {
        match self.stage {
            PassStage::Embed { .. } => Some(qwen3::TOKEN_EMBEDDING@),
            PassStage::Attend { block, .. } => Some(tensor_name(block, "attn_output.weight")),
            _ => None,
        }
    }

    /// The hidden row of a token.
    pub open spec fn hidden_row(self, token: int) -> Seq<u32> {
        self.hidden.subrange(token * self.layout.hidden, (token + 1) * self.layout.hidden)
    }

    /// The hidden row of the current token.
    pub open spec fn current_row(self) -> Seq<u32> {
        match self.stage {
            PassStage::Project { token, .. } => self.hidden_row(token as int),
            PassStage::FeedForward { token, .. } => self.hidden_row(token as int),
            _ => seq![],
        }
    }

    /// The stage that follows the current one.
    pub open spec fn following(self) -> PassStage {
        next_stage(self.stage, self.tokens.len() as int, self.layout.blocks as int)
    }

    /// Whether the buffers have the extents that the stage calls for.
    pub open spec fn wf(self) -> bool {
        let tokens = self.tokens.len();
        let layout = self.layout;
        &&& layout.wf()
        &&& 0 < tokens <= usize::MAX
        &&& tokens * layout.hidden <= usize::MAX
        &&& tokens * layout.kv_width <= usize::MAX
        &&& stage_wf(self.stage, tokens as int, layout.blocks as int)
        &&& match self.stage {
            PassStage::Embed { token } => self.hidden.len() == token * layout.hidden,
            _ => self.hidden.len() == tokens * layout.hidden,
        }
        &&& match self.stage {
            PassStage::Project { .. } | PassStage::Attend { .. } => {
                &&& self.keys.len() == tokens * layout.kv_width
                &&& self.values.len() == tokens * layout.kv_width
            },
            PassStage::Finished => {
                &&& self.output.len() == layout.hidden
                &&& qwen35_execution::all_finite(self.output)
            },
            _ => true,
        }
    }
}

/// Storage for the caches and the attention residual of one block.
#[derive(Debug)]
pub struct BlockStorage {
    pub keys: Vec<u32>,
    pub values: Vec<u32>,
    pub residual: Vec<u32>,
}

impl BlockStorage {
    /// Allocate the storage of one block, or refuse.
    ///
    /// The buffers are reserved in the order key cache, value cache, residual, and the
    /// first refusal is returned: the buffers before it were granted their room.
    pub fn try_reserve(shape: &Qwen3AllocationShape) -> (storage: Result<BlockStorage, Error>)
        ensures
            match storage {
                Ok(storage) => {
                    &&& storage.keys@.len() == 0
                    &&& storage.values@.len() == 0
                    &&& storage.residual@.len() == 0
                    &&& room_fits(shape.key_cache as int)
                    &&& room_fits(shape.value_cache as int)
                    &&& room_fits(shape.hidden_rows as int)
                },
                Err(error) => {
                    ||| {
                        &&& shape.key_cache > 0
                        &&& error.qwen3_allocation("causal key cache", shape.key_cache)
                    }
                    ||| {
                        &&& shape.value_cache > 0
                        &&& room_fits(shape.key_cache as int)
                        &&& error.qwen3_allocation("causal value cache", shape.value_cache)
                    }
                    ||| {
                        &&& shape.hidden_rows > 0
                        &&& room_fits(shape.key_cache as int)
                        &&& room_fits(shape.value_cache as int)
                        &&& error.qwen3_allocation("attention residual", shape.hidden_rows)
                    }
                },
            },
    {
        let keys: Vec<u32> = reserve("causal key cache", shape.key_cache)?;
        let values: Vec<u32> = reserve("causal value cache", shape.value_cache)?;
        let residual: Vec<u32> = reserve("attention residual", shape.hidden_rows)?;
        Ok(BlockStorage { keys, values, residual })
    }
}

/// A list of zeros.
pub open spec fn zeros(length: int) -> Seq<u32> {
    Seq::new(length as nat, |i: int| 0u32)
}

/// Fill an empty list with zeros.
fn zeroed(storage: Vec<u32>, length: usize) -> (values: Vec<u32>)
    requires
        storage@.len() == 0,
    ensures
        values@ == zeros(length as int),
{
    let mut values: Vec<u32> = storage;
    let mut i: usize = 0;
    while i < length
        invariant
            0 <= i <= length,
            values@ =~= zeros(i as int),
        decreases length - i,
    {
        values.push(0);
        i = i + 1;
    }
    values
}

/// One pass over a list of tokens, between two of its stages.
#[derive(Debug)]
pub struct Qwen3Pass {
    layout: Layout,
    tokens: Vec<u32>,
    stage: PassStage,
    hidden: Vec<u32>,
    keys: Vec<u32>,
    values: Vec<u32>,
    query: Vec<u32>,
    residual: Vec<u32>,
    output: Vec<u32>,
}

impl View for Qwen3Pass {
    type V = PassModel;

    closed spec fn view(&self) -> PassModel {
        PassModel {
            layout: self.layout,
            tokens: self.tokens@,
            stage: self.stage,
            hidden: self.hidden@,
            keys: self.keys@,
            values: self.values@,
            query: self.query@,
            residual: self.residual@,
            output: self.output@,
        }
    }
}

/// The error of a token list that does not fit.
pub open spec fn tokens_error(tokens: int) -> Option<Error> {
    Some(
        Error::Qwen3Execution {
            requested: tokens as usize,
            rule: "token IDs must be nonempty and fit the caller context bound",
        },
    )
}

/// Why a pass cannot begin, if it cannot.
pub open spec fn pass_failure(layout: Layout, max_context: usize, tokens: int) -> Option<Error> {
    if tokens == 0 || tokens > max_context {
        tokens_error(tokens)
    } else {
        layout.shape_failure(tokens as usize)
    }
}

/// A pass at its first stage.
pub open spec fn begun(layout: Layout, tokens: Seq<u32>) -> PassModel {
    PassModel {
        layout,
        tokens,
        stage: PassStage::Embed { token: 0 },
        hidden: seq![],
        keys: seq![],
        values: seq![],
        query: seq![],
        residual: seq![],
        output: seq![],
    }
}

impl<'weights, 'artifact> Qwen3Execution<'weights, 'artifact> {
    /// Begin the pass that yields the final normalized row of the last token.
    ///
    /// The allocator may refuse the hidden rows of an admitted request.
    pub fn last_hidden(&self, token_ids: &[u32]) -> (pass: Result<Qwen3Pass, Error>)
        ensures
            match pass {
                Ok(pass) => {
                    &&& pass_failure(
                        self.spec_body().spec_layout(),
                        self.spec_max_context(),
                        token_ids@.len() as int,
                    ) is None
                    &&& pass@ == begun(self.spec_body().spec_layout(), token_ids@)
                },
                Err(error) => {
                    ||| pass_failure(
                        self.spec_body().spec_layout(),
                        self.spec_max_context(),
                        token_ids@.len() as int,
                    ) == Some(error)
                    ||| {
                        &&& pass_failure(
                            self.spec_body().spec_layout(),
                            self.spec_max_context(),
                            token_ids@.len() as int,
                        ) is None
                        &&& error matches Error::Qwen3Allocation { target, length, .. }
                        &&& target == "token hidden rows"
                        &&& length == token_ids@.len() * self.spec_body().spec_layout().hidden
                    }
                },
            },
    {
        let shape = self.admit_tokens(token_ids.len())?;
        let storage: Vec<u32> = reserve("token hidden rows", shape.hidden_rows)?;
        self.begin(token_ids, storage)
    }

    /// Admit a number of tokens and derive the extents of their pass.
    pub fn admit_tokens(&self, tokens: usize) -> (shape: Result<Qwen3AllocationShape, Error>)
        ensures
            match shape {
                Ok(shape) => {
                    &&& pass_failure(
                        self.spec_body().spec_layout(),
                        self.spec_max_context(),
                        tokens as int,
                    ) is None
                    &&& shape.tokens == tokens
                    &&& shape.wf(self.spec_body().spec_layout())
                },
                Err(error) => pass_failure(
                    self.spec_body().spec_layout(),
                    self.spec_max_context(),
                    tokens as int,
                ) == Some(error),
            },
    {
        if tokens == 0 || tokens > self.admitted_max_context() {
            return Err(
                Error::Qwen3Execution {
                    requested: tokens,
                    rule: "token IDs must be nonempty and fit the caller context bound",
                },
            );
        }
        self.allocation_shape(tokens)
    }

    /// Begin a pass that keeps its hidden rows in an empty list.
    pub fn begin(&self, token_ids: &[u32], storage: Vec<u32>) -> (pass: Result<Qwen3Pass, Error>)
        requires
            storage@.len() == 0,
        ensures
            match pass {
                Ok(pass) => {
                    &&& pass_failure(
                        self.spec_body().spec_layout(),
                        self.spec_max_context(),
                        token_ids@.len() as int,
                    ) is None
                    &&& pass@ == begun(self.spec_body().spec_layout(), token_ids@)
                },
                Err(error) => pass_failure(
                    self.spec_body().spec_layout(),
                    self.spec_max_context(),
                    token_ids@.len() as int,
                ) == Some(error),
            },
    {
        let length: usize = token_ids.len();
        let shape = self.admit_tokens(length)?;
        let layout = self.layout();
        let mut tokens: Vec<u32> = Vec::new();
        extend_rows(&mut tokens, token_ids);
        proof {
            assert(tokens@ =~= token_ids@);
            assert(storage@ =~= Seq::<u32>::empty());
            assert(0 * layout.hidden == 0);
        }
        Ok(
            Qwen3Pass {
                layout,
                tokens,
                stage: PassStage::Embed { token: 0 },
                hidden: storage,
                keys: Vec::new(),
                values: Vec::new(),
                query: Vec::new(),
                residual: Vec::new(),
                output: Vec::new(),
            },
        )
    }
}

/// The error of residual rows whose number differs.
pub open spec fn residual_error(length: int) -> Error {
    Error::Qwen3Execution {
        requested: length as usize,
        rule: "residual operands must have equal lengths",
    }
}

/// Whether sums are refused with an error: there are not as many as hidden values,
/// the residual has not as many either, or one of them is not finite.
pub open spec fn sums_refused(
    pass: PassModel,
    sums: Seq<u32>,
    stage: &'static str,
    error: Error,
) -> bool {
    if pass.residual.len() != pass.hidden.len() || sums.len() != pass.hidden.len() {
        error == residual_error(pass.hidden.len() as int)
    } else {
        &&& !qwen35_execution::all_finite(sums)
        &&& nonfinite_error(sums, stage, error)
    }
}

/// Whether sums are accepted.
pub open spec fn sums_accepted(pass: PassModel, sums: Seq<u32>) -> bool {
    &&& pass.residual.len() == pass.hidden.len() == sums.len()
    &&& qwen35_execution::all_finite(sums)
}

impl Qwen3Pass {
    #[verifier::type_invariant]
    spec fn checked(self) -> bool {
        self@.wf()
    }

    /// Say what the pass waits for.
    pub fn stage(&self) -> (stage: PassStage)
        ensures
            stage == self@.stage,
            self@.wf(),
    {
        proof {
            use_type_invariant(self);
        }
        self.stage
    }

    /// Borrow the hidden rows.
    pub fn hidden(&self) -> (hidden: &[u32])
        ensures
            hidden@ == self@.hidden,
    {
        self.hidden.as_slice()
    }

    /// Borrow the residual rows.
    pub fn residual(&self) -> (residual: &[u32])
        ensures
            residual@ == self@.residual,
    {
        self.residual.as_slice()
    }

    /// Borrow the query of the current token and the caches up to it: attention is
    /// causal, so a later position is out of sight.
    pub fn attention(&self) -> (attention: (&[u32], &[u32], &[u32]))
        requires
            self@.stage is Attend,
        ensures
            attention.0@ == self@.query,
            attention.1@ == self@.keys.take((self@.stage->Attend_token + 1) * self@.layout.kv_width),
            attention.2@ == self@.values.take((self@.stage->Attend_token + 1) * self@.layout.kv_width),
    {
        proof {
            use_type_invariant(self);
        }
        let token: usize = match self.stage {
            PassStage::Attend { token, .. } => token,
            _ => 0,
        };
        let length: usize = self.tokens.len();
        proof {
            lemma_rows(token as int, length as int, self.layout.kv_width as int);
        }
        let end: usize = (token + 1) * self.layout.kv_width;
        let keys = slice_subrange(self.keys.as_slice(), 0, end);
        let values = slice_subrange(self.values.as_slice(), 0, end);
        proof {
            assert(keys@ =~= self.keys@.take(end as int));
            assert(values@ =~= self.values@.take(end as int));
        }
        (self.query.as_slice(), keys, values)
    }

    /// The stored matrix of the current stage, where the stage itself reads one: the
    /// embedding, the output projection of the current block, or none.
    pub fn matrix_name(&self) -> (name: Option<String>)
        ensures
            match name {
                Some(name) => self@.matrix() == Some(name@),
                None => self@.matrix() is None,
            },
    {
        match self.stage {
            PassStage::Embed { .. } => Some(qwen3::TOKEN_EMBEDDING.to_owned()),
            PassStage::Attend { block, .. } => Some(block_name(block, "attn_output.weight")),
            _ => None,
        }
    }

    /// Return the embedding row of the current token: the token's id.
    pub fn embedding_row(&self) -> (row: usize)
        requires
            self@.stage is Embed,
        ensures
            row == self@.tokens[self@.stage->Embed_token as int],
    {
        proof {
            use_type_invariant(self);
        }
        let token: usize = match self.stage {
            PassStage::Embed { token } => token,
            _ => 0,
        };
        self.tokens[token] as usize
    }

    /// Borrow the hidden row of the current token.
    pub fn token_row(&self) -> (row: &[u32])
        requires
            self@.stage is Project || self@.stage is FeedForward,
        ensures
            row@ == self@.current_row(),
            row@.len() == self@.layout.hidden,
    {
        proof {
            use_type_invariant(self);
        }
        let token: usize = match self.stage {
            PassStage::Project { token, .. } => token,
            PassStage::FeedForward { token, .. } => token,
            _ => 0,
        };
        let length: usize = self.tokens.len();
        proof {
            lemma_rows(token as int, length as int, self.layout.hidden as int);
        }
        let start: usize = token * self.layout.hidden;
        slice_subrange(self.hidden.as_slice(), start, start + self.layout.hidden)
    }

    /// Return the geometry of the artifact.
    pub fn layout(&self) -> (layout: Layout)
        ensures
            layout == self@.layout,
            layout.wf(),
    {
        proof {
            use_type_invariant(self);
        }
        self.layout
    }

    fn following(&self) -> (stage: PassStage)
        ensures
            stage == self@.following(),
            stage_wf(stage, self@.tokens.len() as int, self@.layout.blocks as int)
                || self@.stage is Finished,
    {
        proof {
            use_type_invariant(self);
            if self@.stage != PassStage::Finished {
                lemma_stage_advances(
                    self@.stage,
                    self@.tokens.len() as int,
                    self@.layout.blocks as int,
                );
            }
        }
        let tokens: usize = self.tokens.len();
        match self.stage {
            PassStage::Embed { token } => if token + 1 < tokens {
                PassStage::Embed { token: token + 1 }
            } else {
                PassStage::OpenBlock { block: 0 }
            },
            PassStage::OpenBlock { block } => PassStage::Project { block, token: 0 },
            PassStage::Project { block, token } => PassStage::Attend { block, token },
            PassStage::Attend { block, token } => if token + 1 < tokens {
                PassStage::Project { block, token: token + 1 }
            } else {
                PassStage::AddAttention { block }
            },
            PassStage::AddAttention { block } => PassStage::OpenFeedForward { block },
            PassStage::OpenFeedForward { block } => PassStage::FeedForward { block, token: 0 },
            PassStage::FeedForward { block, token } => if token + 1 < tokens {
                PassStage::FeedForward { block, token: token + 1 }
            } else {
                PassStage::AddFeedForward { block }
            },
            PassStage::AddFeedForward { block } => if block + 1 < self.layout.blocks {
                PassStage::OpenBlock { block: block + 1 }
            } else {
                PassStage::Normalize
            },
            PassStage::Normalize => PassStage::Finished,
            PassStage::Finished => PassStage::Finished,
        }
    }

    /// Take the decoded embedding row of a token.
    pub fn embed(self, row: &[u32]) -> (pass: Result<Qwen3Pass, Error>)
        requires
            self@.stage is Embed,
        ensures
            match pass {
                Ok(pass) => {
                    &&& row@.len() == self@.layout.hidden
                    &&& pass@ == (PassModel {
                        stage: self@.following(),
                        hidden: self@.hidden + row@,
                        ..self@
                    })
                },
                Err(error) => {
                    &&& row@.len() != self@.layout.hidden
                    &&& error matches Error::Qwen3Execution { requested, rule }
                    &&& requested == row@.len()
                    &&& rule == "decoded embedding row must fit the checked Qwen3 allocation shape"
                },
            },
    {
        proof {
            use_type_invariant(&self);
        }
        if row.len() != self.layout.hidden {
            return Err(
                Error::Qwen3Execution {
                    requested: row.len(),
                    rule: "decoded embedding row must fit the checked Qwen3 allocation shape",
                },
            );
        }
        let stage = self.following();
        let layout = self.layout;
        let tokens = self.tokens;
        let mut hidden = self.hidden;
        proof {
            let token = self@.stage->Embed_token as int;
            assert((token + 1) * layout.hidden == token * layout.hidden + layout.hidden)
                by (nonlinear_arith);
        }
        extend_rows(&mut hidden, row);
        Ok(
            Qwen3Pass {
                layout,
                tokens,
                stage,
                hidden,
                keys: self.keys,
                values: self.values,
                query: self.query,
                residual: self.residual,
                output: self.output,
            },
        )
    }

    /// Open a block with zeroed caches and no residual rows.
    pub fn open_block(self, storage: BlockStorage) -> (pass: Qwen3Pass)
        requires
            self@.stage is OpenBlock,
            storage.keys@.len() == 0,
            storage.values@.len() == 0,
            storage.residual@.len() == 0,
        ensures
            pass@ == (PassModel {
                stage: self@.following(),
                keys: zeros(self@.tokens.len() * self@.layout.kv_width),
                values: zeros(self@.tokens.len() * self@.layout.kv_width),
                residual: seq![],
                ..self@
            }),
    {
        proof {
            use_type_invariant(&self);
            assert(0 <= self@.tokens.len() * self@.layout.kv_width) by (nonlinear_arith);
        }
        let stage = self.following();
        let length: usize = self.tokens.len() * self.layout.kv_width;
        let keys = zeroed(storage.keys, length);
        let values = zeroed(storage.values, length);
        assert(storage.residual@ =~= Seq::<u32>::empty());
        Qwen3Pass {
            layout: self.layout,
            tokens: self.tokens,
            stage,
            hidden: self.hidden,
            keys,
            values,
            query: self.query,
            residual: storage.residual,
            output: self.output,
        }
    }

    /// Take the rotated query and key and the value of a token, and cache the key
    /// and the value at the token's position.
    pub fn project(self, query: Vec<u32>, key: &[u32], value: &[u32]) -> (pass: Result<
        Qwen3Pass,
        Error,
    >)
        requires
            self@.stage is Project,
        ensures
            match pass {
                Ok(pass) => {
                    let start = self@.stage->Project_token * self@.layout.kv_width;
                    &&& cached(self@, start, key@)
                    &&& cached(self@, start, value@)
                    &&& pass@ == (PassModel {
                        stage: self@.following(),
                        keys: spliced(self@.keys, start, key@),
                        values: spliced(self@.values, start, value@),
                        query: query@,
                        ..self@
                    })
                },
                Err(error) => {
                    let start = self@.stage->Project_token * self@.layout.kv_width;
                    ||| cache_refused(self@, start, key@, "key cache", error)
                    ||| {
                        &&& cached(self@, start, key@)
                        &&& cache_refused(self@, start, value@, "value cache", error)
                    }
                },
            },
    {
        proof {
            use_type_invariant(&self);
        }
        let stage = self.following();
        let token: usize = match self.stage {
            PassStage::Project { token, .. } => token,
            _ => 0,
        };
        let length: usize = self.tokens.len();
        proof {
            lemma_rows(token as int, length as int, self.layout.kv_width as int);
        }
        let start: usize = product(token, self.layout.kv_width)?;
        let layout = self.layout;
        let mut keys = self.keys;
        let mut values = self.values;
        copy_into(&mut keys, start, key, "key cache")?;
        copy_into(&mut values, start, value, "value cache")?;
        Ok(
            Qwen3Pass {
                layout,
                tokens: self.tokens,
                stage,
                hidden: self.hidden,
                keys,
                values,
                query,
                residual: self.residual,
                output: self.output,
            },
        )
    }

    /// Take the projected attention output of a token.
    pub fn attend(self, row: &[u32]) -> (pass: Qwen3Pass)
        requires
            self@.stage is Attend,
        ensures
            pass@ == (PassModel {
                stage: self@.following(),
                residual: self@.residual + row@,
                ..self@
            }),
    {
        proof {
            use_type_invariant(&self);
        }
        let stage = self.following();
        let mut residual = self.residual;
        extend_rows(&mut residual, row);
        Qwen3Pass {
            layout: self.layout,
            tokens: self.tokens,
            stage,
            hidden: self.hidden,
            keys: self.keys,
            values: self.values,
            query: self.query,
            residual,
            output: self.output,
        }
    }

    fn check_sums(&self, sums: &[u32], stage: &'static str) -> (checked: Result<(), Error>)
        ensures
            match checked {
                Ok(_) => sums_accepted(self@, sums@),
                Err(error) => sums_refused(self@, sums@, stage, error),
            },
    {
        if self.hidden.len() != self.residual.len() || self.hidden.len() != sums.len() {
            return Err(
                Error::Qwen3Execution {
                    requested: self.hidden.len(),
                    rule: "residual operands must have equal lengths",
                },
            );
        }
        finite(sums, stage)
    }

    /// Take the hidden rows with the attention residual added.
    pub fn add_attention(self, sums: Vec<u32>) -> (pass: Result<Qwen3Pass, Error>)
        requires
            self@.stage is AddAttention,
        ensures
            match pass {
                Ok(pass) => {
                    &&& sums_accepted(self@, sums@)
                    &&& pass@ == (PassModel {
                        stage: self@.following(),
                        hidden: sums@,
                        ..self@
                    })
                },
                Err(error) => sums_refused(self@, sums@, "attention residual", error),
            },
    {
        proof {
            use_type_invariant(&self);
        }
        self.check_sums(sums.as_slice(), "attention residual")?;
        let stage = self.following();
        Ok(
            Qwen3Pass {
                layout: self.layout,
                tokens: self.tokens,
                stage,
                hidden: sums,
                keys: self.keys,
                values: self.values,
                query: self.query,
                residual: self.residual,
                output: self.output,
            },
        )
    }

    /// Open a block's feed-forward network with no residual rows.
    pub fn open_feed_forward(self, storage: Vec<u32>) -> (pass: Qwen3Pass)
        requires
            self@.stage is OpenFeedForward,
            storage@.len() == 0,
        ensures
            pass@ == (PassModel { stage: self@.following(), residual: seq![], ..self@ }),
    {
        proof {
            use_type_invariant(&self);
        }
        let stage = self.following();
        assert(storage@ =~= Seq::<u32>::empty());
        Qwen3Pass {
            layout: self.layout,
            tokens: self.tokens,
            stage,
            hidden: self.hidden,
            keys: self.keys,
            values: self.values,
            query: self.query,
            residual: storage,
            output: self.output,
        }
    }

    /// Take the feed-forward output of a token.
    pub fn feed_forward(self, row: &[u32]) -> (pass: Qwen3Pass)
        requires
            self@.stage is FeedForward,
        ensures
            pass@ == (PassModel {
                stage: self@.following(),
                residual: self@.residual + row@,
                ..self@
            }),
    {
        proof {
            use_type_invariant(&self);
        }
        let stage = self.following();
        let mut residual = self.residual;
        extend_rows(&mut residual, row);
        Qwen3Pass {
            layout: self.layout,
            tokens: self.tokens,
            stage,
            hidden: self.hidden,
            keys: self.keys,
            values: self.values,
            query: self.query,
            residual,
            output: self.output,
        }
    }

    /// Take the hidden rows with the feed-forward residual added.
    pub fn add_feed_forward(self, sums: Vec<u32>) -> (pass: Result<Qwen3Pass, Error>)
        requires
            self@.stage is AddFeedForward,
        ensures
            match pass {
                Ok(pass) => {
                    &&& sums_accepted(self@, sums@)
                    &&& pass@ == (PassModel {
                        stage: self@.following(),
                        hidden: sums@,
                        ..self@
                    })
                },
                Err(error) => sums_refused(self@, sums@, "FFN residual", error),
            },
    {
        proof {
            use_type_invariant(&self);
        }
        self.check_sums(sums.as_slice(), "FFN residual")?;
        let stage = self.following();
        Ok(
            Qwen3Pass {
                layout: self.layout,
                tokens: self.tokens,
                stage,
                hidden: sums,
                keys: self.keys,
                values: self.values,
                query: self.query,
                residual: self.residual,
                output: self.output,
            },
        )
    }

    /// Take the normalized rows and keep the last one in an empty list.
    pub fn normalize(self, rows: &[u32], storage: Vec<u32>) -> (pass: Result<Qwen3Pass, Error>)
        requires
            self@.stage is Normalize,
            storage@.len() == 0,
        ensures
            match pass {
                Ok(pass) => {
                    &&& last_row_rule(self@, rows@) is None
                    &&& qwen35_execution::all_finite(rows@.skip(last_start(self@)))
                    &&& pass@ == (PassModel {
                        stage: PassStage::Finished,
                        output: rows@.skip(last_start(self@)),
                        ..self@
                    })
                },
                Err(error) => last_row_refused(self@, rows@, error),
            },
    {
        proof {
            use_type_invariant(&self);
        }
        let stage = self.following();
        let length: usize = self.tokens.len();
        proof {
            lemma_rows(length - 1, length as int, self.layout.hidden as int);
        }
        let start: usize = product(length - 1, self.layout.hidden)?;
        if start > rows.len() {
            return Err(
                Error::Qwen3Execution {
                    requested: start,
                    rule: "final hidden row must fit normalized token rows",
                },
            );
        }
        let last = slice_subrange(rows, start, rows.len());
        assert(last@ =~= rows@.skip(start as int));
        finite(last, "final RMS norm")?;
        if last.len() != self.layout.hidden {
            return Err(
                Error::Qwen3Execution {
                    requested: last.len(),
                    rule: "final hidden row must fit the checked Qwen3 allocation shape",
                },
            );
        }
        let output = copy_from(rows, start, storage);
        Ok(
            Qwen3Pass {
                layout: self.layout,
                tokens: self.tokens,
                stage,
                hidden: self.hidden,
                keys: self.keys,
                values: self.values,
                query: self.query,
                residual: self.residual,
                output,
            },
        )
    }

    /// Give up the finished pass for its last normalized row.
    pub fn into_last_row(self) -> (row: Vec<u32>)
        requires
            self@.stage is Finished,
        ensures
            row@ == self@.output,
            row@.len() == self@.layout.hidden,
            qwen35_execution::all_finite(row@),
    {
        proof {
            use_type_invariant(&self);
        }
        self.output
    }
}

/// Where the last row of a pass starts.
pub open spec fn last_start(pass: PassModel) -> int {
    (pass.tokens.len() - 1) * pass.layout.hidden
}

/// Which rule the extent of normalized rows breaks, if it breaks one.
pub open spec fn last_row_rule(pass: PassModel, rows: Seq<u32>) -> Option<&'static str> {
    if last_start(pass) > rows.len() {
        Some("final hidden row must fit normalized token rows")
    } else if rows.len() != last_start(pass) + pass.layout.hidden {
        Some("final hidden row must fit the checked Qwen3 allocation shape")
    } else {
        None
    }
}

/// Whether normalized rows are refused with an error: the last row must exist, be
/// finite, and have the hidden width, checked in that order.
pub open spec fn last_row_refused(pass: PassModel, rows: Seq<u32>, error: Error) -> bool {
    let start = last_start(pass);
    if start > rows.len() {
        error == (Error::Qwen3Execution {
            requested: start as usize,
            rule: "final hidden row must fit normalized token rows",
        })
    } else if !qwen35_execution::all_finite(rows.skip(start)) {
        nonfinite_error(rows.skip(start), "final RMS norm", error)
    } else {
        &&& rows.len() != start + pass.layout.hidden
        &&& error matches Error::Qwen3Execution { requested, rule }
        &&& requested == rows.len() - start
        &&& rule == "final hidden row must fit the checked Qwen3 allocation shape"
    }
}

/// Whether values are cached from a position on.
pub open spec fn cached(pass: PassModel, start: int, values: Seq<u32>) -> bool {
    &&& start + values.len() <= pass.tokens.len() * pass.layout.kv_width
    &&& qwen35_execution::all_finite(values)
}

/// Whether values are refused by a cache with an error: they do not fit, or one of
/// them is not finite.
pub open spec fn cache_refused(
    pass: PassModel,
    start: int,
    values: Seq<u32>,
    target: &'static str,
    error: Error,
) -> bool {
    if start + values.len() > usize::MAX {
        error == (Error::Qwen3Execution {
            requested: start as usize,
            rule: "copy range overflowed",
        })
    } else if start + values.len() > pass.tokens.len() * pass.layout.kv_width {
        error == (Error::Qwen3Execution {
            requested: start as usize,
            rule: "copy range must fit its checked buffer",
        })
    } else {
        &&& !qwen35_execution::all_finite(values)
        &&& nonfinite_error(values, target, error)
    }
}

proof fn lemma_rows(row: int, rows: int, width: int)
    requires
        0 <= row < rows,
        0 <= width,
    ensures
        0 <= row * width <= (row + 1) * width <= rows * width,
        (row + 1) * width == row * width + width,
{
    assert(0 <= row * width <= (row + 1) * width <= rows * width) by (nonlinear_arith)
        requires
            0 <= row < rows,
            0 <= width,
    ;
    assert((row + 1) * width == row * width + width) by (nonlinear_arith);
}

} // verus!
