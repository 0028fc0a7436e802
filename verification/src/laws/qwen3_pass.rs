//! Laws of a Qwen3 pass: which tensor every stage reads, which rows it is applied to,
//! and where every value goes.

use crate::error::Error;
use crate::gguf::{GgmlType, VerifiedArtifact, VerifiedTensor};
use crate::payload;
use crate::qwen3::Layout;
use crate::qwen3_execution::{Qwen3AllocationShape, Qwen3Execution};
use crate::qwen3_inventory::{block_roles, Role};
use crate::qwen3_pass::{
    copy_into, kv_head, neox_pair, read_attention_norms, read_f32_vector, row, AttentionNorms,
    BlockStorage, PassStage, Qwen3Pass,
};
use crate::qwen3_token::{FeedForwardPass, FeedForwardStage, TokenPass, TokenStage};
use crate::text;
use vstd::prelude::*;

verus! {

/// Every tensor that a token's attention inputs ask for is stored under `blk.`, the
/// decimal number of the token's own block, and the role of the stage.
pub proof fn law_token_names_its_block(token: &TokenPass<'_>, named: Option<String>)
    requires
        call_ensures(TokenPass::operand, (token,), named),
    ensures
        ({
            let block = "blk."@ + text::decimal(token@.block as nat) + "."@;
            match token@.stage {
                TokenStage::Normalize => named matches Some(name) && name@ == block
                    + "attn_norm.weight"@,
                TokenStage::ProjectQuery => named matches Some(name) && name@ == block
                    + "attn_q.weight"@,
                TokenStage::ProjectKey => named matches Some(name) && name@ == block
                    + "attn_k.weight"@,
                TokenStage::ProjectValue => named matches Some(name) && name@ == block
                    + "attn_v.weight"@,
                TokenStage::NormalizeQuery => named matches Some(name) && name@ == block
                    + "attn_q_norm.weight"@,
                TokenStage::NormalizeKey => named matches Some(name) && name@ == block
                    + "attn_k_norm.weight"@,
                _ => named is None,
            }
        }),
{
}

/// Every tensor that a token's feed-forward output asks for is stored under `blk.`, the
/// decimal number of the token's own block, and the role of the stage.
pub proof fn law_feed_forward_names_its_block(token: &FeedForwardPass<'_>, named: Option<String>)
    requires
        call_ensures(FeedForwardPass::operand, (token,), named),
    ensures
        ({
            let block = "blk."@ + text::decimal(token@.block as nat) + "."@;
            match token@.stage {
                FeedForwardStage::Normalize => named matches Some(name) && name@ == block
                    + "ffn_norm.weight"@,
                FeedForwardStage::ProjectGate => named matches Some(name) && name@ == block
                    + "ffn_gate.weight"@,
                FeedForwardStage::ProjectUp => named matches Some(name) && name@ == block
                    + "ffn_up.weight"@,
                FeedForwardStage::ProjectDown => named matches Some(name) && name@ == block
                    + "ffn_down.weight"@,
                _ => named is None,
            }
        }),
{
}

/// A pass itself reads the token embedding while it embeds, the output matrix of the
/// current block while it attends, and no matrix at any other stage.
pub proof fn law_pass_names_its_matrix(pass: &Qwen3Pass, named: Option<String>)
    requires
        call_ensures(Qwen3Pass::matrix_name, (pass,), named),
    ensures
        match pass@.stage {
            PassStage::Embed { .. } => named matches Some(name) && name@ == "token_embd.weight"@,
            PassStage::Attend { block, .. } => named matches Some(name) && name@ == "blk."@
                + text::decimal(block as nat) + "."@ + "attn_output.weight"@,
            _ => named is None,
        },
{
}

/// Stages of different blocks never ask for the same tensor, neither two stages of
/// attention inputs nor two of feed-forward outputs.
pub proof fn law_blocks_share_no_tensor(
    token: &TokenPass<'_>,
    token_name: String,
    other: &TokenPass<'_>,
    other_name: String,
    forward: &FeedForwardPass<'_>,
    forward_name: String,
    later: &FeedForwardPass<'_>,
    later_name: String,
)
    requires
        call_ensures(TokenPass::operand, (token,), Some(token_name)),
        call_ensures(TokenPass::operand, (other,), Some(other_name)),
        call_ensures(FeedForwardPass::operand, (forward,), Some(forward_name)),
        call_ensures(FeedForwardPass::operand, (later,), Some(later_name)),
    ensures
        token@.block != other@.block ==> token_name@ != other_name@,
        forward@.block != later@.block ==> forward_name@ != later_name@,
        token@.block != forward@.block ==> token_name@ != forward_name@,
{
    let a = token@.role()->0@;
    let b = other@.role()->0@;
    let c = forward@.role()->0@;
    let d = later@.role()->0@;
    if token_name@ == other_name@ {
        text::lemma_block_name_injective(token@.block as nat, a, other@.block as nat, b);
    }
    if forward_name@ == later_name@ {
        text::lemma_block_name_injective(forward@.block as nat, c, later@.block as nat, d);
    }
    if token_name@ == forward_name@ {
        text::lemma_block_name_injective(token@.block as nat, a, forward@.block as nat, c);
    }
}

/// Attention outputs of different blocks are projected by different matrices.
pub proof fn law_output_matrices_differ(
    pass: &Qwen3Pass,
    name: String,
    other: &Qwen3Pass,
    other_name: String,
)
    requires
        call_ensures(Qwen3Pass::matrix_name, (pass,), Some(name)),
        call_ensures(Qwen3Pass::matrix_name, (other,), Some(other_name)),
        pass@.stage is Attend,
        other@.stage is Attend,
        pass@.stage->Attend_block != other@.stage->Attend_block,
    ensures
        name@ != other_name@,
{
    if name@ == other_name@ {
        text::lemma_block_name_injective(
            pass@.stage->Attend_block as nat,
            "attn_output.weight"@,
            other@.stage->Attend_block as nat,
            "attn_output.weight"@,
        );
    }
}

/// The attention inputs of a token: the six tensors that they ask for, one after the
/// other, are those of the block that the pass stands at; each is applied to the values
/// handed in before it; and what comes out is the rotated query, the rotated key, and
/// the projected value.
pub proof fn law_token_inputs(
    pass: &Qwen3Pass,
    block: usize,
    token: usize,
    states: (TokenPass<'_>, TokenPass<'_>, TokenPass<'_>, TokenPass<'_>, TokenPass<'_>, TokenPass<'_>),
    rotated: (TokenPass<'_>, TokenPass<'_>, TokenPass<'_>),
    names: (String, String, String, String, String, String),
    inputs: (&[u32], &[u32], &[u32], &[u32], &[u32], &[u32], &[u32], &[u32]),
    values: (Vec<u32>, Vec<u32>, Vec<u32>, Vec<u32>, Vec<u32>, Vec<u32>, Vec<u32>, Vec<u32>),
    parts: (Vec<u32>, Vec<u32>, Vec<u32>),
)
    requires
        pass@.stage == (PassStage::Project { block, token }),
        call_ensures(TokenPass::begin, (pass,), states.0),
        call_ensures(TokenPass::operand, (&states.0,), Some(names.0)),
        call_ensures(TokenPass::input, (&states.0,), inputs.0),
        call_ensures(TokenPass::take, (states.0, values.0), Ok::<TokenPass<'_>, Error>(states.1)),
        call_ensures(TokenPass::operand, (&states.1,), Some(names.1)),
        call_ensures(TokenPass::input, (&states.1,), inputs.1),
        call_ensures(TokenPass::take, (states.1, values.1), Ok::<TokenPass<'_>, Error>(states.2)),
        call_ensures(TokenPass::operand, (&states.2,), Some(names.2)),
        call_ensures(TokenPass::input, (&states.2,), inputs.2),
        call_ensures(TokenPass::take, (states.2, values.2), Ok::<TokenPass<'_>, Error>(states.3)),
        call_ensures(TokenPass::operand, (&states.3,), Some(names.3)),
        call_ensures(TokenPass::input, (&states.3,), inputs.3),
        call_ensures(TokenPass::take, (states.3, values.3), Ok::<TokenPass<'_>, Error>(states.4)),
        call_ensures(TokenPass::operand, (&states.4,), Some(names.4)),
        call_ensures(TokenPass::input, (&states.4,), inputs.4),
        call_ensures(TokenPass::take, (states.4, values.4), Ok::<TokenPass<'_>, Error>(states.5)),
        call_ensures(TokenPass::operand, (&states.5,), Some(names.5)),
        call_ensures(TokenPass::input, (&states.5,), inputs.5),
        call_ensures(TokenPass::take, (states.5, values.5), Ok::<TokenPass<'_>, Error>(rotated.0)),
        call_ensures(TokenPass::input, (&rotated.0,), inputs.6),
        call_ensures(TokenPass::take, (rotated.0, values.6), Ok::<TokenPass<'_>, Error>(rotated.1)),
        call_ensures(TokenPass::input, (&rotated.1,), inputs.7),
        call_ensures(TokenPass::take, (rotated.1, values.7), Ok::<TokenPass<'_>, Error>(rotated.2)),
        call_ensures(TokenPass::into_parts, (rotated.2,), parts),
        (token + 1) * pass@.layout.hidden <= pass@.hidden.len(),
    ensures
        ({
            let prefix = "blk."@ + text::decimal(block as nat) + "."@;
            &&& names.0@ == prefix + "attn_norm.weight"@
            &&& names.1@ == prefix + "attn_q.weight"@
            &&& names.2@ == prefix + "attn_k.weight"@
            &&& names.3@ == prefix + "attn_v.weight"@
            &&& names.4@ == prefix + "attn_q_norm.weight"@
            &&& names.5@ == prefix + "attn_k_norm.weight"@
        }),
        inputs.0@.len() == pass@.layout.hidden,
        forall|i: int|
            0 <= i < pass@.layout.hidden ==> #[trigger] inputs.0@[i] == pass@.hidden[token
                * pass@.layout.hidden + i],
        inputs.1@ == values.0@ && inputs.2@ == values.0@ && inputs.3@ == values.0@,
        inputs.4@ == values.1@ && inputs.5@ == values.2@,
        inputs.6@ == values.4@ && inputs.7@ == values.5@,
        parts.0@ == values.6@ && parts.1@ == values.7@ && parts.2@ == values.3@,
        states.0@.token == token && rotated.2@.token == token && rotated.2@.stage
            == TokenStage::Finished,
        forall|i: int| 0 <= i < parts.0@.len()
            ==> #[trigger] parts.0@[i] & 0x7f80_0000u32 != 0x7f80_0000u32,
        forall|i: int| 0 <= i < parts.1@.len()
            ==> #[trigger] parts.1@[i] & 0x7f80_0000u32 != 0x7f80_0000u32,
{
    lemma_row_fits(token as int, pass@.layout.hidden as int);
    assert forall|i: int| 0 <= i < parts.0@.len() implies #[trigger] parts.0@[i] & 0x7f80_0000u32
        != 0x7f80_0000u32 by {
        crate::float_bits::lemma_finite_exponent(parts.0@[i]);
    }
    assert forall|i: int| 0 <= i < parts.1@.len() implies #[trigger] parts.1@[i] & 0x7f80_0000u32
        != 0x7f80_0000u32 by {
        crate::float_bits::lemma_finite_exponent(parts.1@[i]);
    }
}

proof fn lemma_row_fits(row: int, width: int)
    requires
        0 <= row,
        0 <= width,
    ensures
        0 <= row * width,
        (row + 1) * width == row * width + width,
{
    assert(0 <= row * width) by (nonlinear_arith)
        requires
            0 <= row,
            0 <= width,
    ;
    assert((row + 1) * width == row * width + width) by (nonlinear_arith);
}

/// The feed-forward output of a token: the four tensors that it asks for are those of
/// the block that the pass stands at; gate and up are applied to the normalized row,
/// down to the fused one, and the product is of the activated gate and the up row.
pub proof fn law_feed_forward_output(
    pass: &Qwen3Pass,
    block: usize,
    token: usize,
    states: (
        FeedForwardPass<'_>,
        FeedForwardPass<'_>,
        FeedForwardPass<'_>,
        FeedForwardPass<'_>,
        FeedForwardPass<'_>,
        FeedForwardPass<'_>,
        FeedForwardPass<'_>,
    ),
    names: (String, String, String, String),
    inputs: (&[u32], &[u32], &[u32], &[u32], &[u32], &[u32]),
    factor: &[u32],
    values: (Vec<u32>, Vec<u32>, Vec<u32>, Vec<u32>, Vec<u32>, Vec<u32>),
    output: Vec<u32>,
)
    requires
        pass@.stage == (PassStage::FeedForward { block, token }),
        call_ensures(FeedForwardPass::begin, (pass,), states.0),
        call_ensures(FeedForwardPass::operand, (&states.0,), Some(names.0)),
        call_ensures(FeedForwardPass::input, (&states.0,), inputs.0),
        call_ensures(
            FeedForwardPass::take,
            (states.0, values.0),
            Ok::<FeedForwardPass<'_>, Error>(states.1),
        ),
        call_ensures(FeedForwardPass::operand, (&states.1,), Some(names.1)),
        call_ensures(FeedForwardPass::input, (&states.1,), inputs.1),
        call_ensures(
            FeedForwardPass::take,
            (states.1, values.1),
            Ok::<FeedForwardPass<'_>, Error>(states.2),
        ),
        call_ensures(FeedForwardPass::input, (&states.2,), inputs.2),
        call_ensures(
            FeedForwardPass::take,
            (states.2, values.2),
            Ok::<FeedForwardPass<'_>, Error>(states.3),
        ),
        call_ensures(FeedForwardPass::operand, (&states.3,), Some(names.2)),
        call_ensures(FeedForwardPass::input, (&states.3,), inputs.3),
        call_ensures(
            FeedForwardPass::take,
            (states.3, values.3),
            Ok::<FeedForwardPass<'_>, Error>(states.4),
        ),
        call_ensures(FeedForwardPass::input, (&states.4,), inputs.4),
        call_ensures(FeedForwardPass::factor, (&states.4,), factor),
        call_ensures(
            FeedForwardPass::take,
            (states.4, values.4),
            Ok::<FeedForwardPass<'_>, Error>(states.5),
        ),
        call_ensures(FeedForwardPass::operand, (&states.5,), Some(names.3)),
        call_ensures(FeedForwardPass::input, (&states.5,), inputs.5),
        call_ensures(
            FeedForwardPass::take,
            (states.5, values.5),
            Ok::<FeedForwardPass<'_>, Error>(states.6),
        ),
        call_ensures(FeedForwardPass::into_output, (states.6,), output),
        (token + 1) * pass@.layout.hidden <= pass@.hidden.len(),
    ensures
        ({
            let prefix = "blk."@ + text::decimal(block as nat) + "."@;
            &&& names.0@ == prefix + "ffn_norm.weight"@
            &&& names.1@ == prefix + "ffn_gate.weight"@
            &&& names.2@ == prefix + "ffn_up.weight"@
            &&& names.3@ == prefix + "ffn_down.weight"@
        }),
        inputs.0@.len() == pass@.layout.hidden,
        forall|i: int|
            0 <= i < pass@.layout.hidden ==> #[trigger] inputs.0@[i] == pass@.hidden[token
                * pass@.layout.hidden + i],
        inputs.1@ == values.0@ && inputs.3@ == values.0@,
        inputs.2@ == values.1@,
        inputs.4@ == values.2@ && factor@ == values.3@,
        inputs.5@ == values.4@,
        output@ == values.5@,
{
    lemma_row_fits(token as int, pass@.layout.hidden as int);
}

/// The normalization vectors of a block's attention are the `f32` tensors of that very
/// block: one of the hidden width, and two of the head width.
pub proof fn law_attention_norms(
    artifact: &VerifiedArtifact,
    block: usize,
    layout: Layout,
    norms: AttentionNorms,
)
    requires
        call_ensures(
            read_attention_norms,
            (artifact, block, layout),
            Ok::<AttentionNorms, Error>(norms),
        ),
    ensures
        ({
            let prefix = "blk."@ + text::decimal(block as nat) + "."@;
            &&& holds_vector(*artifact, prefix + "attn_norm.weight"@, layout.hidden, norms.hidden@)
            &&& holds_vector(
                *artifact,
                prefix + "attn_q_norm.weight"@,
                layout.head_dim,
                norms.query@,
            )
            &&& holds_vector(*artifact, prefix + "attn_k_norm.weight"@, layout.head_dim, norms.key@)
        }),
{
}

/// Whether values are the finite words of an artifact's `f32` vector of a name.
pub open spec fn holds_vector(
    artifact: VerifiedArtifact,
    name: Seq<char>,
    width: usize,
    values: Seq<u32>,
) -> bool {
    &&& values.len() == width
    &&& exists|tensor: VerifiedTensor<'_>|
        #[trigger] payload::found(artifact, name, tensor) && tensor.descriptor.ggml_type
            == GgmlType::F32 && tensor.descriptor.dims@ == seq![width as u64] && payload::words_of(
            tensor.bytes@,
            values,
        )
}

/// A vector that is read holds the words of the tensor of its name.
pub proof fn law_vector_is_read(
    artifact: &VerifiedArtifact,
    name: &str,
    width: usize,
    values: Vec<u32>,
)
    requires
        call_ensures(read_f32_vector, (artifact, name, width), Ok::<Vec<u32>, Error>(values)),
    ensures
        holds_vector(*artifact, name@, width, values@),
{
}

/// Query heads are divided over the key and value heads in contiguous groups of equal
/// size: head `h` reads head `k` exactly where it lies in group `k`.
pub proof fn law_head_groups(layout: Layout, head: usize, chosen: usize, group: int, k: int)
    requires
        call_ensures(kv_head, (layout, head), chosen),
        head < layout.heads,
        group > 0,
        group * layout.kv_heads == layout.heads,
        layout.kv_heads > 0,
    ensures
        chosen < layout.kv_heads,
        chosen == k <==> k * group <= head < k * group + group,
{
    let heads = layout.heads as int;
    let count = layout.kv_heads as int;
    vstd::arithmetic::div_mod::lemma_fundamental_div_mod_converse(heads, count, group, 0);
    let h = head as int;
    let c = h / group;
    vstd::arithmetic::div_mod::lemma_fundamental_div_mod(h, group);
    vstd::arithmetic::div_mod::lemma_mod_bound(h, group);
    assert(group * c == c * group) by (nonlinear_arith);
    if k * group <= head < k * group + group {
        vstd::arithmetic::div_mod::lemma_fundamental_div_mod_converse(h, group, k, h - k * group);
    }
}

/// The pairs of a rotation are a lane of the first half of a head and the lane as far
/// into the second half; every lane belongs to exactly one pair.
pub proof fn law_rotary_pairs(
    layout: Layout,
    left: usize,
    left_lanes: (usize, usize),
    right: usize,
    right_lanes: (usize, usize),
)
    requires
        call_ensures(neox_pair, (layout, left), left_lanes),
        call_ensures(neox_pair, (layout, right), right_lanes),
        layout.head_dim % 2 == 0,
        left < layout.head_dim / 2,
        right < layout.head_dim / 2,
    ensures
        left_lanes.0 == left,
        2 * (left_lanes.1 - left_lanes.0) == layout.head_dim,
        left_lanes.1 < layout.head_dim,
        left != right ==> left_lanes.0 != right_lanes.0 && left_lanes.0 != right_lanes.1
            && left_lanes.1 != right_lanes.0 && left_lanes.1 != right_lanes.1,
{
}

/// The row that is embedded for a token is the row of its id, and it becomes the
/// token's hidden row behind those of the tokens before it.
pub proof fn law_embedding(
    pass: Qwen3Pass,
    lent: &Qwen3Pass,
    token: usize,
    chosen: usize,
    values: &[u32],
    next: Qwen3Pass,
)
    requires
        pass@.stage == (PassStage::Embed { token }),
        *lent == pass,
        call_ensures(Qwen3Pass::embedding_row, (lent,), chosen),
        call_ensures(Qwen3Pass::embed, (pass, values), Ok::<Qwen3Pass, Error>(next)),
    ensures
        chosen == pass@.tokens[token as int],
        values@.len() == pass@.layout.hidden,
        next@.hidden.len() == pass@.hidden.len() + pass@.layout.hidden,
        forall|i: int| 0 <= i < pass@.hidden.len()
            ==> #[trigger] next@.hidden[i] == pass@.hidden[i],
        forall|i: int|
            0 <= i < values@.len()
                ==> next@.hidden[pass@.hidden.len() + i] == #[trigger] values@[i],
        token + 1 < pass@.tokens.len() ==> next@.stage == (PassStage::Embed {
            token: (token + 1) as usize,
        }),
        token + 1 >= pass@.tokens.len() ==> next@.stage == (PassStage::OpenBlock { block: 0 }),
        next@.tokens == pass@.tokens && next@.layout == pass@.layout,
{
}

/// A block is opened with caches of zeros, one key and one value row for every token,
/// and no residual rows.
pub proof fn law_block_opens_empty(
    pass: Qwen3Pass,
    block: usize,
    storage: BlockStorage,
    next: Qwen3Pass,
)
    requires
        pass@.stage == (PassStage::OpenBlock { block }),
        call_ensures(Qwen3Pass::open_block, (pass, storage), next),
    ensures
        next@.stage == (PassStage::Project { block, token: 0 }),
        next@.keys.len() == pass@.tokens.len() * pass@.layout.kv_width,
        next@.values.len() == pass@.tokens.len() * pass@.layout.kv_width,
        forall|i: int| 0 <= i < next@.keys.len() ==> #[trigger] next@.keys[i] == 0,
        forall|i: int| 0 <= i < next@.values.len() ==> #[trigger] next@.values[i] == 0,
        next@.residual.len() == 0,
        next@.hidden == pass@.hidden && next@.tokens == pass@.tokens && next@.layout
            == pass@.layout,
{
    assert(0 <= pass@.tokens.len() * pass@.layout.kv_width) by (nonlinear_arith);
}

/// The key and the value of a token are cached in the row of that token, every other
/// row stays as it was, and the query is kept for the same token of the same block.
pub proof fn law_keys_and_values_are_cached(
    pass: Qwen3Pass,
    block: usize,
    token: usize,
    query: Vec<u32>,
    key: &[u32],
    value: &[u32],
    next: Qwen3Pass,
)
    requires
        pass@.stage == (PassStage::Project { block, token }),
        call_ensures(Qwen3Pass::project, (pass, query, key, value), Ok::<Qwen3Pass, Error>(next)),
        pass@.keys.len() == pass@.tokens.len() * pass@.layout.kv_width,
        pass@.values.len() == pass@.tokens.len() * pass@.layout.kv_width,
    ensures
        next@.stage == (PassStage::Attend { block, token }),
        next@.query == query@,
        next@.keys.len() == pass@.keys.len() && next@.values.len() == pass@.values.len(),
        forall|i: int|
            0 <= i < key@.len() ==> next@.keys[token * pass@.layout.kv_width + i]
                == #[trigger] key@[i],
        forall|i: int|
            0 <= i < value@.len() ==> next@.values[token * pass@.layout.kv_width + i]
                == #[trigger] value@[i],
        forall|j: int|
            0 <= j < pass@.keys.len() && !(token * pass@.layout.kv_width <= j < token
                * pass@.layout.kv_width + key@.len()) ==> #[trigger] next@.keys[j] == pass@.keys[j],
        forall|j: int|
            0 <= j < pass@.values.len() && !(token * pass@.layout.kv_width <= j < token
                * pass@.layout.kv_width + value@.len()) ==> #[trigger] next@.values[j]
                == pass@.values[j],
        next@.hidden == pass@.hidden && next@.tokens == pass@.tokens && next@.layout
            == pass@.layout && next@.residual == pass@.residual,
{
    lemma_row_fits(token as int, pass@.layout.kv_width as int);
}

/// A token attends to its own key and value row and to those before it, to no later
/// one, with the query that was kept for it.
pub proof fn law_attention_is_causal(
    pass: &Qwen3Pass,
    block: usize,
    token: usize,
    seen: (&[u32], &[u32], &[u32]),
)
    requires
        pass@.stage == (PassStage::Attend { block, token }),
        call_ensures(Qwen3Pass::attention, (pass,), seen),
        pass@.keys.len() == pass@.tokens.len() * pass@.layout.kv_width,
        pass@.values.len() == pass@.tokens.len() * pass@.layout.kv_width,
        token < pass@.tokens.len(),
    ensures
        seen.0@ == pass@.query,
        seen.1@.len() == (token + 1) * pass@.layout.kv_width,
        seen.2@.len() == (token + 1) * pass@.layout.kv_width,
        forall|i: int| 0 <= i < seen.1@.len() ==> #[trigger] seen.1@[i] == pass@.keys[i],
        forall|i: int| 0 <= i < seen.2@.len() ==> #[trigger] seen.2@[i] == pass@.values[i],
{
    let rows = pass@.tokens.len() as int;
    let width = pass@.layout.kv_width as int;
    assert(0 <= (token + 1) * width <= rows * width) by (nonlinear_arith)
        requires
            token + 1 <= rows,
            0 <= width,
            0 <= token,
    ;
}

/// The output rows of attention and of the feed-forward network are kept in token
/// order, and each stage moves on to the next token, or to the sums after the last.
pub proof fn law_residual_rows_in_order(
    pass: Qwen3Pass,
    block: usize,
    token: usize,
    values: &[u32],
    attended: Qwen3Pass,
    forwarded: Qwen3Pass,
)
    ensures
        pass@.stage == (PassStage::Attend { block, token }) && call_ensures(
            Qwen3Pass::attend,
            (pass, values),
            attended,
        ) ==> {
            &&& appended(pass@.residual, values@, attended@.residual)
            &&& token + 1 < pass@.tokens.len() ==> attended@.stage == (PassStage::Project {
                block,
                token: (token + 1) as usize,
            })
            &&& token + 1 >= pass@.tokens.len() ==> attended@.stage == (PassStage::AddAttention {
                block,
            })
            &&& attended@.hidden == pass@.hidden && attended@.keys == pass@.keys
                && attended@.values == pass@.values
        },
        pass@.stage == (PassStage::FeedForward { block, token }) && call_ensures(
            Qwen3Pass::feed_forward,
            (pass, values),
            forwarded,
        ) ==> {
            &&& appended(pass@.residual, values@, forwarded@.residual)
            &&& token + 1 < pass@.tokens.len() ==> forwarded@.stage == (PassStage::FeedForward {
                block,
                token: (token + 1) as usize,
            })
            &&& token + 1 >= pass@.tokens.len() ==> forwarded@.stage == (
            PassStage::AddFeedForward { block })
            &&& forwarded@.hidden == pass@.hidden
        },
{
}

/// Whether a list is another with values behind it.
pub open spec fn appended(before: Seq<u32>, values: Seq<u32>, after: Seq<u32>) -> bool {
    &&& after.len() == before.len() + values.len()
    &&& forall|i: int| 0 <= i < before.len() ==> #[trigger] after[i] == before[i]
    &&& forall|i: int| 0 <= i < values.len() ==> after[before.len() + i] == #[trigger] values[i]
}

/// The sums replace the hidden rows, one value for one value; the block's feed-forward
/// network follows its attention, and the next block, or the final norm after the last
/// block, follows its feed-forward network.
pub proof fn law_blocks_in_order(
    pass: Qwen3Pass,
    block: usize,
    sums: Vec<u32>,
    storage: Vec<u32>,
    added: Qwen3Pass,
    opened: Qwen3Pass,
    finished: Qwen3Pass,
)
    ensures
        pass@.stage == (PassStage::AddAttention { block }) && call_ensures(
            Qwen3Pass::add_attention,
            (pass, sums),
            Ok::<Qwen3Pass, Error>(added),
        ) ==> added@.stage == (PassStage::OpenFeedForward { block }) && added@.hidden == sums@
            && sums@.len() == pass@.hidden.len() && pass@.residual.len() == pass@.hidden.len(),
        pass@.stage == (PassStage::OpenFeedForward { block }) && call_ensures(
            Qwen3Pass::open_feed_forward,
            (pass, storage),
            opened,
        ) ==> opened@.stage == (PassStage::FeedForward { block, token: 0 })
            && opened@.residual.len() == 0 && opened@.hidden == pass@.hidden,
        pass@.stage == (PassStage::AddFeedForward { block }) && call_ensures(
            Qwen3Pass::add_feed_forward,
            (pass, sums),
            Ok::<Qwen3Pass, Error>(finished),
        ) ==> {
            &&& finished@.hidden == sums@ && sums@.len() == pass@.hidden.len()
                && pass@.residual.len() == pass@.hidden.len()
            &&& block + 1 < pass@.layout.blocks ==> finished@.stage == (PassStage::OpenBlock {
                block: (block + 1) as usize,
            })
            &&& block + 1 >= pass@.layout.blocks ==> finished@.stage == PassStage::Normalize
        },
{
}

/// The given row is the last of the normalized rows, of the hidden width and finite.
pub proof fn law_last_row_is_given(
    pass: Qwen3Pass,
    rows: &[u32],
    storage: Vec<u32>,
    finished: Qwen3Pass,
    given: Vec<u32>,
    i: int,
)
    requires
        call_ensures(Qwen3Pass::normalize, (pass, rows, storage), Ok::<Qwen3Pass, Error>(finished)),
        call_ensures(Qwen3Pass::into_last_row, (finished,), given),
        pass@.tokens.len() > 0,
        0 <= i < pass@.layout.hidden,
    ensures
        given@.len() == pass@.layout.hidden,
        rows@.len() == pass@.tokens.len() * pass@.layout.hidden,
        given@[i] == rows@[(pass@.tokens.len() - 1) * pass@.layout.hidden + i],
        given@[i] & 0x7f80_0000u32 != 0x7f80_0000u32,
{
    lemma_row_fits(pass@.tokens.len() - 1, pass@.layout.hidden as int);
    crate::float_bits::lemma_finite_exponent(given@[i]);
}

/// A pass begins for one to as many tokens as the executor admits, with the executor's
/// geometry and with the ids in their order.
pub proof fn law_pass_begins(
    execution: &Qwen3Execution<'_, '_>,
    token_ids: &[u32],
    pass: Result<Qwen3Pass, Error>,
)
    requires
        call_ensures(Qwen3Execution::last_hidden, (execution, token_ids), pass),
    ensures
        pass matches Ok(pass) ==> {
            &&& 0 < token_ids@.len() <= execution.spec_max_context()
            &&& pass@.tokens == token_ids@
            &&& pass@.layout == execution.spec_body().spec_layout()
            &&& pass@.stage == (PassStage::Embed { token: 0 })
            &&& pass@.hidden.len() == 0
        },
        token_ids@.len() == 0 || token_ids@.len() > execution.spec_max_context() ==> pass is Err,
{
}

/// Row `index` of a list of rows holds the values from `index * width` on.
pub proof fn law_row<T>(values: &[T], index: usize, width: usize, taken: &[T], i: int)
    requires
        call_ensures(row::<T>, (values, index, width), Ok::<&[T], Error>(taken)),
        0 <= i < width,
    ensures
        taken@.len() == width,
        (index + 1) * width <= values@.len(),
        taken@[i] == values@[index * width + i],
{
    lemma_row_fits(index as int, width as int);
}

/// Values are copied in place, one for one, and nothing around them changes; a copy that
/// does not fit changes nothing.
pub proof fn law_values_are_copied(
    destination: &mut Vec<u32>,
    start: usize,
    source: &[u32],
    target: &'static str,
    copied: Result<(), Error>,
)
    requires
        call_ensures(copy_into, (destination, start, source, target), copied),
    ensures
        final(destination)@.len() == old(destination)@.len(),
        copied is Ok ==> start + source@.len() <= old(destination)@.len(),
        start + source@.len() > old(destination)@.len() ==> copied is Err && final(destination)@
            == old(destination)@,
        start + source@.len() <= old(destination)@.len() && start + source@.len() <= usize::MAX
            ==> (forall|i: int|
            0 <= i < source@.len() ==> final(destination)@[start + i] == #[trigger] source@[i])
            && (forall|j: int|
            0 <= j < start || start + source@.len() <= j < old(destination)@.len()
                ==> #[trigger] final(destination)@[j] == old(destination)@[j]),
{
}

/// A pass is admitted for one to as many tokens as the executor's context, and what it
/// holds is sized by them.
pub proof fn law_tokens_are_admitted(
    execution: &Qwen3Execution<'_, '_>,
    tokens: usize,
    shape: Result<Qwen3AllocationShape, Error>,
)
    requires
        call_ensures(Qwen3Execution::admit_tokens, (execution, tokens), shape),
    ensures
        shape matches Ok(shape) ==> 0 < tokens <= execution.spec_max_context() && shape.tokens
            == tokens && shape.hidden_rows == tokens * execution.spec_body().spec_layout().hidden
            && shape.key_cache == tokens * execution.spec_body().spec_layout().kv_width,
        tokens == 0 || tokens > execution.spec_max_context() ==> shape is Err,
{
}

/// A pass begins with its tokens and its executor's geometry, before its first token is
/// embedded.
pub proof fn law_pass_starts_empty(
    execution: &Qwen3Execution<'_, '_>,
    token_ids: &[u32],
    storage: Vec<u32>,
    pass: Qwen3Pass,
)
    requires
        call_ensures(
            Qwen3Execution::begin,
            (execution, token_ids, storage),
            Ok::<Qwen3Pass, Error>(pass),
        ),
    ensures
        pass@.tokens == token_ids@ && pass@.layout == execution.spec_body().spec_layout(),
        pass@.stage == (PassStage::Embed { token: 0 }) && pass@.hidden.len() == 0
            && pass@.residual.len() == 0,
        0 < token_ids@.len() <= execution.spec_max_context(),
{
}

/// The row that a stage works on is the hidden row of its own token.
pub proof fn law_token_row(pass: &Qwen3Pass, token: usize, lent: &[u32], i: int)
    requires
        call_ensures(Qwen3Pass::token_row, (pass,), lent),
        pass@.stage is Project && pass@.stage->Project_token == token || pass@.stage is FeedForward
            && pass@.stage->FeedForward_token == token,
        (token + 1) * pass@.layout.hidden <= pass@.hidden.len(),
        0 <= i < pass@.layout.hidden,
    ensures
        lent@.len() == pass@.layout.hidden,
        lent@[i] == pass@.hidden[token * pass@.layout.hidden + i],
{
    lemma_row_fits(token as int, pass@.layout.hidden as int);
}

/// The stages of one block name each of the eleven tensors that the inventory stores for
/// that block: six for the attention inputs, one for the attention output, four for the
/// feed-forward network.
pub proof fn law_stages_name_every_block_tensor(
    block: usize,
    inputs: (
        &TokenPass<'_>,
        &TokenPass<'_>,
        &TokenPass<'_>,
        &TokenPass<'_>,
        &TokenPass<'_>,
        &TokenPass<'_>,
    ),
    input_names: (String, String, String, String, String, String),
    forward: (&FeedForwardPass<'_>, &FeedForwardPass<'_>, &FeedForwardPass<'_>, &FeedForwardPass<'_>),
    forward_names: (String, String, String, String),
    pass: &Qwen3Pass,
    output_name: String,
    roles: Vec<Role>,
    r: int,
)
    requires
        inputs.0@.block == block && inputs.0@.stage == TokenStage::Normalize,
        call_ensures(TokenPass::operand, (inputs.0,), Some(input_names.0)),
        inputs.1@.block == block && inputs.1@.stage == TokenStage::ProjectQuery,
        call_ensures(TokenPass::operand, (inputs.1,), Some(input_names.1)),
        inputs.2@.block == block && inputs.2@.stage == TokenStage::ProjectKey,
        call_ensures(TokenPass::operand, (inputs.2,), Some(input_names.2)),
        inputs.3@.block == block && inputs.3@.stage == TokenStage::ProjectValue,
        call_ensures(TokenPass::operand, (inputs.3,), Some(input_names.3)),
        inputs.4@.block == block && inputs.4@.stage == TokenStage::NormalizeQuery,
        call_ensures(TokenPass::operand, (inputs.4,), Some(input_names.4)),
        inputs.5@.block == block && inputs.5@.stage == TokenStage::NormalizeKey,
        call_ensures(TokenPass::operand, (inputs.5,), Some(input_names.5)),
        forward.0@.block == block && forward.0@.stage == FeedForwardStage::Normalize,
        call_ensures(FeedForwardPass::operand, (forward.0,), Some(forward_names.0)),
        forward.1@.block == block && forward.1@.stage == FeedForwardStage::ProjectGate,
        call_ensures(FeedForwardPass::operand, (forward.1,), Some(forward_names.1)),
        forward.2@.block == block && forward.2@.stage == FeedForwardStage::ProjectUp,
        call_ensures(FeedForwardPass::operand, (forward.2,), Some(forward_names.2)),
        forward.3@.block == block && forward.3@.stage == FeedForwardStage::ProjectDown,
        call_ensures(FeedForwardPass::operand, (forward.3,), Some(forward_names.3)),
        pass@.stage is Attend && pass@.stage->Attend_block == block,
        call_ensures(Qwen3Pass::matrix_name, (pass,), Some(output_name)),
        call_ensures(block_roles, (), roles),
        0 <= r < roles@.len(),
    ensures
        roles@.len() == 11,
        ({
            let name = "blk."@ + text::decimal(block as nat) + "."@ + roles@[r].name@;
            ||| input_names.0@ == name
            ||| input_names.1@ == name
            ||| input_names.2@ == name
            ||| input_names.3@ == name
            ||| input_names.4@ == name
            ||| input_names.5@ == name
            ||| forward_names.0@ == name
            ||| forward_names.1@ == name
            ||| forward_names.2@ == name
            ||| forward_names.3@ == name
            ||| output_name@ == name
        }),
{
}

} // verus!
