//! Laws of the full-attention block and of the tail that finishes a layer.

use crate::error::Error;
use crate::gguf::{GgmlType, VerifiedArtifact, VerifiedTensor};
use crate::payload;
use crate::qwen35_attention::{AttentionPass, AttentionStage, FinishPass, FinishStage};
use crate::qwen35_execution::{Layout, PagedDecodePlan};
use crate::qwen35_session::FullAttentionStep;
use crate::text;
use vstd::prelude::*;

verus! {

/// Every matrix that a full-attention pass asks for is stored under `blk.`, the
/// decimal number of the pass's own block, and the role of the stage; queries, keys
/// and values are projected from the normalized row, the output from the merged heads.
pub proof fn law_attention_names_its_block(
    pass: &AttentionPass,
    named: Option<(String, &[u32])>,
)
    requires
        call_ensures(AttentionPass::projection, (pass,), named),
    ensures
        named is Some <==> (pass@.stage == AttentionStage::ProjectQueryGate || pass@.stage
            == AttentionStage::ProjectKey || pass@.stage == AttentionStage::ProjectValue
            || pass@.stage == AttentionStage::ProjectOutput),
        named matches Some((name, row)) ==> {
            let block = "blk."@ + text::decimal(pass@.step.block as nat) + "."@;
            &&& pass@.stage == AttentionStage::ProjectQueryGate ==> name@ == block
                + "attn_q.weight"@ && row@ == pass@.normalized
            &&& pass@.stage == AttentionStage::ProjectKey ==> name@ == block + "attn_k.weight"@
                && row@ == pass@.normalized
            &&& pass@.stage == AttentionStage::ProjectValue ==> name@ == block
                + "attn_v.weight"@ && row@ == pass@.normalized
            &&& pass@.stage == AttentionStage::ProjectOutput ==> name@ == block
                + "attn_output.weight"@ && row@ == pass@.merged
        },
{
}

/// Passes of different blocks never ask for the same matrix, at any stages.
pub proof fn law_attention_blocks_share_no_matrix(
    left: &AttentionPass,
    right: &AttentionPass,
    left_name: String,
    left_row: &[u32],
    right_name: String,
    right_row: &[u32],
)
    requires
        call_ensures(AttentionPass::projection, (left,), Some((left_name, left_row))),
        call_ensures(AttentionPass::projection, (right,), Some((right_name, right_row))),
        left@.step.block != right@.step.block,
    ensures
        left_name@ != right_name@,
{
    if left_name@ == right_name@ {
        let block = left@.step.block as nat;
        let other = right@.step.block as nat;
        let left_role = match left@.stage {
            AttentionStage::ProjectQueryGate => "attn_q.weight"@,
            AttentionStage::ProjectKey => "attn_k.weight"@,
            AttentionStage::ProjectValue => "attn_v.weight"@,
            _ => "attn_output.weight"@,
        };
        let right_role = match right@.stage {
            AttentionStage::ProjectQueryGate => "attn_q.weight"@,
            AttentionStage::ProjectKey => "attn_k.weight"@,
            AttentionStage::ProjectValue => "attn_v.weight"@,
            _ => "attn_output.weight"@,
        };
        text::lemma_block_name_injective(block, left_role, other, right_role);
    }
}

/// The four matrices of a call are those of the block of the step that the call began
/// with, and the row that the first three are applied to is the normalized row that
/// the call was handed, of the model's hidden width.
pub proof fn law_attention_projects_for_its_step(
    layout: Layout,
    step: FullAttentionStep,
    plan: PagedDecodePlan,
    begun: AttentionPass,
    normalized: Vec<u32>,
    first: AttentionPass,
    interleaved: Vec<u32>,
    second: AttentionPass,
    key: Vec<u32>,
    third: AttentionPass,
    named: (String, &[u32], String, &[u32], String, &[u32]),
)
    requires
        call_ensures(AttentionPass::begin, (layout, step, plan), Ok::<AttentionPass, Error>(begun)),
        call_ensures(
            AttentionPass::normalize,
            (begun, normalized),
            Ok::<AttentionPass, Error>(first),
        ),
        call_ensures(AttentionPass::projection, (&first,), Some((named.0, named.1))),
        call_ensures(
            AttentionPass::project_query_gate,
            (first, interleaved),
            Ok::<AttentionPass, Error>(second),
        ),
        call_ensures(AttentionPass::projection, (&second,), Some((named.2, named.3))),
        call_ensures(
            AttentionPass::project_key,
            (second, key),
            Ok::<AttentionPass, Error>(third),
        ),
        call_ensures(AttentionPass::projection, (&third,), Some((named.4, named.5))),
    ensures
        named.0@ == "blk."@ + text::decimal(step.block as nat) + "."@ + "attn_q.weight"@,
        named.2@ == "blk."@ + text::decimal(step.block as nat) + "."@ + "attn_k.weight"@,
        named.4@ == "blk."@ + text::decimal(step.block as nat) + "."@ + "attn_v.weight"@,
        named.1@ == normalized@ && named.3@ == normalized@ && named.5@ == normalized@,
        normalized@.len() == layout.hidden,
        interleaved@.len() == 2 * layout.query_width,
        key@.len() == layout.kv_width,
        third@.step == step && third@.layout == layout,
{
}

/// From the split onward a call keeps its block, its position, and its geometry; what
/// it appends is the rotated key and the value as projected, and the rotated query is
/// what the heads attend with.
pub proof fn law_attention_appends_its_rows(
    pass: AttentionPass,
    value: Vec<u32>,
    projected: AttentionPass,
    split: AttentionPass,
    query: Vec<u32>,
    normalized_query: AttentionPass,
    key: Vec<u32>,
    normalized_key: AttentionPass,
    turned_query: Vec<u32>,
    rotated_query: AttentionPass,
    turned_key: Vec<u32>,
    rotated_key: AttentionPass,
    row: (&[u32], &[u32]),
    rows: usize,
    appended: AttentionPass,
    heads: (&[u32], &[u32]),
)
    requires
        call_ensures(
            AttentionPass::project_value,
            (pass, value),
            Ok::<AttentionPass, Error>(projected),
        ),
        call_ensures(AttentionPass::split, (projected,), Ok::<AttentionPass, Error>(split)),
        call_ensures(
            AttentionPass::normalize_query,
            (split, query),
            Ok::<AttentionPass, Error>(normalized_query),
        ),
        call_ensures(
            AttentionPass::normalize_key,
            (normalized_query, key),
            Ok::<AttentionPass, Error>(normalized_key),
        ),
        call_ensures(
            AttentionPass::rotate_query,
            (normalized_key, turned_query),
            Ok::<AttentionPass, Error>(rotated_query),
        ),
        call_ensures(
            AttentionPass::rotate_key,
            (rotated_query, turned_key),
            Ok::<AttentionPass, Error>(rotated_key),
        ),
        call_ensures(AttentionPass::appended_row, (&rotated_key,), row),
        call_ensures(
            AttentionPass::append,
            (rotated_key, rows),
            Ok::<AttentionPass, Error>(appended),
        ),
        call_ensures(AttentionPass::head, (&appended,), heads),
        pass@.layout.key <= pass@.layout.query_width,
    ensures
        row.0@ == turned_key@ && row.1@ == value@,
        rows == pass@.step.position + 1,
        appended@.step == pass@.step && appended@.layout == pass@.layout,
        appended@.stage == (AttentionStage::Attend { head: 0 }),
        appended@.merged.len() == 0,
        heads.0@.len() == pass@.layout.key,
        forall|i: int|
            0 <= i < pass@.layout.key ==> #[trigger] heads.0@[i] == turned_query@[i],
        turned_query@.len() == pass@.layout.query_width,
        turned_key@.len() == pass@.layout.kv_width,
        value@.len() == pass@.layout.kv_width,
{
    assert(appended@.stage->Attend_head == 0);
    assert(0 * pass@.layout.key == 0) by (nonlinear_arith);
}

/// The split undoes the interleaving: of every head, the first half of its projected
/// pair is its query and the second half its gate.
pub proof fn law_attention_split_lanes(
    pass: AttentionPass,
    split: AttentionPass,
    head: int,
    lane: int,
)
    requires
        call_ensures(AttentionPass::split, (pass,), Ok::<AttentionPass, Error>(split)),
        0 <= head < pass@.layout.heads,
        0 <= lane < pass@.layout.key,
    ensures
        split@.query[head * pass@.layout.key + lane] == pass@.query[2 * head * pass@.layout.key
            + lane],
        split@.gate[head * pass@.layout.key + lane] == pass@.query[2 * head * pass@.layout.key
            + pass@.layout.key + lane],
        split@.key == pass@.key && split@.value == pass@.value && split@.normalized
            == pass@.normalized,
{
    let key = pass@.layout.key as int;
    assert(head * (2 * key) == 2 * head * key) by (nonlinear_arith);
    assert(split@.query[head * key + lane] == pass@.query[head * (2 * key) + lane]);
}

/// Each head is offered its own window of the query and of its output gating.
pub proof fn law_attention_head_windows(
    pass: &AttentionPass,
    rows: (&[u32], &[u32]),
    head: usize,
    lane: int,
)
    requires
        call_ensures(AttentionPass::head, (pass,), rows),
        pass@.stage == (AttentionStage::Attend { head }),
        (head + 1) * pass@.layout.key <= pass@.query.len(),
        (head + 1) * pass@.layout.key <= pass@.gate.len(),
        0 <= lane < pass@.layout.key,
    ensures
        rows.0@.len() == pass@.layout.key && rows.1@.len() == pass@.layout.key,
        rows.0@[lane] == pass@.query[head * pass@.layout.key + lane],
        rows.1@[lane] == pass@.gate[head * pass@.layout.key + lane],
{
    assert((head + 1) * pass@.layout.key == head * pass@.layout.key + pass@.layout.key)
        by (nonlinear_arith);
    assert(0 <= head * pass@.layout.key) by (nonlinear_arith);
}

/// Heads attend in order, each one once, and their gated rows are kept one after the
/// other; the output projection is asked for after the last head and not before.
pub proof fn law_attention_merges_in_order(
    pass: AttentionPass,
    gated: &[u32],
    next: AttentionPass,
    head: usize,
)
    requires
        call_ensures(AttentionPass::attend, (pass, gated), Ok::<AttentionPass, Error>(next)),
        pass@.stage == (AttentionStage::Attend { head }),
    ensures
        next@.merged.len() == pass@.merged.len() + gated@.len(),
        forall|i: int| 0 <= i < pass@.merged.len()
            ==> #[trigger] next@.merged[i] == pass@.merged[i],
        forall|i: int|
            0 <= i < gated@.len() ==> next@.merged[pass@.merged.len() + i] == #[trigger] gated@[i],
        head + 1 < pass@.layout.heads ==> next@.stage == (AttentionStage::Attend {
            head: (head + 1) as usize,
        }),
        head + 1 >= pass@.layout.heads ==> next@.stage == AttentionStage::ProjectOutput,
        next@.step == pass@.step && next@.layout == pass@.layout && next@.query == pass@.query
            && next@.gate == pass@.gate,
        forall|i: int| 0 <= i < gated@.len() ==> (#[trigger] gated@[i] / 0x80_0000) % 256 != 255,
{
    assert forall|i: int| 0 <= i < gated@.len() implies (#[trigger] gated@[i] / 0x80_0000) % 256
        != 255 by {
        crate::float_bits::lemma_finite_exponent(gated@[i]);
    }
}

/// A finished call gives back the projected output, one row of the hidden width.
pub proof fn law_attention_output(
    pass: AttentionPass,
    output: Vec<u32>,
    finished: AttentionPass,
    given: Vec<u32>,
)
    requires
        call_ensures(
            AttentionPass::project_output,
            (pass, output),
            Ok::<AttentionPass, Error>(finished),
        ),
        call_ensures(AttentionPass::into_output, (finished,), given),
    ensures
        given@ == output@,
        output@.len() == pass@.layout.hidden,
        finished@.stage == AttentionStage::Finished && finished@.step == pass@.step,
{
}

/// The vector that `read_input_norm` gives is the one-dimensional `f32` tensor
/// `attn_norm.weight` of the pass's own block, word by word.
pub proof fn law_attention_read_input_norm(
    pass: &AttentionPass,
    artifact: &VerifiedArtifact,
    norm: Vec<u32>,
)
    requires
        call_ensures(
            AttentionPass::read_input_norm,
            (pass, artifact),
            Ok::<Vec<u32>, Error>(norm),
        ),
    ensures
        norm@.len() == pass@.layout.hidden,
        exists|tensor: VerifiedTensor<'_>|
            #[trigger] payload::found(
                *artifact,
                "blk."@ + text::decimal(pass@.step.block as nat) + "."@ + "attn_norm.weight"@,
                tensor,
            ) && tensor.descriptor.ggml_type == GgmlType::F32 && tensor.descriptor.dims@
                == seq![pass@.layout.hidden as u64] && payload::words_of(tensor.bytes@, norm@),
{
}

/// The vector that `read_query_norm` gives is the one-dimensional `f32` tensor
/// `attn_q_norm.weight` of the pass's own block, word by word.
pub proof fn law_attention_read_query_norm(
    pass: &AttentionPass,
    artifact: &VerifiedArtifact,
    norm: Vec<u32>,
)
    requires
        call_ensures(
            AttentionPass::read_query_norm,
            (pass, artifact),
            Ok::<Vec<u32>, Error>(norm),
        ),
    ensures
        norm@.len() == pass@.layout.key,
        exists|tensor: VerifiedTensor<'_>|
            #[trigger] payload::found(
                *artifact,
                "blk."@ + text::decimal(pass@.step.block as nat) + "."@ + "attn_q_norm.weight"@,
                tensor,
            ) && tensor.descriptor.ggml_type == GgmlType::F32 && tensor.descriptor.dims@
                == seq![pass@.layout.key as u64] && payload::words_of(tensor.bytes@, norm@),
{
}

/// The vector that `read_key_norm` gives is the one-dimensional `f32` tensor
/// `attn_k_norm.weight` of the pass's own block, word by word.
pub proof fn law_attention_read_key_norm(
    pass: &AttentionPass,
    artifact: &VerifiedArtifact,
    norm: Vec<u32>,
)
    requires
        call_ensures(
            AttentionPass::read_key_norm,
            (pass, artifact),
            Ok::<Vec<u32>, Error>(norm),
        ),
    ensures
        norm@.len() == pass@.layout.key,
        exists|tensor: VerifiedTensor<'_>|
            #[trigger] payload::found(
                *artifact,
                "blk."@ + text::decimal(pass@.step.block as nat) + "."@ + "attn_k_norm.weight"@,
                tensor,
            ) && tensor.descriptor.ggml_type == GgmlType::F32 && tensor.descriptor.dims@
                == seq![pass@.layout.key as u64] && payload::words_of(tensor.bytes@, norm@),
{
}

/// The matrices of a layer's tail are the feed-forward matrices of its own block: gate
/// and up are applied to the normalized row, down to the fused row.
pub proof fn law_finish_names_its_block(pass: &FinishPass, named: Option<(String, &[u32])>)
    requires
        call_ensures(FinishPass::projection, (pass,), named),
    ensures
        named is Some <==> (pass@.stage == FinishStage::ProjectGate || pass@.stage
            == FinishStage::ProjectUp || pass@.stage == FinishStage::ProjectDown),
        named matches Some((name, row)) ==> {
            let block = "blk."@ + text::decimal(pass@.block as nat) + "."@;
            &&& pass@.stage == FinishStage::ProjectGate ==> name@ == block + "ffn_gate.weight"@
                && row@ == pass@.normalized
            &&& pass@.stage == FinishStage::ProjectUp ==> name@ == block + "ffn_up.weight"@
                && row@ == pass@.normalized
            &&& pass@.stage == FinishStage::ProjectDown ==> name@ == block + "ffn_down.weight"@
                && row@ == pass@.fused
        },
{
}

/// Over a whole tail: every row a matrix is applied to is the row handed in before it,
/// the widths are those of the geometry, and the given row is the last sum.
pub proof fn law_finish_passes_rows_on(
    layout: Layout,
    block: usize,
    hidden: Vec<u32>,
    attention: Vec<u32>,
    begun: FinishPass,
    residual: &[u32],
    sums: Vec<u32>,
    added: FinishPass,
    before: &[u32],
    row: Vec<u32>,
    normalized: FinishPass,
    gate: Vec<u32>,
    gated: FinishPass,
    up: Vec<u32>,
    upped: FinishPass,
    activated: Vec<u32>,
    active: FinishPass,
    operands: (&[u32], &[u32]),
    fused: Vec<u32>,
    product: FinishPass,
    down: Vec<u32>,
    downed: FinishPass,
    tail: &[u32],
    last: Vec<u32>,
    finished: FinishPass,
    given: Vec<u32>,
    named: (String, &[u32], String, &[u32], String, &[u32]),
)
    requires
        call_ensures(
            FinishPass::begin,
            (layout, block, hidden, attention),
            Ok::<FinishPass, Error>(begun),
        ),
        call_ensures(FinishPass::residual, (&begun,), residual),
        call_ensures(FinishPass::add_attention, (begun, sums), Ok::<FinishPass, Error>(added)),
        call_ensures(FinishPass::hidden, (&added,), before),
        call_ensures(FinishPass::normalize, (added, row), Ok::<FinishPass, Error>(normalized)),
        call_ensures(FinishPass::projection, (&normalized,), Some((named.0, named.1))),
        call_ensures(FinishPass::project_gate, (normalized, gate), Ok::<FinishPass, Error>(gated)),
        call_ensures(FinishPass::projection, (&gated,), Some((named.2, named.3))),
        call_ensures(FinishPass::project_up, (gated, up), Ok::<FinishPass, Error>(upped)),
        call_ensures(FinishPass::activate, (upped, activated), Ok::<FinishPass, Error>(active)),
        call_ensures(FinishPass::gated, (&active,), operands),
        call_ensures(FinishPass::fuse, (active, fused), Ok::<FinishPass, Error>(product)),
        call_ensures(FinishPass::projection, (&product,), Some((named.4, named.5))),
        call_ensures(FinishPass::project_down, (product, down), Ok::<FinishPass, Error>(downed)),
        call_ensures(FinishPass::residual, (&downed,), tail),
        call_ensures(
            FinishPass::add_feed_forward,
            (downed, last),
            Ok::<FinishPass, Error>(finished),
        ),
        call_ensures(FinishPass::into_hidden, (finished,), given),
    ensures
        residual@ == attention@ && attention@.len() == layout.hidden,
        before@ == sums@ && sums@.len() == layout.hidden,
        row@.len() == layout.hidden,
        gate@.len() == layout.feed_forward && up@.len() == layout.feed_forward,
        operands.0@ == activated@ && operands.1@ == up@ && activated@.len() == layout.feed_forward,
        fused@.len() == layout.feed_forward,
        down@.len() == layout.hidden && tail@ == down@,
        given@ == last@ && last@.len() == layout.hidden,
        named.1@ == row@ && named.3@ == row@ && named.5@ == fused@,
        named.0@ == "blk."@ + text::decimal(block as nat) + "."@ + "ffn_gate.weight"@,
        named.2@ == "blk."@ + text::decimal(block as nat) + "."@ + "ffn_up.weight"@,
        named.4@ == "blk."@ + text::decimal(block as nat) + "."@ + "ffn_down.weight"@,
{
}

/// The vector that normalizes the row after attention is the `f32` tensor
/// `post_attention_norm.weight` of the tail's own block, of the hidden width.
pub proof fn law_finish_read_norm(pass: &FinishPass, artifact: &VerifiedArtifact, norm: Vec<u32>)
    requires
        call_ensures(FinishPass::read_norm, (pass, artifact), Ok::<Vec<u32>, Error>(norm)),
    ensures
        norm@.len() == pass@.layout.hidden,
        exists|tensor: VerifiedTensor<'_>|
            #[trigger] payload::found(
                *artifact,
                "blk."@ + text::decimal(pass@.block as nat) + "."@ + "post_attention_norm.weight"@,
                tensor,
            ) && tensor.descriptor.ggml_type == GgmlType::F32 && tensor.descriptor.dims@
                == seq![pass@.layout.hidden as u64] && payload::words_of(tensor.bytes@, norm@),
{
}

} // verus!
