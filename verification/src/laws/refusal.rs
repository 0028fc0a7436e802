//! Laws of refusal: an operation is refused only for the reason it states, so that
//! fitting values are always taken.

use crate::error::Error;
use crate::float_bits;
use crate::gguf;
use crate::gguf::{GgmlType, VerifiedArtifact, VerifiedTensor};
use crate::matrix::MatrixHeader;
use crate::payload;
use crate::payload::{find_parameter, read_words};
use crate::qwen3;
use crate::qwen35::Qwen35RecurrentLayout;
use crate::qwen35_attention::{AttentionPass, FinishPass};
use crate::qwen35_batch;
use crate::qwen35_batch::{admit_batch, PackedPrefillPlan};
use crate::qwen35_execution;
use crate::qwen35_execution::{split_query_gate, Layout, PagedDecodePlan, Qwen35LogitSelection};
use crate::qwen35_recurrent;
use crate::qwen35_recurrent::{
    heads_from_tokens, heads_to_tokens, retained_elements, tile_key_heads, ExecutionLayout,
};
use crate::qwen35_recurrent_pass;
use crate::qwen35_recurrent_pass::RecurrentPass;
use crate::qwen35_requirements::Qwen35BatchCpuRequirements;
use crate::qwen35_session;
use crate::qwen35_session::{
    FullAttentionStep, Qwen35Execution, Qwen35ExecutionPlan, StagedExecution,
};
use crate::qwen3_execution::{Qwen3AllocationShape, Qwen3Execution};
use crate::qwen3_pass::{read_f32_vector, Qwen3Pass};
use crate::qwen3_token::{FeedForwardPass, FeedForwardStage, TokenPass, TokenStage};
use vstd::prelude::*;

verus! {

/// Whether every value, given by its bit pattern, has exponent bits that are not all ones.
pub open spec fn finite_values(values: Seq<u32>) -> bool {
    forall|i: int| 0 <= i < values.len() ==> #[trigger] values[i] & 0x7f80_0000u32 != 0x7f80_0000u32
}

proof fn lemma_finite_values(values: Seq<u32>)
    ensures
        qwen35_execution::all_finite(values) <==> finite_values(values),
        qwen35_recurrent_pass::all_finite(values) <==> finite_values(values),
{
    assert forall|i: int| 0 <= i < values.len() implies float_bits::finite(#[trigger] values[i])
        == (values[i] & 0x7f80_0000u32 != 0x7f80_0000u32) by {
        float_bits::lemma_finite_exponent(values[i]);
    }
    if finite_values(values) {
        assert forall|i: int| 0 <= i < values.len() implies float_bits::finite(
            #[trigger] values[i],
        ) by {
            assert(values[i] & 0x7f80_0000u32 != 0x7f80_0000u32);
        }
    }
    if qwen35_execution::all_finite(values) || qwen35_recurrent_pass::all_finite(values) {
        assert forall|i: int| 0 <= i < values.len() implies #[trigger] values[i] & 0x7f80_0000u32
            != 0x7f80_0000u32 by {
            assert(float_bits::finite(values[i]));
        }
    }
}

proof fn lemma_nonfinite(values: Seq<u32>, stage: &'static str, error: Error)
    requires
        qwen35_recurrent_pass::nonfinite(values, stage, error),
        values.len() <= usize::MAX,
    ensures
        !finite_values(values),
{
    let i = choose|i: int| #[trigger]
        qwen35_recurrent::refuses_value(values, stage, 0, i, error);
    float_bits::lemma_finite_exponent(values[i]);
    assert(values[i] & 0x7f80_0000u32 == 0x7f80_0000u32);
}

/// A full-attention pass takes values exactly where they have the width of their row,
/// and rotated values only where they are finite too.
pub proof fn law_attention_takes_fitting_rows(
    pass: AttentionPass,
    values: Vec<u32>,
    next: Result<AttentionPass, Error>,
)
    ensures
        call_ensures(AttentionPass::normalize, (pass, values), next) ==> (next is Ok
            <==> values@.len() == pass@.layout.hidden),
        call_ensures(AttentionPass::project_query_gate, (pass, values), next) ==> (next is Ok
            <==> values@.len() == 2 * pass@.layout.query_width),
        call_ensures(AttentionPass::project_key, (pass, values), next) ==> (next is Ok
            <==> values@.len() == pass@.layout.kv_width),
        call_ensures(AttentionPass::project_value, (pass, values), next) ==> (next is Ok
            <==> values@.len() == pass@.layout.kv_width),
        call_ensures(AttentionPass::normalize_query, (pass, values), next) ==> (next is Ok
            <==> values@.len() == pass@.layout.query_width),
        call_ensures(AttentionPass::normalize_key, (pass, values), next) ==> (next is Ok
            <==> values@.len() == pass@.layout.kv_width),
        call_ensures(AttentionPass::rotate_query, (pass, values), next) ==> (next is Ok
            <==> values@.len() == pass@.layout.query_width && finite_values(values@)),
        call_ensures(AttentionPass::rotate_key, (pass, values), next) ==> (next is Ok
            <==> values@.len() == pass@.layout.kv_width && finite_values(values@)),
        call_ensures(AttentionPass::project_output, (pass, values), next) ==> (next is Ok
            <==> values@.len() == pass@.layout.hidden),
{
    lemma_finite_values(values@);
}

/// A full-attention pass begins unless its position or its workspace cannot be counted,
/// takes the gated rows of a head exactly where they are finite, and is refused its
/// appended row only for another number of rows or want of memory.
pub proof fn law_attention_goes_on(
    layout: Layout,
    step: FullAttentionStep,
    plan: PagedDecodePlan,
    begun: Result<AttentionPass, Error>,
    pass: AttentionPass,
    gated: &[u32],
    attended: Result<AttentionPass, Error>,
    rows: usize,
    appended: Result<AttentionPass, Error>,
)
    requires
        call_ensures(AttentionPass::begin, (layout, step, plan), begun),
        call_ensures(AttentionPass::attend, (pass, gated), attended),
        call_ensures(AttentionPass::append, (pass, rows), appended),
    ensures
        step.position < usize::MAX && 2 * layout.hidden + 6 * layout.query_width + 3
            * layout.kv_width + 2 * layout.key + plan.workspace_elements <= usize::MAX && 3
            * layout.hidden + 6 * layout.query_width + 3 * layout.kv_width + 2 * layout.key
            <= usize::MAX ==> begun is Ok,
        attended is Ok <==> finite_values(gated@),
        rows == pass@.step.position + 1 && appended is Err
            ==> appended->Err_0 is ExecutionAllocation,
        rows != pass@.step.position + 1 ==> appended is Err,
{
    lemma_finite_values(gated@);
}

/// The tail of a layer takes values exactly where they have the width of their row, and
/// sums and products only where they are finite too.
pub proof fn law_finish_takes_fitting_rows(
    pass: FinishPass,
    values: Vec<u32>,
    next: Result<FinishPass, Error>,
)
    ensures
        call_ensures(FinishPass::normalize, (pass, values), next) ==> (next is Ok
            <==> values@.len() == pass@.layout.hidden),
        call_ensures(FinishPass::project_gate, (pass, values), next) ==> (next is Ok
            <==> values@.len() == pass@.layout.feed_forward),
        call_ensures(FinishPass::project_up, (pass, values), next) ==> (next is Ok
            <==> values@.len() == pass@.layout.feed_forward),
        call_ensures(FinishPass::activate, (pass, values), next) ==> (next is Ok
            <==> values@.len() == pass@.layout.feed_forward),
        call_ensures(FinishPass::fuse, (pass, values), next) ==> (next is Ok
            <==> values@.len() == pass@.layout.feed_forward && finite_values(values@)),
        call_ensures(FinishPass::project_down, (pass, values), next) ==> (next is Ok
            <==> values@.len() == pass@.layout.hidden),
        call_ensures(FinishPass::add_attention, (pass, values), next) ==> (next is Ok
            <==> pass@.attention.len() == pass@.layout.hidden
            && values@.len() == pass@.layout.hidden && finite_values(values@)),
        call_ensures(FinishPass::add_feed_forward, (pass, values), next) ==> (next is Ok
            <==> pass@.down.len() == pass@.layout.hidden && values@.len() == pass@.layout.hidden
            && finite_values(values@)),
{
    lemma_finite_values(values@);
}

/// A recurrent pass takes projected rows exactly where there is one of its width for
/// every token, and computed values exactly where they are finite.
pub proof fn law_recurrent_takes_fitting_rows(
    pass: RecurrentPass,
    values: Vec<u32>,
    next: Result<RecurrentPass, Error>,
)
    ensures
        call_ensures(RecurrentPass::project_channels, (pass, values), next) ==> (next is Ok
            <==> values@.len() == pass@.token_count * pass@.layout.conv_width),
        call_ensures(RecurrentPass::project_gating, (pass, values), next) ==> (next is Ok
            <==> values@.len() == pass@.token_count * pass@.layout.inner),
        call_ensures(RecurrentPass::project_decay, (pass, values), next) ==> (next is Ok
            <==> values@.len() == pass@.token_count * pass@.layout.value_head_count),
        call_ensures(RecurrentPass::project_strength, (pass, values), next) ==> (next is Ok
            <==> values@.len() == pass@.token_count * pass@.layout.value_head_count),
        call_ensures(RecurrentPass::project_output, (pass, values), next) ==> (next is Ok
            <==> values@.len() == pass@.token_count * pass@.layout.hidden),
        call_ensures(RecurrentPass::normalize, (pass, values), next) ==> (next is Ok
            <==> finite_values(values@)),
        call_ensures(RecurrentPass::activate, (pass, values), next) ==> (next is Ok
            <==> finite_values(values@)),
        call_ensures(RecurrentPass::scale_query, (pass, values), next) ==> (next is Ok
            <==> finite_values(values@)),
        call_ensures(RecurrentPass::gate_rows, (pass, values), next) ==> (next is Ok
            <==> finite_values(values@)),
{
    assert(values.len() == values@.len());
    lemma_finite_values(values@);
    if next is Err {
        let error = next->Err_0;
        if qwen35_recurrent_pass::nonfinite(values@, "attention RMSNorm", error) {
            lemma_nonfinite(values@, "attention RMSNorm", error);
        }
        if qwen35_recurrent_pass::nonfinite(values@, "Q/K L2 output", error) {
            lemma_nonfinite(values@, "Q/K L2 output", error);
        }
        if qwen35_recurrent_pass::nonfinite(values@, "recurrent output gate", error) {
            lemma_nonfinite(values@, "recurrent output gate", error);
        }
        if qwen35_recurrent_pass::nonfinite(values@, "convolution SiLU", error) {
            lemma_nonfinite(values@, "convolution SiLU", error);
        }
    }
}

/// Rotated values of a token, and its fused values, are refused exactly where one is
/// not finite; all other values are always taken.
pub proof fn law_token_takes_finite_values(
    token: TokenPass<'_>,
    forward: FeedForwardPass<'_>,
    values: Vec<u32>,
    taken: Result<TokenPass<'_>, Error>,
    forwarded: Result<FeedForwardPass<'_>, Error>,
)
    requires
        call_ensures(TokenPass::take, (token, values), taken),
        call_ensures(FeedForwardPass::take, (forward, values), forwarded),
    ensures
        taken is Err <==> (token@.stage == TokenStage::RotateQuery || token@.stage
            == TokenStage::RotateKey) && !finite_values(values@),
        forwarded is Err <==> forward@.stage == FeedForwardStage::Fuse && !finite_values(values@),
{
    lemma_finite_values(values@);
}

/// A Qwen3 pass takes an embedding row of the hidden width, sums of all rows, and the
/// normalized rows of all tokens, each exactly where it fits and is finite.
pub proof fn law_pass_takes_fitting_rows(
    pass: Qwen3Pass,
    row: &[u32],
    embedded: Result<Qwen3Pass, Error>,
    sums: Vec<u32>,
    attended: Result<Qwen3Pass, Error>,
    forwarded: Result<Qwen3Pass, Error>,
)
    requires
        call_ensures(Qwen3Pass::embed, (pass, row), embedded),
        call_ensures(Qwen3Pass::add_attention, (pass, sums), attended),
        call_ensures(Qwen3Pass::add_feed_forward, (pass, sums), forwarded),
    ensures
        embedded is Ok <==> row@.len() == pass@.layout.hidden,
        attended is Ok <==> pass@.residual.len() == pass@.hidden.len() && sums@.len()
            == pass@.hidden.len() && finite_values(sums@),
        forwarded is Ok <==> attended is Ok,
{
    lemma_finite_values(sums@);
}

/// The keys and values of a token are cached exactly where they fit the cache from the
/// token's row on and are finite.
pub proof fn law_caches_take_fitting_rows(
    pass: Qwen3Pass,
    query: Vec<u32>,
    key: &[u32],
    value: &[u32],
    projected: Result<Qwen3Pass, Error>,
)
    requires
        call_ensures(Qwen3Pass::project, (pass, query, key, value), projected),
        pass@.tokens.len() * pass@.layout.kv_width <= usize::MAX,
    ensures
        ({
            let start = pass@.stage->Project_token * pass@.layout.kv_width;
            let room = pass@.tokens.len() * pass@.layout.kv_width;
            projected is Ok <==> start + key@.len() <= room && start + value@.len() <= room
                && finite_values(key@) && finite_values(value@)
        }),
{
    lemma_finite_values(key@);
    lemma_finite_values(value@);
}

/// Normalized rows end a pass exactly where they are the rows of all tokens and the last
/// one is finite.
pub proof fn law_last_row_is_taken(
    pass: Qwen3Pass,
    rows: &[u32],
    storage: Vec<u32>,
    finished: Result<Qwen3Pass, Error>,
)
    requires
        call_ensures(Qwen3Pass::normalize, (pass, rows, storage), finished),
        pass@.tokens.len() > 0,
        rows@.len() == pass@.tokens.len() * pass@.layout.hidden,
        finite_values(rows@),
    ensures
        finished is Ok,
{
    let start = (pass@.tokens.len() - 1) * pass@.layout.hidden;
    let count = pass@.tokens.len() as int;
    let width = pass@.layout.hidden as int;
    assert(count * width == (count - 1) * width + width) by (nonlinear_arith);
    assert(0 <= (count - 1) * width) by (nonlinear_arith)
        requires
            count >= 1,
            width >= 0,
    ;
    let last = rows@.skip(start);
    assert forall|i: int| 0 <= i < last.len() implies #[trigger] last[i] & 0x7f80_0000u32
        != 0x7f80_0000u32 by {
        assert(rows@[start + i] & 0x7f80_0000u32 != 0x7f80_0000u32);
    }
    lemma_finite_values(last);
}

/// A pass begins for every admitted number of tokens whose rows can be counted.
pub proof fn law_pass_is_begun(
    execution: &Qwen3Execution<'_, '_>,
    token_ids: &[u32],
    storage: Vec<u32>,
    pass: Result<Qwen3Pass, Error>,
)
    requires
        call_ensures(Qwen3Execution::begin, (execution, token_ids, storage), pass),
        0 < token_ids@.len() <= execution.spec_max_context(),
        token_ids@.len() * execution.spec_body().spec_layout().hidden <= usize::MAX,
        token_ids@.len() * execution.spec_body().spec_layout().kv_width <= usize::MAX,
    ensures
        pass is Ok,
{
    assert(token_ids.len() == token_ids@.len());
}

/// A step takes an embedding exactly where its token is in the vocabulary and the row
/// has the hidden width and is finite; a finished row likewise.
pub proof fn law_step_takes_fitting_rows<R, P>(
    staged: StagedExecution<R, P>,
    row: Vec<u32>,
    embedded: Result<StagedExecution<R, P>, Error>,
    state: R,
    recurred: Result<StagedExecution<R, P>, Error>,
    pool: P,
    attended: Result<StagedExecution<R, P>, Error>,
)
    requires
        call_ensures(StagedExecution::<R, P>::complete_embed, (staged, row), embedded),
        call_ensures(StagedExecution::<R, P>::complete_recurrent, (staged, state, row), recurred),
        call_ensures(
            StagedExecution::<R, P>::complete_full_attention,
            (staged, pool, row),
            attended,
        ),
    ensures
        embedded is Ok <==> staged@.tokens[staged@.token_index] < staged@.layout.vocabulary
            && row@.len() == staged@.layout.hidden && finite_values(row@),
        recurred is Ok <==> row@.len() == staged@.layout.hidden && finite_values(row@),
        attended is Ok <==> recurred is Ok,
{
    lemma_finite_values(row@);
    lemma_first_nonfinite(row@);
}

proof fn lemma_first_nonfinite(values: Seq<u32>)
    ensures
        forall|index: int| #[trigger]
            qwen35_execution::first_nonfinite(values, index) ==> !finite_values(values),
{
    assert forall|index: int| #[trigger]
        qwen35_execution::first_nonfinite(values, index) implies !finite_values(values) by {
        float_bits::lemma_finite_exponent(values[index]);
        assert(values[index] & 0x7f80_0000u32 == 0x7f80_0000u32);
    }
}

/// A token ends exactly where its normalized row has the hidden width, and its kept row
/// exactly where it has a logit for every vocabulary entry.
pub proof fn law_head_takes_fitting_rows<R, P>(
    staged: StagedExecution<R, P>,
    normalized: usize,
    row: Vec<u32>,
    passed: Result<StagedExecution<R, P>, Error>,
    kept: Result<StagedExecution<R, P>, Error>,
)
    requires
        call_ensures(StagedExecution::<R, P>::complete_token, (staged, normalized), passed),
        call_ensures(StagedExecution::<R, P>::complete_head, (staged, normalized, row), kept),
    ensures
        passed is Ok <==> normalized == staged@.layout.hidden,
        kept is Ok <==> normalized == staged@.layout.hidden && row@.len()
            == staged@.layout.vocabulary,
{
}

/// An admitted step with a state for every recurrent block is staged, unless its logits
/// cannot be counted or memory is refused.
pub proof fn law_step_is_staged_where_admitted<R, P>(
    execution: &Qwen35Execution<R, P>,
    token_ids: &[u32],
    recurrent: Vec<R>,
    append: Option<P>,
    staged: Result<StagedExecution<R, P>, Error>,
)
    requires
        call_ensures(
            Qwen35Execution::<R, P>::stage,
            (execution, token_ids, recurrent, append),
            staged,
        ),
        0 < token_ids@.len() <= execution.step_bound(),
        execution.position() + token_ids@.len() <= execution.spec_layout().max_context,
        recurrent@.len() == execution.spec_layout().main_blocks
            - execution.spec_layout().main_blocks as int
            / execution.spec_layout().full_interval as int,
        (if execution.spec_selection() == Qwen35LogitSelection::AllTokens {
            token_ids@.len() * execution.spec_layout().vocabulary
        } else {
            execution.spec_layout().vocabulary as int
        }) <= usize::MAX,
    ensures
        staged is Ok || staged->Err_0 is ExecutionAllocation,
{
    assert(1 * execution.spec_layout().vocabulary == execution.spec_layout().vocabulary);
}

proof fn lemma_heads_fit(tokens: int, channels: usize, offset: usize, heads: int, width: usize)
    requires
        0 <= heads,
        offset + heads * width <= channels,
    ensures
        qwen35_recurrent::heads_failure(tokens, channels, offset, heads, width) is None,
    decreases heads,
{
    if heads > 0 {
        assert((heads - 1) * width + width == heads * width) by (nonlinear_arith);
        assert(0 <= (heads - 1) * width) by (nonlinear_arith)
            requires
                heads >= 1,
        ;
        lemma_heads_fit(tokens, channels, offset, heads - 1, width);
    }
}

/// Heads that lie within the channels of complete token rows are laid out, unless memory
/// is refused.
pub proof fn law_heads_are_laid_out<T: Copy>(
    values: &[T],
    tokens: usize,
    channels: usize,
    offset: usize,
    heads: usize,
    width: usize,
    laid: Result<Vec<T>, Error>,
)
    requires
        call_ensures(
            heads_from_tokens::<T>,
            (values, tokens, channels, offset, heads, width),
            laid,
        ),
        channels > 0,
        offset + heads * width <= channels,
        tokens * heads <= usize::MAX,
        tokens * heads * width <= usize::MAX,
    ensures
        laid is Ok || laid->Err_0 is RecurrentAllocation,
{
    lemma_heads_fit(
        qwen35_recurrent::offered_tokens(values@.len() as int, tokens as int, channels as int),
        channels,
        offset,
        heads as int,
        width,
    );
}

proof fn lemma_tiles_fit(length: int, source: usize, key_heads: int, value_heads: int)
    requires
        key_heads > 0,
        key_heads * source <= length <= usize::MAX,
    ensures
        qwen35_recurrent::tile_failure(length, source, key_heads, value_heads) is None,
    decreases value_heads,
{
    if value_heads > 0 {
        lemma_tiles_fit(length, source, key_heads, value_heads - 1);
        let head = (value_heads - 1) % key_heads;
        assert(0 <= head < key_heads) by (nonlinear_arith)
            requires
                head == (value_heads - 1) % key_heads,
                key_heads > 0,
        ;
        assert(0 <= head * source && head * source + source <= key_heads * source)
            by (nonlinear_arith)
            requires
                0 <= head,
                head + 1 <= key_heads,
        ;
    }
}

/// Complete key heads are tiled over the value heads, unless memory is refused.
pub proof fn law_key_heads_are_tiled<T: Copy>(
    grouped: &[T],
    tokens: usize,
    key_heads: usize,
    value_heads: usize,
    key_dim: usize,
    tiled: Result<Vec<T>, Error>,
)
    requires
        call_ensures(
            tile_key_heads::<T>,
            (grouped, tokens, key_heads, value_heads, key_dim),
            tiled,
        ),
        key_heads > 0,
        tokens * key_dim <= usize::MAX,
        value_heads * tokens <= usize::MAX,
        value_heads * tokens * key_dim <= usize::MAX,
        grouped@.len() == key_heads * (tokens * key_dim),
    ensures
        tiled is Ok || tiled->Err_0 is RecurrentAllocation,
{
    assert(grouped.len() == grouped@.len());
    lemma_tiles_fit(
        grouped@.len() as int,
        (tokens * key_dim) as usize,
        key_heads as int,
        value_heads as int,
    );
}

proof fn lemma_token_rows_fit(length: int, tokens: int, heads: int, width: usize, rows: int)
    requires
        0 <= tokens,
        0 <= heads,
        rows <= tokens * heads,
        length == tokens * heads * width,
    ensures
        qwen35_recurrent::token_rows_failure(length, tokens, heads, width, rows) is None,
    decreases rows,
{
    if rows > 0 {
        lemma_token_rows_fit(length, tokens, heads, width, rows - 1);
        let row = rows - 1;
        let head = row % heads;
        let token = row / heads;
        assert(heads > 0) by (nonlinear_arith)
            requires
                0 < tokens * heads,
                0 <= heads,
                0 <= tokens,
        ;
        vstd::arithmetic::div_mod::lemma_fundamental_div_mod(row, heads);
        vstd::arithmetic::div_mod::lemma_mod_bound(row, heads);
        assert(token < tokens) by (nonlinear_arith)
            requires
                row == heads * token + head,
                0 <= head,
                row < tokens * heads,
                heads > 0,
        ;
        assert(token >= 0) by (nonlinear_arith)
            requires
                row == heads * token + head,
                head < heads,
                row >= 0,
                heads > 0,
        ;
        let w = width as int;
        assert(token * w + w <= tokens * w) by (nonlinear_arith)
            requires
                token + 1 <= tokens,
                w >= 0,
        ;
        let line = tokens * w;
        assert(0 <= line) by (nonlinear_arith)
            requires
                line == tokens * w,
                tokens >= 0,
                w >= 0,
        ;
        assert(head * line + line <= heads * line) by (nonlinear_arith)
            requires
                head + 1 <= heads,
                line >= 0,
        ;
        assert(heads * (tokens * w) == tokens * heads * w) by (nonlinear_arith);
    }
}

/// The rows of complete heads are laid out token by token, unless memory is refused.
pub proof fn law_rows_are_laid_out<T: Copy>(
    values: &[T],
    tokens: usize,
    heads: usize,
    width: usize,
    rows: Result<Vec<T>, Error>,
)
    requires
        call_ensures(heads_to_tokens::<T>, (values, tokens, heads, width), rows),
        heads > 0,
        tokens * heads <= usize::MAX,
        tokens * heads * width <= usize::MAX,
        values@.len() == tokens * heads * width,
    ensures
        rows is Ok || rows->Err_0 is RecurrentAllocation,
{
    lemma_token_rows_fit(
        values@.len() as int,
        tokens as int,
        heads as int,
        width,
        tokens * heads,
    );
}

/// A name leads to one tensor: the first of that name.
proof fn lemma_one_tensor(
    artifact: VerifiedArtifact,
    name: Seq<char>,
    left: VerifiedTensor<'_>,
    right: VerifiedTensor<'_>,
)
    requires
        payload::found(artifact, name, left),
        payload::found(artifact, name, right),
    ensures
        *left.descriptor == *right.descriptor,
        *left.bytes == *right.bytes,
{
    let tensors = artifact.spec_observation().tensors@;
    let i = choose|i: int|
        {
            &&& #[trigger] gguf::first_named(tensors, name, i)
            &&& i < artifact.spec_payloads().len()
            &&& *left.descriptor == tensors[i]
            &&& *left.bytes == artifact.spec_payloads()[i]
        };
    let j = choose|j: int|
        {
            &&& #[trigger] gguf::first_named(tensors, name, j)
            &&& j < artifact.spec_payloads().len()
            &&& *right.descriptor == tensors[j]
            &&& *right.bytes == artifact.spec_payloads()[j]
        };
    if i < j {
        assert(tensors[i].name@ != name);
    }
    if j < i {
        assert(tensors[j].name@ != name);
    }
}

/// A stored `f32` tensor of the asked shape is found as a parameter.
pub proof fn law_fitting_parameter_is_found(
    artifact: &VerifiedArtifact,
    name: &str,
    dims: &[u64],
    stored: VerifiedTensor<'_>,
    found: Result<VerifiedTensor<'_>, Error>,
)
    requires
        call_ensures(find_parameter, (artifact, name, dims), found),
        payload::found(*artifact, name@, stored),
        stored.descriptor.ggml_type == GgmlType::F32,
        stored.descriptor.dims@ == dims@,
    ensures
        found matches Ok(tensor) && *tensor.descriptor == *stored.descriptor && *tensor.bytes
            == *stored.bytes,
{
    let tensors = artifact.spec_observation().tensors@;
    let i = choose|i: int|
        {
            &&& #[trigger] gguf::first_named(tensors, name@, i)
            &&& i < artifact.spec_payloads().len()
            &&& *stored.descriptor == tensors[i]
            &&& *stored.bytes == artifact.spec_payloads()[i]
        };
    assert(tensors[i].name@ == name@);
    match found {
        Ok(tensor) => {
            lemma_one_tensor(*artifact, name@, tensor, stored);
        },
        Err(error) => {
            let other = choose|tensor: VerifiedTensor<'_>| #[trigger]
                payload::found(*artifact, name@, tensor) && (tensor.descriptor.ggml_type
                    != GgmlType::F32 || tensor.descriptor.dims@ != dims@);
            lemma_one_tensor(*artifact, name@, other, stored);
        },
    }
}

/// A stored tensor of two host-sized dimensions in a readable format is a matrix.
pub proof fn law_fitting_matrix_is_found(
    artifact: &VerifiedArtifact,
    name: &str,
    stored: VerifiedTensor<'_>,
    header: Result<MatrixHeader<'_>, Error>,
)
    requires
        call_ensures(MatrixHeader::from_payload, (artifact, name), header),
        payload::found(*artifact, name@, stored),
        stored.descriptor.dims@.len() == 2,
        stored.descriptor.dims@[0] <= usize::MAX && stored.descriptor.dims@[1] <= usize::MAX,
        !(stored.descriptor.ggml_type is Other),
    ensures
        header matches Ok(header) && *header.tensor.bytes == *stored.bytes && header.input_width
            == stored.descriptor.dims@[0] && header.output_width == stored.descriptor.dims@[1],
{
    let tensors = artifact.spec_observation().tensors@;
    let i = choose|i: int|
        {
            &&& #[trigger] gguf::first_named(tensors, name@, i)
            &&& i < artifact.spec_payloads().len()
            &&& *stored.descriptor == tensors[i]
            &&& *stored.bytes == artifact.spec_payloads()[i]
        };
    assert(tensors[i].name@ == name@);
    match header {
        Ok(header) => {
            lemma_one_tensor(*artifact, name@, header.tensor, stored);
        },
        Err(error) => {
            assert(crate::matrix::header_refused(*artifact, name@, error));
            assert forall|tensor: VerifiedTensor<'_>| #[trigger]
                payload::found(*artifact, name@, tensor) implies *tensor.descriptor
                == *stored.descriptor by {
                lemma_one_tensor(*artifact, name@, tensor, stored);
            }
        },
    }
}

/// A tensor of four bytes for every value is read, unless memory is refused.
pub proof fn law_complete_words_are_read(
    tensor: VerifiedTensor<'_>,
    values: usize,
    context: &'static str,
    target: &'static str,
    words: Result<Vec<u32>, Error>,
)
    requires
        call_ensures(read_words, (tensor, values, context, target), words),
        tensor.bytes@.len() == 4 * values,
    ensures
        words is Ok || words->Err_0 is ExecutionAllocation,
{
}

/// A stored vector of the asked width whose words are finite is read.
pub proof fn law_complete_vector_is_read(
    artifact: &VerifiedArtifact,
    name: &str,
    width: usize,
    stored: VerifiedTensor<'_>,
    values: Result<Vec<u32>, Error>,
)
    requires
        call_ensures(read_f32_vector, (artifact, name, width), values),
        payload::found(*artifact, name@, stored),
        stored.descriptor.ggml_type == GgmlType::F32,
        stored.descriptor.dims@ == seq![width as u64],
        stored.bytes@.len() == 4 * width,
        forall|i: int|
            0 <= i < width ==> #[trigger] gguf::word(stored.bytes@, i) & 0x7f80_0000u32
                != 0x7f80_0000u32,
    ensures
        values is Ok,
{
    let tensors = artifact.spec_observation().tensors@;
    let i = choose|i: int|
        {
            &&& #[trigger] gguf::first_named(tensors, name@, i)
            &&& i < artifact.spec_payloads().len()
            &&& *stored.descriptor == tensors[i]
            &&& *stored.bytes == artifact.spec_payloads()[i]
        };
    assert(tensors[i].name@ == name@);
    let words = Seq::new(width as nat, |i: int| gguf::word(stored.bytes@, i));
    assert forall|i: int| 0 <= i < words.len() implies #[trigger] words[i] & 0x7f80_0000u32
        != 0x7f80_0000u32 by {
        assert(gguf::word(stored.bytes@, i) & 0x7f80_0000u32 != 0x7f80_0000u32);
    }
    lemma_finite_values(words);
    assert forall|tensor: VerifiedTensor<'_>| #[trigger]
        payload::found(*artifact, name@, tensor) implies *tensor.descriptor == *stored.descriptor
        && *tensor.bytes == *stored.bytes by {
        lemma_one_tensor(*artifact, name@, tensor, stored);
    }
}

/// Rows that can be counted have a shape.
pub proof fn law_countable_rows_have_a_shape(
    layout: qwen3::Layout,
    tokens: usize,
    shape: Result<Qwen3AllocationShape, Error>,
)
    requires
        call_ensures(qwen3::Layout::allocation_shape, (layout, tokens), shape),
    ensures
        shape is Ok <==> tokens * layout.hidden <= usize::MAX && tokens * layout.kv_width
            <= usize::MAX,
{
}

/// A projection that holds a query and a gating half for every head is split, unless
/// memory is refused.
pub proof fn law_complete_projection_is_split<T: Copy>(
    projection: &[T],
    heads: usize,
    key: usize,
    planned: usize,
    split: Result<(Vec<T>, Vec<T>), Error>,
)
    requires
        call_ensures(split_query_gate::<T>, (projection, heads, key, planned), split),
        2 * key <= usize::MAX,
        heads * (2 * key) <= projection@.len(),
    ensures
        split is Ok || split->Err_0 is ExecutionAllocation,
{
}

/// A structural layout whose widths fit the host has a host geometry.
pub proof fn law_fitting_layout_has_a_geometry(
    layout: Qwen35RecurrentLayout,
    epsilon: u32,
    host: Result<ExecutionLayout, Error>,
)
    requires
        call_ensures(ExecutionLayout::try_from_profile, (layout, epsilon), host),
    ensures
        host is Ok <==> layout.hidden <= usize::MAX && layout.conv_kernel <= usize::MAX
            && layout.inner <= usize::MAX && layout.state <= usize::MAX && 0
            < layout.time_step_rank <= usize::MAX && layout.group_count <= usize::MAX && 2 * (
        layout.state * layout.group_count) + layout.inner <= usize::MAX,
{
    assert(0 <= layout.state * layout.group_count) by (nonlinear_arith);
}

/// What a block retains can be counted wherever it fits the host.
pub proof fn law_retained_values_are_counted(
    layout: ExecutionLayout,
    counted: Result<usize, Error>,
)
    requires
        call_ensures(retained_elements, (layout,), counted),
    ensures
        counted is Ok ==> layout.conv_kernel > 0,
        counted matches Ok(values) ==> values == layout.hidden + 2 * layout.value_head_count
            + layout.value_dim + layout.conv_kernel * layout.conv_width + layout.conv_width * (
        layout.conv_kernel - 1) + layout.value_head_count * (layout.key_dim * layout.value_dim),
        layout.conv_kernel > 0 && layout.hidden + 2 * layout.value_head_count + layout.value_dim
            + layout.conv_kernel * layout.conv_width + layout.conv_width * (layout.conv_kernel - 1)
            + layout.value_head_count * (layout.key_dim * layout.value_dim) <= usize::MAX
            && layout.key_dim * layout.value_dim <= usize::MAX ==> counted is Ok,
{
    if layout.conv_kernel > 0 {
        assert(0 <= layout.conv_width * (layout.conv_kernel - 1)) by (nonlinear_arith)
            requires
                layout.conv_kernel > 0,
        ;
    }
    assert(0 <= layout.conv_kernel * layout.conv_width) by (nonlinear_arith);
    assert(0 <= layout.value_head_count * (layout.key_dim * layout.value_dim)) by (nonlinear_arith);
}

/// Complete finite strengths, complete recurrence rows, and complete key heads are taken
/// by a pass, unless memory is refused.
pub proof fn law_recurrent_takes_complete_heads(
    pass: RecurrentPass,
    strengths: &[u32],
    squashed: Result<RecurrentPass, Error>,
    heads: &[u32],
    state: Vec<u32>,
    recurred: Result<RecurrentPass, Error>,
)
    requires
        call_ensures(RecurrentPass::squash, (pass, strengths), squashed),
        call_ensures(RecurrentPass::recur, (pass, heads, state), recurred),
        pass@.layout.value_head_count > 0,
        pass@.token_count * pass@.layout.value_head_count <= usize::MAX,
        pass@.token_count * pass@.layout.value_head_count * pass@.layout.value_dim <= usize::MAX,
    ensures
        finite_values(strengths@) ==> squashed is Ok || squashed->Err_0 is RecurrentAllocation,
        heads@.len() == pass@.token_count * pass@.layout.value_head_count * pass@.layout.value_dim
            ==> recurred is Ok || recurred->Err_0 is RecurrentAllocation,
{
    let tokens = pass@.token_count;
    let count = pass@.layout.value_head_count;
    assert(strengths.len() == strengths@.len());
    assert(tokens * count * 1 == tokens * count && 0 + count * 1 == count);
    lemma_heads_fit(
        qwen35_recurrent::offered_tokens(strengths@.len() as int, tokens as int, count as int),
        count,
        0,
        count as int,
        1,
    );
    if squashed is Err && finite_values(strengths@) {
        let error = squashed->Err_0;
        if qwen35_recurrent_pass::nonfinite(strengths@, "sigmoid beta", error) {
            lemma_nonfinite(strengths@, "sigmoid beta", error);
        }
    }
    if heads@.len() == tokens * count * pass@.layout.value_dim {
        lemma_token_rows_fit(
            heads@.len() as int,
            tokens as int,
            count as int,
            pass@.layout.value_dim,
            tokens * count,
        );
    }
}

/// A plan with a state for every recurrent block, and with a pool exactly where a block
/// attends fully, becomes a session, unless memory is refused.
pub proof fn law_session_is_made<R, P>(
    plan: Qwen35ExecutionPlan,
    session: u64,
    recurrent: Vec<R>,
    pool: Option<P>,
    execution: Result<Qwen35Execution<R, P>, Error>,
)
    requires
        call_ensures(
            Qwen35ExecutionPlan::execution::<R, P>,
            (plan, session, recurrent, pool),
            execution,
        ),
        ({
            let layout = plan.spec_layout();
            let full = layout.main_blocks as int / layout.full_interval as int;
            recurrent@.len() == layout.main_blocks - full && (pool is Some <==> full > 0)
        }),
    ensures
        execution is Ok || execution->Err_0 is ExecutionAllocation,
{
}

/// A complete step of a session, staged at its position, is published.
pub proof fn law_complete_step_is_published<R, P>(
    execution: &mut Qwen35Execution<R, P>,
    step: StagedExecution<R, P>,
    logits: Result<Vec<u32>, Error>,
)
    requires
        call_ensures(
            Qwen35Execution::<R, P>::step,
            (execution, Ok::<StagedExecution<R, P>, Error>(step)),
            logits,
        ),
        step@.token_index == step@.tokens.len(),
        step.spec_session() == old(execution).spec_session(),
        step@.start == old(execution).position(),
        step@.layout == old(execution).spec_layout(),
        step@.selection == old(execution).spec_selection(),
    ensures
        logits is Ok,
{
}

proof fn lemma_batch_admits<R, P>(
    executions: Seq<Qwen35Execution<R, P>>,
    token_ids: Seq<&[u32]>,
    count: int,
)
    requires
        0 <= count <= executions.len(),
        executions.len() == token_ids.len(),
        forall|i: int| 0 <= i < executions.len() ==> sequence_fits(executions, token_ids, i),
    ensures
        qwen35_batch::sequences_failure(executions, token_ids, count) is None,
    decreases count,
{
    if count > 0 {
        let i = count - 1;
        lemma_batch_admits(executions, token_ids, i);
        assert(sequence_fits(executions, token_ids, i));
        assert(token_ids[i].len() == token_ids[i]@.len());
        lemma_vocabulary(token_ids[i]@, executions[i].spec_layout().vocabulary as int);
    }
}

proof fn lemma_vocabulary(tokens: Seq<u32>, vocabulary: int)
    requires
        forall|i: int| 0 <= i < tokens.len() ==> #[trigger] tokens[i] < vocabulary,
    ensures
        qwen35_session::token_failure(tokens, vocabulary) is None,
    decreases tokens.len(),
{
    if tokens.len() > 0 {
        let init = tokens.drop_last();
        assert forall|i: int| 0 <= i < init.len() implies #[trigger] init[i] < vocabulary by {
            assert(tokens[i] < vocabulary);
        }
        lemma_vocabulary(init, vocabulary);
        assert(tokens[tokens.len() - 1] < vocabulary);
    }
}

/// Whether a session of a batch admits its tokens and holds the artifact of the first.
pub open spec fn sequence_fits<R, P>(
    executions: Seq<Qwen35Execution<R, P>>,
    token_ids: Seq<&[u32]>,
    i: int,
) -> bool {
    let execution = executions[i];
    let tokens = token_ids[i]@;
    &&& 0 < tokens.len() <= execution.step_bound()
    &&& execution.position() + tokens.len() <= execution.spec_layout().max_context
    &&& forall|j: int|
        0 <= j < tokens.len() ==> #[trigger] tokens[j] < execution.spec_layout().vocabulary
    &&& execution.spec_requirements().artifact_digest@
        == executions[0].spec_requirements().artifact_digest@
    &&& execution.spec_requirements().serialized_backing_bytes
        == executions[0].spec_requirements().serialized_backing_bytes
}

/// A batch whose sessions all admit their tokens and hold one artifact is admitted,
/// unless its totals cannot be counted or memory is refused.
pub proof fn law_fitting_batch_is_admitted<R, P>(
    executions: &Vec<Qwen35Execution<R, P>>,
    token_ids: &[&[u32]],
    admitted: Result<(PackedPrefillPlan, Qwen35BatchCpuRequirements), Error>,
)
    requires
        call_ensures(admit_batch::<R, P>, (executions, token_ids), admitted),
        executions@.len() == token_ids@.len(),
        executions@.len() > 0,
        forall|i: int| 0 <= i < executions@.len() ==> sequence_fits(executions@, token_ids@, i),
    ensures
        admitted is Ok || admitted->Err_0 is ExecutionAllocation || admitted->Err_0
            is ArithmeticOverflow,
{
    lemma_batch_admits(executions@, token_ids@, executions@.len() as int);
    if admitted is Err {
        let error = admitted->Err_0;
        let receipts = qwen35_batch::receipts(executions@);
        lemma_sums_overflow(receipts, receipts.len() as int);
    }
}

proof fn lemma_sums_overflow(
    receipts: Seq<crate::qwen35_requirements::Qwen35CpuRequirements>,
    count: int,
)
    ensures
        Qwen35BatchCpuRequirements::sums_failure(receipts, count) matches Some(error)
            ==> error is ArithmeticOverflow,
    decreases count,
{
    if count > 0 {
        lemma_sums_overflow(receipts, count - 1);
    }
}

} // verus!
