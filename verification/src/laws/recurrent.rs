//! Laws of the recurrent block: where every value of a layout change goes, which
//! stored tensor every stage reads, and what a block retains.

use crate::arrangement;
use crate::error::Error;
use crate::float_bits;
use crate::gguf::{GgmlType, VerifiedArtifact, VerifiedTensor};
use crate::payload;
use crate::qwen35::Qwen35RecurrentLayout;
use crate::qwen35_recurrent;
use crate::qwen35_recurrent::{
    block_tensor_name, ensure_finite, heads_from_tokens, heads_to_tokens, product_dims,
    retained_elements, read_f32_tensor, tile_key_heads, ExecutionLayout, Qwen35RecurrentExecution,
    RecurrentOutput,
};
use crate::qwen35_recurrent_pass::{
    arrange_heads, arrange_rows, check_decay, check_projection, tile_heads, RecurrentPass,
    RecurrentStage,
};
use crate::text;
use vstd::prelude::*;

verus! {

proof fn lemma_rows_place(values: Seq<u32>, tokens: int, heads: int, width: int)
    requires
        0 <= tokens,
        0 <= heads,
        0 <= width,
    ensures
        arrangement::token_major(values, tokens, heads, width).len() == tokens * heads * width,
        forall|t: int, h: int, i: int|
            0 <= t < tokens && 0 <= h < heads && 0 <= i < width
                ==> #[trigger] arrangement::token_major(values, tokens, heads, width)[(t * heads
                + h) * width + i] == values[(h * tokens + t) * width + i],
{
    assert(0 <= tokens * heads * width) by (nonlinear_arith)
        requires
            0 <= tokens,
            0 <= heads,
            0 <= width,
    ;
    assert forall|t: int, h: int, i: int|
        0 <= t < tokens && 0 <= h < heads && 0 <= i < width implies #[trigger]
    arrangement::token_major(values, tokens, heads, width)[(t * heads + h) * width + i] == values[(h
        * tokens + t) * width + i] by {
        arrangement::lemma_token_major_element(values, tokens, heads, width, h, t, i);
        assert((h * tokens + t) * width + i == h * (tokens * width) + t * width + i)
            by (nonlinear_arith);
    }
}

/// After the recurrence every value stands in the row of its own token, in the place of
/// its own head: lane `i` of head `h` of token `t` is taken from head `h`, where the
/// tokens of a head follow each other.
pub proof fn law_recur_lays_rows_by_token(
    pass: RecurrentPass,
    heads: &[u32],
    state: Vec<u32>,
    next: RecurrentPass,
)
    requires
        call_ensures(RecurrentPass::recur, (pass, heads, state), Ok::<RecurrentPass, Error>(next)),
    ensures
        ({
            let tokens = pass@.token_count;
            let count = pass@.layout.value_head_count;
            let width = pass@.layout.value_dim;
            &&& next@.rows.len() == tokens * count * width
            &&& forall|t: int, h: int, i: int|
                0 <= t < tokens && 0 <= h < count && 0 <= i < width ==> #[trigger] next@.rows[(t
                    * count + h) * width + i] == heads@[(h * tokens + t) * width + i]
        }),
        next@.state == state@,
        next@.block_index == pass@.block_index && next@.layout == pass@.layout
            && next@.token_count == pass@.token_count,
        next@.stage == RecurrentStage::NormalizeRows,
{
    lemma_rows_place(
        heads@,
        pass@.token_count as int,
        pass@.layout.value_head_count as int,
        pass@.layout.value_dim as int,
    );
}

/// Recurrence rows are laid out token by token, each value in its own lane.
pub proof fn law_arrange_rows(
    layout: ExecutionLayout,
    values: &[u32],
    token_count: usize,
    rows: Vec<u32>,
)
    requires
        call_ensures(
            arrange_rows,
            (layout, values, token_count),
            Ok::<Vec<u32>, Error>(rows),
        ),
    ensures
        rows@.len() == token_count * layout.value_head_count * layout.value_dim,
        forall|t: int, h: int, i: int|
            0 <= t < token_count && 0 <= h < layout.value_head_count && 0 <= i < layout.value_dim
                ==> #[trigger] rows@[(t * layout.value_head_count + h) * layout.value_dim + i]
                == values@[(h * token_count + t) * layout.value_dim + i],
{
    lemma_rows_place(
        values@,
        token_count as int,
        layout.value_head_count as int,
        layout.value_dim as int,
    );
}

/// Lane `i` of head `h` of token `t` in token-major rows is the lane of that token in
/// the values of that head.
pub proof fn law_heads_to_tokens<T: Copy>(
    values: &[T],
    token_count: usize,
    head_count: usize,
    head_width: usize,
    rows: Vec<T>,
    t: int,
    h: int,
    i: int,
)
    requires
        call_ensures(
            heads_to_tokens::<T>,
            (values, token_count, head_count, head_width),
            Ok::<Vec<T>, Error>(rows),
        ),
        0 <= t < token_count,
        0 <= h < head_count,
        0 <= i < head_width,
    ensures
        0 <= (t * head_count + h) * head_width + i < rows@.len(),
        rows@[(t * head_count + h) * head_width + i] == values@[(h * token_count + t) * head_width
            + i],
        rows@.len() == token_count * head_count * head_width,
{
    let tokens = token_count as int;
    let width = head_width as int;
    arrangement::lemma_token_major_element(
        values@,
        tokens,
        head_count as int,
        width,
        h,
        t,
        i,
    );
    assert((h * tokens + t) * width + i == h * (tokens * width) + t * width + i)
        by (nonlinear_arith);
}

/// Lane `i` of head `h` of token `t` in head-major rows is lane `h * width + i` of that
/// token's channels, counted from the offset.
pub proof fn law_heads_from_tokens<T: Copy>(
    values: &[T],
    token_count: usize,
    channel_count: usize,
    channel_offset: usize,
    head_count: usize,
    head_width: usize,
    heads: Vec<T>,
    t: int,
    h: int,
    i: int,
)
    requires
        call_ensures(
            heads_from_tokens::<T>,
            (values, token_count, channel_count, channel_offset, head_count, head_width),
            Ok::<Vec<T>, Error>(heads),
        ),
        channel_count > 0,
        values@.len() == token_count * channel_count,
        0 <= t < token_count,
        0 <= h < head_count,
        0 <= i < head_width,
    ensures
        0 <= (h * token_count + t) * head_width + i < heads@.len(),
        heads@.len() == head_count * token_count * head_width,
        heads@[(h * token_count + t) * head_width + i] == values@[t * channel_count
            + channel_offset + h * head_width + i],
{
    lemma_offered(token_count as int, channel_count as int);
    arrangement::lemma_head_major_element(
        values@,
        token_count as int,
        channel_count as int,
        channel_offset as int,
        head_count as int,
        head_width as int,
        h,
        t,
        i,
    );
}

proof fn lemma_offered(tokens: int, channels: int)
    requires
        channels > 0,
        tokens >= 0,
    ensures
        qwen35_recurrent::offered_tokens(tokens * channels, tokens, channels) == tokens,
{
    vstd::arithmetic::div_mod::lemma_fundamental_div_mod_converse(
        tokens * channels,
        channels,
        tokens,
        0,
    );
}

/// Heads laid out head by head keep every channel of a complete list of token rows in
/// its own lane.
pub proof fn law_arrange_heads(
    values: &[u32],
    token_count: usize,
    channel_count: usize,
    channel_offset: usize,
    head_count: usize,
    head_width: usize,
    heads: Vec<u32>,
    t: int,
    h: int,
    i: int,
)
    requires
        call_ensures(
            arrange_heads,
            (values, token_count, channel_count, channel_offset, head_count, head_width),
            Ok::<Vec<u32>, Error>(heads),
        ),
        channel_count > 0,
        values@.len() == token_count * channel_count,
        0 <= t < token_count,
        0 <= h < head_count,
        0 <= i < head_width,
    ensures
        heads@.len() == head_count * token_count * head_width,
        heads@[(h * token_count + t) * head_width + i] == values@[t * channel_count
            + channel_offset + h * head_width + i],
{
    lemma_offered(token_count as int, channel_count as int);
    arrangement::lemma_head_major_element(
        values@,
        token_count as int,
        channel_count as int,
        channel_offset as int,
        head_count as int,
        head_width as int,
        h,
        t,
        i,
    );
}

/// Laying complete token rows out by head and then by token again gives them back.
pub proof fn law_arrangement_round_trip<T: Copy>(
    values: &[T],
    token_count: usize,
    channel_count: usize,
    head_count: usize,
    head_width: usize,
    heads: Vec<T>,
    lent: &[T],
    rows: Vec<T>,
)
    requires
        call_ensures(
            heads_from_tokens::<T>,
            (values, token_count, channel_count, 0usize, head_count, head_width),
            Ok::<Vec<T>, Error>(heads),
        ),
        lent@ == heads@,
        call_ensures(
            heads_to_tokens::<T>,
            (lent, token_count, head_count, head_width),
            Ok::<Vec<T>, Error>(rows),
        ),
        channel_count == head_count * head_width,
        channel_count > 0,
        values@.len() == token_count * channel_count,
    ensures
        rows@ == values@,
{
    lemma_offered(token_count as int, channel_count as int);
    assert(token_count * (head_count * head_width) == token_count * head_count * head_width)
        by (nonlinear_arith);
    arrangement::lemma_round_trip(
        values@,
        token_count as int,
        head_count as int,
        head_width as int,
    );
}

/// Value head `h` reads key head `h % key_head_count`, every token and lane in place.
pub proof fn law_tile_key_heads<T: Copy>(
    grouped: &[T],
    token_count: usize,
    key_head_count: usize,
    value_head_count: usize,
    key_dim: usize,
    tiled: Vec<T>,
    h: int,
    t: int,
    i: int,
)
    requires
        call_ensures(
            tile_key_heads::<T>,
            (grouped, token_count, key_head_count, value_head_count, key_dim),
            Ok::<Vec<T>, Error>(tiled),
        ),
        key_head_count > 0,
        0 <= h < value_head_count,
        0 <= t < token_count,
        0 <= i < key_dim,
    ensures
        tiled@.len() == value_head_count * (token_count * key_dim),
        tiled@[(h * token_count + t) * key_dim + i] == grouped@[((h % (key_head_count as int))
            * token_count + t) * key_dim + i],
{
    lemma_tiled_lane(
        grouped@,
        key_head_count as int,
        value_head_count as int,
        token_count as int,
        key_dim as int,
        h,
        t,
        i,
    );
}

proof fn lemma_tiled_lane<T>(
    grouped: Seq<T>,
    key_heads: int,
    value_heads: int,
    tokens: int,
    width: int,
    h: int,
    t: int,
    i: int,
)
    requires
        key_heads > 0,
        0 <= h < value_heads,
        0 <= t < tokens,
        0 <= i < width,
    ensures
        arrangement::tiled(grouped, key_heads, value_heads, tokens * width).len() == value_heads * (
        tokens * width),
        arrangement::tiled(grouped, key_heads, value_heads, tokens * width)[(h * tokens + t) * width
            + i] == grouped[((h % key_heads) * tokens + t) * width + i],
{
    let lane = t * width + i;
    assert(0 <= lane < tokens * width) by (nonlinear_arith)
        requires
            0 <= t < tokens,
            0 <= i < width,
            lane == t * width + i,
    ;
    arrangement::lemma_window_element(
        grouped,
        tokens * width,
        value_heads,
        arrangement::tiled_start(key_heads, tokens * width),
        h,
        lane,
    );
    let source = h % key_heads;
    assert((h * tokens + t) * width + i == h * (tokens * width) + lane) by (nonlinear_arith)
        requires
            lane == t * width + i,
    ;
    assert((source * tokens + t) * width + i == source * (tokens * width) + lane)
        by (nonlinear_arith)
        requires
            lane == t * width + i,
    ;
}

/// Tiling by a block's geometry repeats the key heads over the value heads.
pub proof fn law_tile_heads(
    layout: ExecutionLayout,
    grouped: &[u32],
    token_count: usize,
    tiled: Vec<u32>,
    h: int,
    t: int,
    i: int,
)
    requires
        call_ensures(tile_heads, (layout, grouped, token_count), Ok::<Vec<u32>, Error>(tiled)),
        layout.key_head_count > 0,
        0 <= h < layout.value_head_count,
        0 <= t < token_count,
        0 <= i < layout.key_dim,
    ensures
        tiled@[(h * token_count + t) * layout.key_dim + i] == grouped@[((h % (
        layout.key_head_count as int)) * token_count + t) * layout.key_dim + i],
{
    lemma_tiled_lane(
        grouped@,
        layout.key_head_count as int,
        layout.value_head_count as int,
        token_count as int,
        layout.key_dim as int,
        h,
        t,
        i,
    );
}

/// The activated channels of a token hold its query heads first and its key heads
/// behind them; each is handed out head by head.
pub proof fn law_query_and_key_heads(
    pass: &RecurrentPass,
    query: Vec<u32>,
    key: Vec<u32>,
    t: int,
    h: int,
    i: int,
)
    requires
        call_ensures(RecurrentPass::query_heads, (pass,), Ok::<Vec<u32>, Error>(query)),
        call_ensures(RecurrentPass::key_heads, (pass,), Ok::<Vec<u32>, Error>(key)),
        pass@.layout.conv_width > 0,
        pass@.convolved.len() == pass@.token_count * pass@.layout.conv_width,
        0 <= t < pass@.token_count,
        0 <= h < pass@.layout.key_head_count,
        0 <= i < pass@.layout.key_dim,
    ensures
        query@[(h * pass@.token_count + t) * pass@.layout.key_dim + i] == pass@.convolved[t
            * pass@.layout.conv_width + h * pass@.layout.key_dim + i],
        key@[(h * pass@.token_count + t) * pass@.layout.key_dim + i] == pass@.convolved[t
            * pass@.layout.conv_width + pass@.layout.key_width + h * pass@.layout.key_dim + i],
{
    let model = pass@;
    lemma_offered(model.token_count as int, model.layout.conv_width as int);
    arrangement::lemma_head_major_element(
        model.convolved,
        model.token_count as int,
        model.layout.conv_width as int,
        0,
        model.layout.key_head_count as int,
        model.layout.key_dim as int,
        h,
        t,
        i,
    );
    arrangement::lemma_head_major_element(
        model.convolved,
        model.token_count as int,
        model.layout.conv_width as int,
        model.layout.key_width as int,
        model.layout.key_head_count as int,
        model.layout.key_dim as int,
        h,
        t,
        i,
    );
}

/// What the recurrence reads: value head `h` gets the query and key of head
/// `h % key_head_count`, and its own values from behind the queries and the keys of
/// each token's channels.
pub proof fn law_recurrence_reads_its_heads(
    pass: RecurrentPass,
    key: Vec<u32>,
    next: RecurrentPass,
    t: int,
    h: int,
)
    requires
        call_ensures(RecurrentPass::scale_key, (pass, key), Ok::<RecurrentPass, Error>(next)),
        2 * pass@.layout.key_width <= usize::MAX,
        pass@.layout.conv_width > 0,
        pass@.layout.key_head_count > 0,
        pass@.convolved.len() == pass@.token_count * pass@.layout.conv_width,
        0 <= t < pass@.token_count,
        0 <= h < pass@.layout.value_head_count,
    ensures
        forall|i: int|
            0 <= i < pass@.layout.value_dim ==> #[trigger] next@.value[(h * pass@.token_count + t)
                * pass@.layout.value_dim + i] == pass@.convolved[t * pass@.layout.conv_width + 2
                * pass@.layout.key_width + h * pass@.layout.value_dim + i],
        forall|i: int|
            0 <= i < pass@.layout.key_dim ==> #[trigger] next@.query[(h * pass@.token_count + t)
                * pass@.layout.key_dim
                    + i] == pass@.query[((h % (pass@.layout.key_head_count as int))
                * pass@.token_count + t) * pass@.layout.key_dim + i],
        forall|i: int|
            0 <= i < pass@.layout.key_dim ==> #[trigger] next@.key[(h * pass@.token_count + t)
                * pass@.layout.key_dim + i] == key@[((h % (pass@.layout.key_head_count as int))
                * pass@.token_count + t) * pass@.layout.key_dim + i],
        next@.beta == pass@.beta && next@.decay == pass@.decay && next@.z == pass@.z,
{
    let model = pass@;
    lemma_offered(model.token_count as int, model.layout.conv_width as int);
    assert forall|i: int| 0 <= i < model.layout.value_dim implies #[trigger] next@.value[(h
        * model.token_count + t) * model.layout.value_dim + i] == model.convolved[t
        * model.layout.conv_width + 2 * model.layout.key_width + h * model.layout.value_dim
            + i] by {
        arrangement::lemma_head_major_element(
            model.convolved,
            model.token_count as int,
            model.layout.conv_width as int,
            2 * model.layout.key_width,
            model.layout.value_head_count as int,
            model.layout.value_dim as int,
            h,
            t,
            i,
        );
    }
    assert forall|i: int| 0 <= i < model.layout.key_dim implies #[trigger] next@.query[(h
        * model.token_count + t) * model.layout.key_dim + i] == model.query[((h % (
    model.layout.key_head_count as int)) * model.token_count + t) * model.layout.key_dim + i] by {
        lemma_tiled_lane(
            model.query,
            model.layout.key_head_count as int,
            model.layout.value_head_count as int,
            model.token_count as int,
            model.layout.key_dim as int,
            h,
            t,
            i,
        );
    }
    assert forall|i: int| 0 <= i < model.layout.key_dim implies #[trigger] next@.key[(h
        * model.token_count + t) * model.layout.key_dim + i] == key@[((h % (
    model.layout.key_head_count as int)) * model.token_count + t) * model.layout.key_dim + i] by {
        lemma_tiled_lane(
            key@,
            model.layout.key_head_count as int,
            model.layout.value_head_count as int,
            model.token_count as int,
            model.layout.key_dim as int,
            h,
            t,
            i,
        );
    }
}

/// Update strengths and decays come token by token and are kept head by head: the
/// value of token `t` and head `h` is the transposed one.
pub proof fn law_strengths_and_decays_are_transposed(
    pass: RecurrentPass,
    strengths: &[u32],
    squashed: RecurrentPass,
    inputs: &[u32],
    decays: &[u32],
    decayed: RecurrentPass,
    t: int,
    h: int,
)
    requires
        call_ensures(
            RecurrentPass::squash,
            (pass, strengths),
            Ok::<RecurrentPass, Error>(squashed),
        ),
        call_ensures(
            RecurrentPass::decay,
            (squashed, inputs, decays),
            Ok::<RecurrentPass, Error>(decayed),
        ),
        strengths@.len() == pass@.token_count * pass@.layout.value_head_count,
        decays@.len() == pass@.token_count * pass@.layout.value_head_count,
        0 <= t < pass@.token_count,
        0 <= h < pass@.layout.value_head_count,
    ensures
        decayed@.beta[h * pass@.token_count + t] == strengths@[t * pass@.layout.value_head_count
            + h],
        decayed@.decay[h * pass@.token_count + t] == decays@[t * pass@.layout.value_head_count + h],
{
    let tokens = pass@.token_count as int;
    let heads = pass@.layout.value_head_count as int;
    lemma_offered(tokens, heads);
    arrangement::lemma_head_major_element(strengths@, tokens, heads, 0, heads, 1, h, t, 0);
    arrangement::lemma_head_major_element(decays@, tokens, heads, 0, heads, 1, h, t, 0);
    assert((h * tokens + t) * 1 + 0 == h * tokens + t);
    assert(t * heads + 0 + h * 1 + 0 == t * heads + h);
}

/// Every matrix that a recurrent pass asks for is stored under `blk.`, the decimal
/// number of the pass's own block, and the role of the stage.
pub proof fn law_recurrent_names_its_block(pass: &RecurrentPass, named: Option<(String, &[u32])>)
    requires
        call_ensures(RecurrentPass::projection, (pass,), named),
    ensures
        named is Some <==> (pass@.stage == RecurrentStage::ProjectChannels || pass@.stage
            == RecurrentStage::ProjectGating || pass@.stage == RecurrentStage::ProjectDecay
            || pass@.stage == RecurrentStage::ProjectStrength || pass@.stage
            == RecurrentStage::ProjectOutput),
        named matches Some((name, rows)) ==> {
            let block = "blk."@ + text::decimal(pass@.block_index as nat) + "."@;
            &&& pass@.stage == RecurrentStage::ProjectChannels ==> name@ == block
                + "attn_qkv.weight"@ && rows@ == pass@.normalized
            &&& pass@.stage == RecurrentStage::ProjectGating ==> name@ == block
                + "attn_gate.weight"@ && rows@ == pass@.normalized
            &&& pass@.stage == RecurrentStage::ProjectDecay ==> name@ == block
                + "ssm_alpha.weight"@ && rows@ == pass@.normalized
            &&& pass@.stage == RecurrentStage::ProjectStrength ==> name@ == block
                + "ssm_beta.weight"@ && rows@ == pass@.normalized
            &&& pass@.stage == RecurrentStage::ProjectOutput ==> name@ == block
                + "ssm_out.weight"@ && rows@ == pass@.rows
        },
{
}

/// A step begins for the block of its execution, with one token for every complete
/// hidden row, and only finite rows begin one.
pub proof fn law_recurrent_begin(
    execution: &Qwen35RecurrentExecution,
    hidden_tokens: &[u32],
    pass: RecurrentPass,
)
    requires
        call_ensures(
            RecurrentPass::begin,
            (execution, hidden_tokens),
            Ok::<RecurrentPass, Error>(pass),
        ),
    ensures
        pass@.block_index == execution.block_index && pass@.layout == execution.layout,
        pass@.stage == RecurrentStage::Normalize,
        pass@.token_count > 0,
        hidden_tokens@.len() == pass@.token_count * execution.layout.hidden,
        forall|i: int|
            0 <= i < hidden_tokens@.len() ==> #[trigger] hidden_tokens@[i] & 0x7f80_0000u32
                != 0x7f80_0000u32,
{
    let hidden = execution.layout.hidden as int;
    let length = hidden_tokens@.len() as int;
    vstd::arithmetic::div_mod::lemma_fundamental_div_mod(length, hidden);
    vstd::arithmetic::div_mod::lemma_div_is_ordered_by_denominator(length, 1, hidden);
    assert(hidden_tokens.len() == length);
    assert(hidden * (length / hidden) == (length / hidden) * hidden) by (nonlinear_arith);
    assert(length / hidden > 0) by (nonlinear_arith)
        requires
            length == hidden * (length / hidden),
            length > 0,
            hidden > 0,
    ;
    assert forall|i: int| 0 <= i < hidden_tokens@.len() implies #[trigger] hidden_tokens@[i]
        & 0x7f80_0000u32 != 0x7f80_0000u32 by {
        crate::float_bits::lemma_finite_exponent(hidden_tokens@[i]);
    }
}

/// From the normalized rows to the strengths: a pass keeps its block, hands the same
/// normalized rows to its four input matrices, and takes one row of each matrix's
/// output width for every token.
pub proof fn law_recurrent_projects_for_its_block(
    pass: RecurrentPass,
    normalized: Vec<u32>,
    first: RecurrentPass,
    qkv: Vec<u32>,
    second: RecurrentPass,
    z: Vec<u32>,
    third: RecurrentPass,
    alpha: Vec<u32>,
    fourth: RecurrentPass,
    beta: Vec<u32>,
    fifth: RecurrentPass,
    names: (String, String, String, String),
    rows: (&[u32], &[u32], &[u32], &[u32]),
)
    requires
        call_ensures(
            RecurrentPass::normalize,
            (pass, normalized),
            Ok::<RecurrentPass, Error>(first),
        ),
        call_ensures(RecurrentPass::projection, (&first,), Some((names.0, rows.0))),
        call_ensures(
            RecurrentPass::project_channels,
            (first, qkv),
            Ok::<RecurrentPass, Error>(second),
        ),
        call_ensures(RecurrentPass::projection, (&second,), Some((names.1, rows.1))),
        call_ensures(
            RecurrentPass::project_gating,
            (second, z),
            Ok::<RecurrentPass, Error>(third),
        ),
        call_ensures(RecurrentPass::projection, (&third,), Some((names.2, rows.2))),
        call_ensures(
            RecurrentPass::project_decay,
            (third, alpha),
            Ok::<RecurrentPass, Error>(fourth),
        ),
        call_ensures(RecurrentPass::projection, (&fourth,), Some((names.3, rows.3))),
        call_ensures(
            RecurrentPass::project_strength,
            (fourth, beta),
            Ok::<RecurrentPass, Error>(fifth),
        ),
    ensures
        ({
            let block = "blk."@ + text::decimal(pass@.block_index as nat) + "."@;
            &&& names.0@ == block + "attn_qkv.weight"@
            &&& names.1@ == block + "attn_gate.weight"@
            &&& names.2@ == block + "ssm_alpha.weight"@
            &&& names.3@ == block + "ssm_beta.weight"@
        }),
        rows.0@ == normalized@ && rows.1@ == normalized@ && rows.2@ == normalized@ && rows.3@
            == normalized@,
        qkv@.len() == pass@.token_count * pass@.layout.conv_width && fifth@.qkv == qkv@,
        z@.len() == pass@.token_count * pass@.layout.inner && fifth@.z == z@,
        alpha@.len() == pass@.token_count * pass@.layout.value_head_count && fifth@.alpha == alpha@,
        beta@.len() == pass@.token_count * pass@.layout.value_head_count && fifth@.beta == beta@,
        fifth@.block_index == pass@.block_index && fifth@.layout == pass@.layout
            && fifth@.token_count == pass@.token_count,
        fifth@.stage == RecurrentStage::Squash,
{
}

/// From the convolved channels to the scaled queries nothing is lost: the channels
/// that heads are taken from are the activated ones, and the history is kept.
pub proof fn law_recurrent_convolves(
    pass: RecurrentPass,
    convolved: Vec<u32>,
    history: Vec<u32>,
    first: RecurrentPass,
    activated: Vec<u32>,
    second: RecurrentPass,
    query: Vec<u32>,
    third: RecurrentPass,
)
    requires
        call_ensures(RecurrentPass::convolve, (pass, convolved, history), first),
        call_ensures(
            RecurrentPass::activate,
            (first, activated),
            Ok::<RecurrentPass, Error>(second),
        ),
        call_ensures(
            RecurrentPass::scale_query,
            (second, query),
            Ok::<RecurrentPass, Error>(third),
        ),
    ensures
        first@.convolved == convolved@ && first@.stage == RecurrentStage::Activate,
        third@.convolved == activated@ && third@.query == query@ && third@.history == history@,
        third@.beta == pass@.beta && third@.decay == pass@.decay,
        third@.block_index == pass@.block_index && third@.layout == pass@.layout
            && third@.token_count == pass@.token_count,
        third@.stage == RecurrentStage::ScaleKey,
{
}

/// The output matrix of the pass's own block is applied to the gated rows, and a
/// finished step gives its output rows with the history and the state it was handed.
pub proof fn law_recurrent_output(
    pass: RecurrentPass,
    normalized: Vec<u32>,
    first: RecurrentPass,
    gated: Vec<u32>,
    second: RecurrentPass,
    name: String,
    rows: &[u32],
    output: Vec<u32>,
    third: RecurrentPass,
    given: RecurrentOutput,
)
    requires
        call_ensures(
            RecurrentPass::normalize_rows,
            (pass, normalized),
            Ok::<RecurrentPass, Error>(first),
        ),
        call_ensures(
            RecurrentPass::gate_rows,
            (first, gated),
            Ok::<RecurrentPass, Error>(second),
        ),
        call_ensures(RecurrentPass::projection, (&second,), Some((name, rows))),
        call_ensures(
            RecurrentPass::project_output,
            (second, output),
            Ok::<RecurrentPass, Error>(third),
        ),
        call_ensures(RecurrentPass::into_output, (third,), given),
    ensures
        name@ == "blk."@ + text::decimal(pass@.block_index as nat) + "."@ + "ssm_out.weight"@,
        rows@ == gated@,
        first@.rows == normalized@,
        output@.len() == pass@.token_count * pass@.layout.hidden,
        given.output@ == output@,
        given.convolution_history@ == pass@.history,
        given.state@ == pass@.state,
{
}

/// A block is executed as recurrent exactly where it is a main block off the
/// full-attention cadence.
pub proof fn law_recurrent_blocks(
    layout: ExecutionLayout,
    block: u64,
    checked: Result<(), Error>,
)
    requires
        call_ensures(ExecutionLayout::validate_recurrent_block, (layout, block), checked),
    ensures
        layout.full_attention_interval > 0 ==> (checked is Ok <==> block < layout.main_block_count
            && (block + 1) % (layout.full_attention_interval as int) != 0),
        checked matches Err(error) ==> error matches Error::RecurrentLayer { block_index, .. }
            && block_index == block,
{
}

/// The host geometry of recurrent blocks: a token's channels are its queries, its keys,
/// and its values, and the values of all heads are the inner width.
pub proof fn law_recurrent_geometry(
    layout: Qwen35RecurrentLayout,
    epsilon: u32,
    host: ExecutionLayout,
)
    requires
        call_ensures(
            ExecutionLayout::try_from_profile,
            (layout, epsilon),
            Ok::<ExecutionLayout, Error>(host),
        ),
    ensures
        host.hidden == layout.hidden && host.inner == layout.inner,
        host.conv_kernel == layout.conv_kernel,
        host.key_dim == layout.state && host.key_head_count == layout.group_count,
        host.value_head_count == layout.time_step_rank,
        host.key_width == host.key_dim * host.key_head_count,
        host.conv_width == host.key_width + host.key_width + host.inner,
        layout.inner as int % layout.time_step_rank as int == 0 ==> host.value_dim
            * host.value_head_count == host.inner,
        host.main_block_count == layout.main_block_count && host.full_attention_interval
            == layout.full_attention_interval,
        host.epsilon == epsilon,
{
    let inner = layout.inner as int;
    let rank = layout.time_step_rank as int;
    vstd::arithmetic::div_mod::lemma_fundamental_div_mod(inner, rank);
    assert(rank * (inner / rank) == (inner / rank) * rank) by (nonlinear_arith);
}

/// Whether values are the words of an artifact's `f32` tensor of a name and a shape.
pub open spec fn holds_tensor(
    artifact: VerifiedArtifact,
    name: Seq<char>,
    dims: Seq<u64>,
    values: Seq<u32>,
) -> bool {
    exists|tensor: VerifiedTensor<'_>|
        #[trigger] payload::found(artifact, name, tensor) && tensor.descriptor.ggml_type
            == GgmlType::F32 && tensor.descriptor.dims@ == dims && payload::words_of(
            tensor.bytes@,
            values,
        )
}

/// A block's execution starts from the five parameters stored for that very block,
/// each of the shape its use demands, and from a state of zeros.
pub proof fn law_recurrent_execution_holds_its_block(
    artifact: &VerifiedArtifact,
    layout: Qwen35RecurrentLayout,
    block: u64,
    execution: Qwen35RecurrentExecution,
)
    requires
        call_ensures(
            Qwen35RecurrentExecution::try_from_weights,
            (artifact, layout, block),
            Ok::<Qwen35RecurrentExecution, Error>(execution),
        ),
    ensures
        execution.block_index == block,
        ({
            let prefix = "blk."@ + text::decimal(block as nat) + "."@;
            let channels = (2 * (layout.state * layout.group_count) + layout.inner) as u64;
            let value_width = layout.inner / layout.time_step_rank;
            &&& holds_tensor(
                *artifact,
                prefix + "attn_norm.weight"@,
                seq![layout.hidden],
                execution.attention_norm@,
            )
            &&& holds_tensor(
                *artifact,
                prefix + "ssm_a"@,
                seq![layout.time_step_rank],
                execution.ssm_a@,
            )
            &&& holds_tensor(
                *artifact,
                prefix + "ssm_dt.bias"@,
                seq![layout.time_step_rank],
                execution.ssm_dt@,
            )
            &&& holds_tensor(
                *artifact,
                prefix + "ssm_norm.weight"@,
                seq![value_width],
                execution.ssm_norm@,
            )
            &&& holds_tensor(
                *artifact,
                prefix + "ssm_conv1d.weight"@,
                seq![layout.conv_kernel, channels],
                execution.ssm_conv@,
            )
        }),
        execution.layout.conv_kernel > 0 ==> execution.convolution_history@.len() == (
        execution.layout.conv_kernel - 1) * execution.layout.conv_width,
        execution.recurrent_state@.len() == execution.layout.value_head_count
            * execution.layout.key_dim * execution.layout.value_dim,
        forall|i: int|
            0 <= i < execution.convolution_history@.len()
                ==> #[trigger] execution.convolution_history@[i] == 0,
        forall|i: int|
            0 <= i < execution.recurrent_state@.len() ==> #[trigger] execution.recurrent_state@[i]
                == 0,
{
    let host = execution.layout;
    let kernel = host.conv_kernel as int;
    let width = host.conv_width as int;
    if kernel > 0 {
        assert(0 <= width * (kernel - 1) && width * (kernel - 1) == (kernel - 1) * width)
            by (nonlinear_arith)
            requires
                width >= 0,
                kernel > 0,
        ;
    }
    let heads = host.value_head_count as int;
    let key = host.key_dim as int;
    let value = host.value_dim as int;
    assert(0 <= heads * (key * value) && heads * (key * value) == heads * key * value)
        by (nonlinear_arith)
        requires
            heads >= 0,
            key >= 0,
            value >= 0,
    ;
}

proof fn lemma_parameter_extents(dims: Seq<u64>)
    ensures
        dims.len() == 1 ==> (qwen35_recurrent::parameter_elements(dims) matches Ok(elements)
            ==> elements == dims[0]),
        dims.len() == 2 ==> (qwen35_recurrent::parameter_elements(dims) matches Ok(elements)
            ==> elements == dims[0] * dims[1]),
{
    reveal_with_fuel(qwen35_recurrent::parameter_elements, 4);
    assert(qwen35_recurrent::parameter_elements(Seq::<u64>::empty()) == Ok::<usize, Error>(1));
    if dims.len() == 1 || dims.len() == 2 {
        let first = seq![dims[0]];
        assert(first.drop_last() =~= Seq::<u64>::empty());
        assert(first.last() == dims[0]);
        assert(1usize * dims[0] == dims[0]) by (nonlinear_arith);
        assert(qwen35_recurrent::parameter_elements(first) matches Ok(elements) ==> elements
            == dims[0]);
        if dims.len() == 1 {
            assert(dims =~= first);
        } else {
            assert(dims.drop_last() =~= first);
        }
    }
}

/// What a block is counted to retain is what its execution holds: the lengths of its
/// five parameters, of its convolution history, and of its recurrent state.
pub proof fn law_recurrent_retains_what_it_holds(
    artifact: &VerifiedArtifact,
    layout: Qwen35RecurrentLayout,
    block: u64,
    execution: Qwen35RecurrentExecution,
    counted: usize,
)
    requires
        call_ensures(
            Qwen35RecurrentExecution::try_from_weights,
            (artifact, layout, block),
            Ok::<Qwen35RecurrentExecution, Error>(execution),
        ),
        call_ensures(retained_elements, (execution.layout,), Ok::<usize, Error>(counted)),
    ensures
        counted == execution.attention_norm@.len() + execution.ssm_a@.len()
            + execution.ssm_dt@.len() + execution.ssm_norm@.len() + execution.ssm_conv@.len()
            + execution.convolution_history@.len() + execution.recurrent_state@.len(),
{
    let host = execution.layout;
    lemma_parameter_extents(seq![layout.hidden]);
    lemma_parameter_extents(seq![layout.time_step_rank]);
    lemma_parameter_extents(seq![(layout.inner / layout.time_step_rank)]);
    lemma_parameter_extents(qwen35_recurrent::conv_dims(layout));
    assert(execution.attention_norm.len() == execution.attention_norm@.len());
    assert(execution.ssm_a.len() == execution.ssm_a@.len());
    assert(execution.ssm_dt.len() == execution.ssm_dt@.len());
    assert(execution.ssm_norm.len() == execution.ssm_norm@.len());
    assert(execution.ssm_conv.len() == execution.ssm_conv@.len());
    assert(0 <= host.conv_width * (host.conv_kernel - 1)) by (nonlinear_arith)
        requires
            host.conv_kernel > 0,
    ;
    assert(0 <= host.value_head_count * (host.key_dim * host.value_dim)) by (nonlinear_arith);
    assert(host.conv_kernel * host.conv_width == layout.conv_kernel * (2 * (layout.state
        * layout.group_count) + layout.inner));
}

/// A copy for one transaction holds the same block, parameters, and state.
pub proof fn law_recurrent_copy(
    execution: &Qwen35RecurrentExecution,
    copy: Qwen35RecurrentExecution,
)
    requires
        call_ensures(
            Qwen35RecurrentExecution::try_clone_for_transaction,
            (execution,),
            Ok::<Qwen35RecurrentExecution, Error>(copy),
        ),
    ensures
        copy.block_index == execution.block_index && copy.layout == execution.layout,
        copy.attention_norm@ == execution.attention_norm@,
        copy.ssm_a@ == execution.ssm_a@,
        copy.ssm_dt@ == execution.ssm_dt@,
        copy.ssm_norm@ == execution.ssm_norm@,
        copy.ssm_conv@ == execution.ssm_conv@,
        copy.convolution_history@ == execution.convolution_history@,
        copy.recurrent_state@ == execution.recurrent_state@,
{
}

/// A list that is read as a parameter holds as many values as its shape has places.
pub proof fn law_parameter_has_its_shape(
    artifact: &VerifiedArtifact,
    name: &str,
    dims: &[u64],
    values: Vec<u32>,
    counted: usize,
)
    requires
        call_ensures(read_f32_tensor, (artifact, name, dims), Ok::<Vec<u32>, Error>(values)),
        call_ensures(product_dims, (dims,), Ok::<usize, Error>(counted)),
    ensures
        values@.len() == counted,
        dims@.len() == 1 ==> counted == dims@[0],
        dims@.len() == 2 ==> counted == dims@[0] * dims@[1],
        holds_tensor(*artifact, name@, dims@, values@),
{
    lemma_parameter_extents(dims@);
    assert(values.len() == values@.len());
}

/// A recurrent tensor's name is `blk.`, its block's decimal number, and its role.
pub proof fn law_recurrent_tensor_name(block: u64, role: &str, name: String)
    requires
        call_ensures(block_tensor_name, (block, role), name),
    ensures
        name@ == "blk."@ + text::decimal(block as nat) + "."@ + role@,
{
}

/// Values are admitted exactly where all of them are finite; the first that is not is
/// named by its place, counted from the offset.
pub proof fn law_recurrent_finite(
    values: &[u32],
    stage: &'static str,
    offset: usize,
    checked: Result<(), Error>,
)
    requires
        call_ensures(ensure_finite, (values, stage, offset), checked),
        offset + values@.len() <= usize::MAX,
    ensures
        checked is Ok <==> forall|i: int|
            0 <= i < values@.len() ==> #[trigger] values@[i] & 0x7f80_0000u32 != 0x7f80_0000u32,
        checked matches Err(error) ==> exists|i: int|
            {
                &&& 0 <= i < values@.len()
                &&& #[trigger] values@[i] & 0x7f80_0000u32 == 0x7f80_0000u32
                &&& error == (Error::RecurrentArithmetic { stage, index: (offset + i) as usize })
                &&& forall|j: int|
                    0 <= j < i ==> #[trigger] values@[j] & 0x7f80_0000u32 != 0x7f80_0000u32
            },
{
    assert(values.len() == values@.len());
    assert forall|i: int| 0 <= i < values@.len() implies float_bits::finite(#[trigger] values@[i])
        == (values@[i] & 0x7f80_0000u32 != 0x7f80_0000u32) by {
        float_bits::lemma_finite_exponent(values@[i]);
    }
    if checked is Ok {
        assert forall|i: int| 0 <= i < values@.len() implies #[trigger] values@[i] & 0x7f80_0000u32
            != 0x7f80_0000u32 by {
            assert(float_bits::finite(values@[i]));
        }
    } else {
        let error = checked->Err_0;
        let i = choose|i: int| #[trigger]
            qwen35_recurrent::refuses_value(values@, stage, offset, i, error);
        assert forall|j: int| 0 <= j < i implies #[trigger] values@[j] & 0x7f80_0000u32
            != 0x7f80_0000u32 by {
            assert(float_bits::finite(values@[j]));
        }
        assert(!float_bits::finite(values@[i]));
    }
}

/// Decays are admitted exactly where every input and every decay is finite.
pub proof fn law_decays_are_finite(inputs: &[u32], decays: &[u32], checked: Result<(), Error>)
    requires
        call_ensures(check_decay, (inputs, decays), checked),
        inputs@.len() == decays@.len(),
    ensures
        checked is Ok <==> forall|i: int|
            0 <= i < decays@.len() ==> #[trigger] inputs@[i] & 0x7f80_0000u32 != 0x7f80_0000u32
                && decays@[i] & 0x7f80_0000u32 != 0x7f80_0000u32,
{
    assert forall|i: int| 0 <= i < decays@.len() implies (float_bits::finite(#[trigger] inputs@[i])
        == (inputs@[i] & 0x7f80_0000u32 != 0x7f80_0000u32)) && (float_bits::finite(decays@[i]) == (
    decays@[i] & 0x7f80_0000u32 != 0x7f80_0000u32)) by {
        float_bits::lemma_finite_exponent(inputs@[i]);
        float_bits::lemma_finite_exponent(decays@[i]);
    }
    if checked is Ok {
        assert forall|i: int| 0 <= i < decays@.len() implies #[trigger] inputs@[i] & 0x7f80_0000u32
            != 0x7f80_0000u32 && decays@[i] & 0x7f80_0000u32 != 0x7f80_0000u32 by {
            assert(float_bits::finite(inputs@[i]));
            assert(float_bits::finite(decays@[i]));
        }
    } else if forall|i: int|
        0 <= i < decays@.len() ==> #[trigger] inputs@[i] & 0x7f80_0000u32 != 0x7f80_0000u32
            && decays@[i] & 0x7f80_0000u32 != 0x7f80_0000u32 {
        let error = checked->Err_0;
        assert(crate::qwen35_recurrent_pass::decay_refused(inputs@, decays@, error));
        let i = choose|i: int| #[trigger]
            crate::qwen35_recurrent_pass::first_undecayed(inputs@, decays@, i);
        assert(inputs@[i] & 0x7f80_0000u32 != 0x7f80_0000u32);
        assert(decays@[i] & 0x7f80_0000u32 != 0x7f80_0000u32);
    }
}

/// A projection is taken exactly where it has a row of its width for every token.
pub proof fn law_projected_rows(
    tokens: usize,
    width: usize,
    length: usize,
    checked: Result<(), Error>,
)
    requires
        call_ensures(check_projection, (tokens, width, length), checked),
    ensures
        checked is Ok <==> length == tokens * width,
        length != tokens * width && tokens * width <= usize::MAX ==> checked == Err::<(), Error>(
            Error::RecurrentInput { hidden: width, actual: length },
        ),
{
}

/// What a pass lends out is what it was handed: the recurrence reads the tiled queries
/// and keys, the values, and the transposed strengths and decays, in that order.
pub proof fn law_recurrent_views(
    pass: &RecurrentPass,
    inputs: (&[u32], &[u32], &[u32], &[u32], &[u32]),
    channels: &[u32],
    projected: &[u32],
    gating: &[u32],
    decay: &[u32],
    rows: &[u32],
)
    requires
        call_ensures(RecurrentPass::recurrence_inputs, (pass,), inputs),
        call_ensures(RecurrentPass::channels, (pass,), channels),
        call_ensures(RecurrentPass::convolution_inputs, (pass,), projected),
        call_ensures(RecurrentPass::gating, (pass,), gating),
        call_ensures(RecurrentPass::decay_inputs, (pass,), decay),
        call_ensures(RecurrentPass::rows, (pass,), rows),
    ensures
        inputs.0@ == pass@.query && inputs.1@ == pass@.key && inputs.2@ == pass@.value,
        inputs.3@ == pass@.beta && inputs.4@ == pass@.decay,
        channels@ == pass@.convolved && projected@ == pass@.qkv && gating@ == pass@.z && decay@
            == pass@.alpha && rows@ == pass@.rows,
{
}

/// A step over complete hidden rows replaces the history and the state by the computed
/// ones of the same lengths; a refused or failed step leaves the block as it was.
pub proof fn law_recurrent_step(
    execution: &mut Qwen35RecurrentExecution,
    hidden: &[u32],
    computed: Result<RecurrentOutput, Error>,
    output: Result<Vec<u32>, Error>,
)
    requires
        call_ensures(Qwen35RecurrentExecution::step, (execution, hidden, computed), output),
    ensures
        output is Err ==> *final(execution) == *old(execution),
        computed is Err ==> output is Err,
        output matches Ok(rows) ==> computed matches Ok(step) && {
            &&& rows@ == step.output@ && rows@.len() == hidden@.len()
            &&& final(execution).convolution_history@ == step.convolution_history@
            &&& final(execution).recurrent_state@ == step.state@
            &&& step.convolution_history@.len() == old(execution).convolution_history@.len()
            &&& step.state@.len() == old(execution).recurrent_state@.len()
            &&& final(execution).block_index == old(execution).block_index
            &&& final(execution).layout == old(execution).layout
            &&& final(execution).ssm_conv == old(execution).ssm_conv
            &&& final(execution).ssm_a == old(execution).ssm_a
            &&& final(execution).ssm_dt == old(execution).ssm_dt
            &&& final(execution).ssm_norm == old(execution).ssm_norm
            &&& final(execution).attention_norm == old(execution).attention_norm
        },
{
}

/// An input is admitted as one token for every complete hidden row.
pub proof fn law_recurrent_input(
    execution: &Qwen35RecurrentExecution,
    hidden: &[u32],
    tokens: Result<usize, Error>,
)
    requires
        call_ensures(Qwen35RecurrentExecution::admit_input, (execution, hidden), tokens),
    ensures
        tokens matches Ok(tokens) ==> tokens > 0 && hidden@.len() == tokens
            * execution.layout.hidden,
        hidden@.len() == 0 ==> tokens is Err,
{
    if tokens is Ok {
        let width = execution.layout.hidden as int;
        let length = hidden@.len() as int;
        vstd::arithmetic::div_mod::lemma_fundamental_div_mod(length, width);
        assert(width * (length / width) == (length / width) * width) by (nonlinear_arith);
        assert(length / width > 0) by (nonlinear_arith)
            requires
                length == width * (length / width),
                length > 0,
                width > 0,
        ;
    }
}

} // verus!
