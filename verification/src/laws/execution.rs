//! Laws of the Qwen3.5 execution geometry: where its numbers come from, how blocks
//! divide, what a step allocates, and which coordinates rotate together.

use crate::error::Error;
use crate::float_bits;
use crate::gguf::{MetaValue, MetaValueType, Metadata, ObservedArtifact};
use crate::laws::qwen35_artifact::{count, widths};
use crate::qwen35::{Qwen35ExecutionDimensions, Qwen35StructuralProfile};
use crate::qwen35_execution;
use crate::qwen35_execution::{
    embedding_workspace_elements, ensure_execution_plan, extend_window, f32_tensor_elements, finite,
    full_attention_workspace_elements, layer_finish_workspace_elements, layout_from_metadata,
    lm_head_workspace_elements, returned_logits_elements, rms_norm_output_elements,
    split_query_gate, sum_elements, FeedForwardWorkspaceAllocations,
    FullAttentionWorkspaceAllocations, Layout, LayerFinishWorkspaceAllocations,
    LmHeadWorkspaceAllocations, PagedDecodePlan, Qwen35LogitSelection,
};
use crate::qwen35_inventory;
use crate::qwen35_mrope::{RotaryPair, TextMrope};
use vstd::prelude::*;

verus! {

/// The execution geometry of an admitted artifact is what its metadata stores: joined
/// widths are head counts times the head width, the rotary width is the key width where
/// none is stored, and the rotary base is ten thousand where none is stored.
pub proof fn law_execution_geometry(
    observed: &ObservedArtifact,
    profile: Qwen35StructuralProfile<'_>,
    lent: &Qwen35StructuralProfile<'_>,
    max_context: usize,
    layout: Layout,
)
    requires
        call_ensures(
            Qwen35StructuralProfile::try_from_observed,
            (observed,),
            Ok::<Qwen35StructuralProfile<'_>, Error>(profile),
        ),
        *lent == profile,
        call_ensures(Layout::from_metadata, (lent, max_context), Ok::<Layout, Error>(layout)),
    ensures
        ({
            let stored = observed.metadata@;
            let w = widths(stored);
            let rotary = "qwen35.rope.dimension_count"@;
            let base = "qwen35.rope.freq_base"@;
            &&& layout.hidden == w.hidden && layout.feed_forward == w.forward
            &&& layout.heads == w.heads && layout.kv_heads == w.kv_heads && layout.key == w.key
            &&& layout.query_width == w.heads * w.key
            &&& layout.kv_width == w.kv_heads * w.key
            &&& layout.vocabulary == w.vocabulary
            &&& layout.main_blocks == w.blocks - w.nextn
            &&& layout.full_interval == w.interval
            &&& stored.dom().contains(rotary) ==> layout.n_rot == stored[rotary]->U32_0
            &&& !stored.dom().contains(rotary) ==> layout.n_rot == w.key
            &&& stored.dom().contains(base) ==> layout.rope_base == stored[base]->F32_0
            &&& !stored.dom().contains(base) ==> layout.rope_base == 0x461c_4000
            &&& stored["qwen35.attention.layer_norm_rms_epsilon"@] == MetaValue::F32(
                layout.epsilon,
            )
            &&& forall|i: int|
                0 <= i < 4 ==> #[trigger] layout.rope_sections@[i]
                    == stored["qwen35.rope.dimension_sections"@]->Array_0.values@[i]->I32_0
        }),
        layout.max_context == max_context,
        0 < max_context <= count(observed.metadata@, "qwen35.context_length"),
{
    let tokens = observed.metadata@["tokenizer.ggml.tokens"@]->Array_0.values;
    assert(tokens.len() == tokens@.len());
}

/// Rotary scaling of an admitted artifact is absent or has no effect, and attention is
/// causal with the usual scale.
pub proof fn law_execution_is_unscaled(
    observed: &ObservedArtifact,
    profile: Qwen35StructuralProfile<'_>,
    lent: &Qwen35StructuralProfile<'_>,
    max_context: usize,
    layout: Layout,
)
    requires
        call_ensures(
            Qwen35StructuralProfile::try_from_observed,
            (observed,),
            Ok::<Qwen35StructuralProfile<'_>, Error>(profile),
        ),
        *lent == profile,
        call_ensures(Layout::from_metadata, (lent, max_context), Ok::<Layout, Error>(layout)),
    ensures
        ({
            let stored = observed.metadata@;
            let kind = "qwen35.rope.scaling.type"@;
            let factor = "qwen35.rope.scaling.factor"@;
            let legacy = "qwen35.rope.scale_linear"@;
            let attention = "qwen35.rope.scaling.attn_factor"@;
            let scale = "qwen35.attention.scale"@;
            let causal = "qwen35.attention.causal"@;
            let none = stored.dom().contains(kind) && (stored[kind] matches MetaValue::String(name)
                && name@ == "none"@);
            &&& stored.dom().contains(kind) ==> (stored[kind] matches MetaValue::String(name) && (
            name@ == "linear"@ || name@ == "none"@))
            &&& !none && stored.dom().contains(factor) ==> (stored[factor] matches MetaValue::F32(
                bits,
            ) && (bits == 0 || bits == 0x8000_0000 || bits == 0x3f80_0000))
            &&& !none && !stored.dom().contains(factor) && stored.dom().contains(legacy) ==> (
            stored[legacy] matches MetaValue::F32(bits) && (bits == 0 || bits == 0x8000_0000
                || bits == 0x3f80_0000))
            &&& stored.dom().contains(attention) ==> stored[attention] == MetaValue::F32(
                0x3f80_0000,
            )
            &&& stored.dom().contains(scale) ==> (stored[scale] matches MetaValue::F32(bits) && (
            bits == 0 || bits == 0x8000_0000))
            &&& stored.dom().contains(causal) ==> stored[causal] == MetaValue::Bool(true)
        }),
        layout.n_rot % 2 == 0 && 0 < layout.n_rot <= layout.key,
        ({
            let sections = layout.rope_sections@;
            0 < sections[0] + sections[1] + sections[2] && sections[0] + sections[1] + sections[2]
                + sections[3] <= layout.key
        }),
        max_context <= 0x8000_0000,
{
    let stored = observed.metadata@;
    reveal_strlit("linear");
    reveal_strlit("none");
    assert("linear"@.len() != "none"@.len());
    assert(qwen35_execution::rope_section(stored, qwen35_execution::ROPE_SECTIONS_KEY, 0) >= 0);
    assert(qwen35_execution::rope_section(stored, qwen35_execution::ROPE_SECTIONS_KEY, 1) >= 0);
    assert(qwen35_execution::rope_section(stored, qwen35_execution::ROPE_SECTIONS_KEY, 2) >= 0);
    assert(layout.rope_sections@[0] == qwen35_execution::rope_section(
        stored,
        qwen35_execution::ROPE_SECTIONS_KEY,
        0,
    ));
    assert(layout.rope_sections@[1] == qwen35_execution::rope_section(
        stored,
        qwen35_execution::ROPE_SECTIONS_KEY,
        1,
    ));
    assert(layout.rope_sections@[2] == qwen35_execution::rope_section(
        stored,
        qwen35_execution::ROPE_SECTIONS_KEY,
        2,
    ));
    assert(layout.rope_sections@[3] == qwen35_execution::rope_section(
        stored,
        qwen35_execution::ROPE_SECTIONS_KEY,
        3,
    ));
}

/// The number of blocks below a bound whose successor is a multiple of an interval.
pub open spec fn marked(interval: int, blocks: nat) -> int
    decreases blocks,
{
    if blocks == 0 {
        0
    } else {
        marked(interval, (blocks - 1) as nat) + if blocks as int % interval == 0 {
            1int
        } else {
            0
        }
    }
}

/// Every interval-th block is marked: there are as many as whole intervals.
pub proof fn lemma_marked(interval: int, blocks: nat)
    requires
        interval > 0,
    ensures
        marked(interval, blocks) == blocks as int / interval,
    decreases blocks,
{
    if blocks == 0 {
        assert(0int / interval == 0) by (nonlinear_arith)
            requires
                interval > 0,
        ;
    } else {
        lemma_marked(interval, (blocks - 1) as nat);
        qwen35_inventory::lemma_next_quotient(blocks - 1, interval);
    }
}

/// The full-attention layers that are counted are the blocks that are reported as such,
/// every interval-th one, and the recurrent layers are all others.
pub proof fn law_layers_are_counted(
    layout: Layout,
    full: usize,
    recurrent: Result<usize, Error>,
    block: usize,
    is_full: bool,
    admitted: bool,
)
    requires
        layout.full_interval > 0,
        block < usize::MAX,
        call_ensures(Layout::full_layer_count, (layout,), full),
        call_ensures(Layout::recurrent_layer_count, (layout,), recurrent),
        call_ensures(Layout::is_full, (layout, block), is_full),
        call_ensures(Layout::is_admitted_full_block, (layout, block), admitted),
    ensures
        full == marked(layout.full_interval as int, layout.main_blocks as nat),
        recurrent matches Ok(others) && others + full == layout.main_blocks,
        is_full <==> (block + 1) % (layout.full_interval as int) == 0,
        admitted <==> is_full && block < layout.main_blocks,
{
    lemma_marked(layout.full_interval as int, layout.main_blocks as nat);
}

/// The parameters of text rotation are those of the geometry.
pub proof fn law_text_rotation(layout: Layout, mrope: TextMrope, width: usize)
    requires
        call_ensures(Layout::text_mrope, (layout,), mrope),
        call_ensures(TextMrope::rotary_width, (mrope,), width),
    ensures
        width == layout.n_rot,
        mrope.rope_base == layout.rope_base,
        mrope.sections@ == layout.rope_sections@,
{
}

/// Which axis drives a pair: along a period of all sections the first three axes take
/// turns, and a turn that an axis has no section left for goes to the fourth.
pub proof fn law_axes_take_turns(
    mrope: TextMrope,
    pair: usize,
    axis: Result<usize, Error>,
    period: int,
    cycle: int,
    turn: int,
    which: int,
)
    requires
        call_ensures(TextMrope::axis, (mrope, pair), axis),
        period == mrope.sections@[0] + mrope.sections@[1] + mrope.sections@[2]
            + mrope.sections@[3],
        0 < period <= usize::MAX,
        0 <= cycle && 0 <= turn && 0 <= which < 3,
        3 * turn + which < period,
        pair == cycle * period + 3 * turn + which,
    ensures
        axis == Ok::<usize, Error>(
            if turn < mrope.sections@[which] {
                which as usize
            } else {
                3
            },
        ),
{
    vstd::arithmetic::div_mod::lemma_fundamental_div_mod_converse(
        pair as int,
        period,
        cycle,
        3 * turn + which,
    );
    assert((3 * turn + which) % 3 == which);
}

/// The axes of a rotation repeat after as many pairs as there are in all sections.
pub proof fn law_axes_repeat(
    mrope: TextMrope,
    pair: usize,
    axis: Result<usize, Error>,
    later: usize,
    later_axis: Result<usize, Error>,
)
    requires
        call_ensures(TextMrope::axis, (mrope, pair), axis),
        call_ensures(TextMrope::axis, (mrope, later), later_axis),
        ({
            let period = mrope.sections@[0] + mrope.sections@[1] + mrope.sections@[2]
                + mrope.sections@[3];
            0 < period <= usize::MAX && later == pair + period
        }),
    ensures
        axis == later_axis,
        axis is Ok,
{
    let period = mrope.sections@[0] + mrope.sections@[1] + mrope.sections@[2] + mrope.sections@[3];
    vstd::arithmetic::div_mod::lemma_mod_add_multiples_vanish(pair as int, period);
}

/// Every coordinate of the rotary width turns in exactly one pair, with the coordinate
/// half the width away, and each pair carries the axis that drives it.
pub proof fn law_rotary_pairs(
    mrope: TextMrope,
    pairs: Vec<RotaryPair>,
    i: int,
    j: int,
    axis: Result<usize, Error>,
)
    requires
        call_ensures(TextMrope::pairs, (mrope,), Ok::<Vec<RotaryPair>, Error>(pairs)),
        mrope.rotary_width % 2 == 0,
        0 <= i < pairs@.len(),
        0 <= j < pairs@.len(),
        call_ensures(TextMrope::axis, (mrope, i as usize), axis),
        mrope.sections@[0] + mrope.sections@[1] + mrope.sections@[2] + mrope.sections@[3]
            <= usize::MAX,
    ensures
        2 * pairs@.len() == mrope.rotary_width,
        pairs@[i].left == i,
        2 * (pairs@[i].right - pairs@[i].left) == mrope.rotary_width,
        axis == Ok::<usize, Error>(pairs@[i].axis),
        i != j ==> pairs@[i].left != pairs@[j].left && pairs@[i].right != pairs@[j].right
            && pairs@[i].left != pairs@[j].right,
{
    assert(pairs@[i] == mrope.pair_of(i));
    assert(pairs@[j] == mrope.pair_of(j));
    assert(axis is Ok);
}

/// A sum of extents is the sum of its parts.
pub proof fn law_extents_are_summed(elements: &[usize], context: &'static str, sum: usize)
    requires
        call_ensures(sum_elements, (elements, context), Ok::<usize, Error>(sum)),
    ensures
        sum == elements@.fold_left(0int, |total: int, extent: usize| total + extent),
{
    lemma_total_is_fold(elements@);
}

proof fn lemma_total_is_fold(elements: Seq<usize>)
    ensures
        qwen35_execution::total(elements) == elements.fold_left(
            0int,
            |total: int, extent: usize| total + extent,
        ),
    decreases elements.len(),
{
    reveal_with_fuel(Seq::fold_left, 2);
    if elements.len() > 0 {
        lemma_total_is_fold(elements.drop_last());
    }
}

/// A tensor has as many elements as its dimensions multiply to.
pub proof fn law_elements_are_multiplied(dimensions: &[u64], elements: usize)
    requires
        call_ensures(f32_tensor_elements, (dimensions,), Ok::<usize, Error>(elements)),
    ensures
        elements == dimensions@.fold_left(1int, |product: int, extent: u64| product * extent),
{
    lemma_elements_is_fold(dimensions@);
}

proof fn lemma_elements_is_fold(dimensions: Seq<u64>)
    ensures
        qwen35_execution::tensor_elements(dimensions) matches Ok(elements) ==> elements
            == dimensions.fold_left(1int, |product: int, extent: u64| product * extent),
    decreases dimensions.len(),
{
    reveal_with_fuel(Seq::fold_left, 2);
    if dimensions.len() > 0 {
        lemma_elements_is_fold(dimensions.drop_last());
    }
}

/// Values are refused exactly where one of them is not finite, and the first such one
/// is named.
pub proof fn law_finite_values(values: &[u32], stage: &'static str, checked: Result<(), Error>)
    requires
        call_ensures(finite, (values, stage), checked),
    ensures
        checked is Ok <==> forall|i: int|
            0 <= i < values@.len() ==> #[trigger] values@[i] & 0x7f80_0000u32 != 0x7f80_0000u32,
        checked matches Err(error) ==> {
            &&& error matches Error::ExecutionArithmetic { stage: at, index }
            &&& at == stage && index < values@.len()
            &&& values@[index as int] & 0x7f80_0000u32 == 0x7f80_0000u32
            &&& forall|j: int|
                0 <= j < index ==> #[trigger] values@[j] & 0x7f80_0000u32 != 0x7f80_0000u32
        },
{
    assert forall|i: int| 0 <= i < values@.len() implies float_bits::finite(#[trigger] values@[i])
        == (values@[i] & 0x7f80_0000u32 != 0x7f80_0000u32) by {
        float_bits::lemma_finite_exponent(values@[i]);
    }
    if checked is Ok {
        assert forall|i: int| 0 <= i < values@.len() implies #[trigger] values@[i] & 0x7f80_0000u32
            != 0x7f80_0000u32 by {
            assert(float_bits::finite(values@[i]));
        }
    } else if let Error::ExecutionArithmetic { stage: at, index } = checked->Err_0 {
        assert forall|j: int| 0 <= j < index implies #[trigger] values@[j] & 0x7f80_0000u32
            != 0x7f80_0000u32 by {
            assert(values@.take(index as int)[j] == values@[j]);
        }
    }
}

/// A joined projection is split head by head: the first half of a head's lanes is its
/// query, the second half its gate.
pub proof fn law_query_gate_split<T: Copy>(
    projection: &[T],
    heads: usize,
    key: usize,
    planned: usize,
    query: Vec<T>,
    gate: Vec<T>,
    head: int,
    lane: int,
)
    requires
        call_ensures(
            split_query_gate::<T>,
            (projection, heads, key, planned),
            Ok::<(Vec<T>, Vec<T>), Error>((query, gate)),
        ),
        0 <= head < heads,
        0 <= lane < key,
    ensures
        query@.len() == heads * key && gate@.len() == heads * key,
        query@[head * key + lane] == projection@[2 * head * key + lane],
        gate@[head * key + lane] == projection@[(2 * head + 1) * key + lane],
{
    assert(head * (2 * key) == 2 * head * key) by (nonlinear_arith);
    assert((2 * head + 1) * key == 2 * head * key + key) by (nonlinear_arith);
    assert(query@[head * key + lane] == projection@[head * (2 * key) + lane]);
}

/// The workspace of a full-attention step is the sum of what it names, with the larger
/// of the attention scores and the output projection, which never live together; each
/// named extent is the width of the row it holds.
pub proof fn law_attention_workspace(
    layout: Layout,
    plan: PagedDecodePlan,
    named: FullAttentionWorkspaceAllocations,
    elements: usize,
)
    requires
        call_ensures(
            FullAttentionWorkspaceAllocations::try_from_layout,
            (layout, plan),
            Ok::<FullAttentionWorkspaceAllocations, Error>(named),
        ),
        call_ensures(
            full_attention_workspace_elements,
            (layout, plan),
            Ok::<usize, Error>(elements),
        ),
    ensures
        named.attention_norm == layout.hidden && named.normalized_input == layout.hidden,
        named.query_gate_projection == 2 * layout.query_width,
        named.key_projection == layout.kv_width && named.value_projection == layout.kv_width,
        named.query_norm == layout.key && named.key_norm == layout.key,
        named.split_query == layout.query_width && named.split_gate == layout.query_width,
        named.normalized_query == layout.query_width && named.normalized_key == layout.kv_width,
        named.merged_output == layout.query_width,
        named.output_projection == layout.hidden,
        named.paged_decode == plan,
        named.workspace_elements == elements,
        ({
            let lasting = named.attention_norm + named.normalized_input
                + named.query_gate_projection + named.key_projection + named.value_projection
                + named.query_norm + named.key_norm + named.split_query + named.split_gate
                + named.normalized_query + named.normalized_key + named.merged_output;
            &&& elements >= lasting + plan.workspace_elements
            &&& elements >= lasting + named.output_projection
            &&& elements == lasting + plan.workspace_elements || elements == lasting
                + named.output_projection
        }),
{
}

/// The workspace that finishes a layer is the sum of what it names, each the width of
/// the row it holds.
pub proof fn law_finish_workspace(
    layout: Layout,
    named: LayerFinishWorkspaceAllocations,
    forward: FeedForwardWorkspaceAllocations,
    forward_elements: usize,
    elements: usize,
)
    requires
        call_ensures(
            LayerFinishWorkspaceAllocations::try_from_layout,
            (layout,),
            Ok::<LayerFinishWorkspaceAllocations, Error>(named),
        ),
        call_ensures(FeedForwardWorkspaceAllocations::from_layout, (layout,), forward),
        call_ensures(
            FeedForwardWorkspaceAllocations::total_elements,
            (forward,),
            Ok::<usize, Error>(forward_elements),
        ),
        call_ensures(layer_finish_workspace_elements, (layout,), Ok::<usize, Error>(elements)),
    ensures
        named.attention_output == layout.hidden && named.post_attention_norm == layout.hidden
            && named.normalized_hidden == layout.hidden,
        named.feed_forward == forward,
        forward.gate_projection == layout.feed_forward && forward.up_projection
            == layout.feed_forward && forward.activated_gate == layout.feed_forward
            && forward.fused_activation == layout.feed_forward && forward.down_projection
            == layout.hidden,
        forward_elements == forward.gate_projection + forward.up_projection
            + forward.activated_gate + forward.fused_activation + forward.down_projection,
        elements == named.attention_output + named.post_attention_norm + named.normalized_hidden
            + forward_elements,
        elements == 4 * layout.hidden + 4 * layout.feed_forward,
{
}

/// The workspace of the vocabulary projection is two hidden rows and one logit row, and
/// an embedding is one hidden row.
pub proof fn law_head_workspace(
    layout: Layout,
    named: LmHeadWorkspaceAllocations,
    elements: usize,
    embedding: usize,
)
    requires
        call_ensures(
            LmHeadWorkspaceAllocations::try_from_layout,
            (layout,),
            Ok::<LmHeadWorkspaceAllocations, Error>(named),
        ),
        call_ensures(lm_head_workspace_elements, (layout,), Ok::<usize, Error>(elements)),
        call_ensures(embedding_workspace_elements, (layout,), embedding),
    ensures
        named.output_norm == layout.hidden && named.normalized_hidden == layout.hidden
            && named.vocabulary_projection == layout.vocabulary,
        elements == 2 * layout.hidden + layout.vocabulary,
        embedding == layout.hidden,
{
}

/// A step returns a logit row for every token, or the last one alone.
pub proof fn law_returned_logits(
    layout: Layout,
    tokens: usize,
    every: usize,
    last: usize,
)
    requires
        call_ensures(
            returned_logits_elements,
            (layout, tokens, Qwen35LogitSelection::AllTokens),
            Ok::<usize, Error>(every),
        ),
        call_ensures(
            returned_logits_elements,
            (layout, tokens, Qwen35LogitSelection::LastToken),
            Ok::<usize, Error>(last),
        ),
    ensures
        last == layout.vocabulary,
        every == tokens * last,
{
}

/// A geometry takes its widths from the dimensions it is given, and only for a context
/// that the artifact's context holds.
pub proof fn law_geometry_from_dimensions(
    metadata: &Metadata,
    dimensions: Qwen35ExecutionDimensions,
    max_context: usize,
    layout: Layout,
)
    requires
        call_ensures(
            layout_from_metadata,
            (metadata, dimensions, max_context),
            Ok::<Layout, Error>(layout),
        ),
    ensures
        layout.hidden == dimensions.hidden && layout.feed_forward == dimensions.feed_forward,
        layout.heads == dimensions.heads && layout.kv_heads == dimensions.key_value_heads
            && layout.key == dimensions.key_width,
        layout.query_width == layout.heads * layout.key && layout.kv_width == layout.kv_heads
            * layout.key,
        layout.vocabulary == dimensions.vocabulary && layout.main_blocks
            == dimensions.main_block_count && layout.full_interval
            == dimensions.full_attention_interval,
        layout.max_context == max_context,
        0 < max_context <= count(metadata@, "qwen35.context_length"),
        layout.heads % layout.kv_heads == 0,
{
}

/// A context is refused where it is zero, beyond the artifact's, or beyond the signed
/// text positions.
pub proof fn law_context_is_bounded(
    metadata: &Metadata,
    dimensions: Qwen35ExecutionDimensions,
    max_context: usize,
    layout: Result<Layout, Error>,
)
    requires
        call_ensures(layout_from_metadata, (metadata, dimensions, max_context), layout),
        max_context == 0 || max_context > 0x8000_0000 || !metadata@.dom().contains(
            "qwen35.context_length"@,
        ) || max_context > count(metadata@, "qwen35.context_length"),
    ensures
        layout is Err,
        max_context == 0 ==> layout == Err::<Layout, Error>(
            Error::ExecutionContext { requested: 0, rule: "caller context must be non-zero" },
        ),
{
}

/// A window is appended whole and in order behind what a list holds.
pub proof fn law_windows_are_appended<T: Copy>(
    output: &mut Vec<T>,
    values: &[T],
    start: usize,
    end: usize,
)
    requires
        call_ensures(extend_window::<T>, (output, values, start, end), ()),
        start <= end <= values@.len(),
    ensures
        final(output)@.len() == old(output)@.len() + (end - start),
        forall|i: int|
            0 <= i < old(output)@.len() ==> #[trigger] final(output)@[i] == old(output)@[i],
        forall|i: int|
            0 <= i < end - start ==> #[trigger] final(output)@[old(output)@.len() + i]
                == values@[start + i],
{
}

/// An extent is accepted exactly where it is the planned one, and normalized rows take
/// their number times their width.
pub proof fn law_planned_extents(
    target: &'static str,
    derived: usize,
    planned: usize,
    checked: Result<(), Error>,
    rows: usize,
    width: usize,
    elements: Result<usize, Error>,
)
    requires
        call_ensures(ensure_execution_plan, (target, derived, planned), checked),
        call_ensures(rms_norm_output_elements, (rows, width), elements),
    ensures
        checked is Ok <==> derived == planned,
        checked matches Err(error) ==> error == (Error::ExecutionAllocationPlan {
            target,
            planned,
            derived,
        }),
        elements is Ok <==> rows * width <= usize::MAX,
        elements matches Ok(elements) ==> elements == rows * width,
{
}

/// Two geometries are the same exactly where all their numbers are.
pub proof fn law_same_geometry(left: Layout, right: Layout, same: bool)
    requires
        call_ensures(Layout::same, (left, right), same),
    ensures
        same ==> left.hidden == right.hidden && left.heads == right.heads && left.kv_heads
            == right.kv_heads && left.key == right.key && left.n_rot == right.n_rot
            && left.feed_forward == right.feed_forward && left.vocabulary == right.vocabulary
            && left.main_blocks == right.main_blocks && left.full_interval == right.full_interval
            && left.max_context == right.max_context && left.epsilon == right.epsilon
            && left.rope_base == right.rope_base && left.query_width == right.query_width
            && left.kv_width == right.kv_width && left.rope_sections@ == right.rope_sections@,
        left == right ==> same,
{
}

/// Whether a key is absent or stores a number above zero.
pub open spec fn absent_or_positive(
    metadata: Map<Seq<char>, MetaValue>,
    key: &'static str,
) -> bool {
    metadata.dom().contains(key@) ==> (metadata[key@] matches MetaValue::F32(bits) && 0 < bits
        < 0x7f80_0000)
}

/// Whether a key is absent or stores an `f32` that is one, or zero of either sign.
pub open spec fn absent_or_neutral(metadata: Map<Seq<char>, MetaValue>, key: &'static str) -> bool {
    metadata.dom().contains(key@) ==> (metadata[key@] matches MetaValue::F32(bits) && (bits == 0
        || bits == 0x8000_0000 || bits == 0x3f80_0000))
}

/// Whether rotary scaling is absent or has no effect.
pub open spec fn neutral_scaling(metadata: Map<Seq<char>, MetaValue>) -> bool {
    let kind = "qwen35.rope.scaling.type"@;
    let factor = "qwen35.rope.scaling.factor"@;
    let legacy = "qwen35.rope.scale_linear"@;
    let attention = "qwen35.rope.scaling.attn_factor"@;
    let none = metadata.dom().contains(kind) && (metadata[kind] matches MetaValue::String(name)
        && name@ == "none"@);
    &&& metadata.dom().contains(kind) ==> (metadata[kind] matches MetaValue::String(name) && (name@
        == "linear"@ || name@ == "none"@))
    &&& metadata.dom().contains(factor) ==> metadata[factor] is F32
    &&& !metadata.dom().contains(factor) && metadata.dom().contains(legacy)
        ==> metadata[legacy] is F32
    &&& !none ==> absent_or_neutral(metadata, "qwen35.rope.scaling.factor")
    &&& !none && !metadata.dom().contains(factor) ==> absent_or_neutral(
        metadata,
        "qwen35.rope.scale_linear",
    )
    &&& metadata.dom().contains(attention) ==> metadata[attention] == MetaValue::F32(0x3f80_0000)
}

/// Whether the four rotary sections are stored, none negative and not all of the first
/// three empty, and together no wider than a width.
pub open spec fn sections_fit(metadata: Map<Seq<char>, MetaValue>, width: int) -> bool {
    let key = "qwen35.rope.dimension_sections"@;
    &&& metadata.dom().contains(key)
    &&& metadata[key] matches MetaValue::Array(array)
    &&& array.element_type == MetaValueType::I32
    &&& array.values@.len() == 4
    &&& array.values@[0] matches MetaValue::I32(first)
    &&& array.values@[1] matches MetaValue::I32(second)
    &&& array.values@[2] matches MetaValue::I32(third)
    &&& array.values@[3] matches MetaValue::I32(fourth)
    &&& 0 <= first && 0 <= second && 0 <= third && 0 <= fourth
    &&& first + second + third + fourth <= width
    &&& first + second + third > 0
}

/// A geometry is derived exactly where the context is admitted, the numbers fit the host,
/// attention is causal with its usual scale, and rotation is sound and unscaled.
pub proof fn law_geometry_admission(
    metadata: &Metadata,
    dimensions: Qwen35ExecutionDimensions,
    max_context: usize,
    layout: Result<Layout, Error>,
)
    requires
        call_ensures(layout_from_metadata, (metadata, dimensions, max_context), layout),
    ensures
        layout is Ok <==> {
            let stored = metadata@;
            let d = dimensions;
            let context = "qwen35.context_length"@;
            let rotary = "qwen35.rope.dimension_count"@;
            let scale = "qwen35.attention.scale"@;
            let causal = "qwen35.attention.causal"@;
            let epsilon = "qwen35.attention.layer_norm_rms_epsilon"@;
            let n_rot = if stored.dom().contains(rotary) {
                stored[rotary]->U32_0 as int
            } else {
                d.key_width as int
            };
            &&& stored.dom().contains(context) && (stored[context] matches MetaValue::U32(length)
                && 0 < max_context <= length)
            &&& max_context <= 0x8000_0000
            &&& d.hidden <= usize::MAX && d.feed_forward <= usize::MAX && d.heads <= usize::MAX
                && d.key_value_heads <= usize::MAX && d.key_width <= usize::MAX && d.vocabulary
                <= usize::MAX && d.main_block_count <= usize::MAX && d.full_attention_interval
                <= usize::MAX
            &&& stored.dom().contains(rotary) ==> stored[rotary] is U32
            &&& 0 < n_rot <= d.key_width && n_rot % 2 == 0
            &&& stored.dom().contains(scale) ==> (stored[scale] matches MetaValue::F32(bits) && (
            bits == 0 || bits == 0x8000_0000))
            &&& stored.dom().contains(causal) ==> stored[causal] == MetaValue::Bool(true)
            &&& d.full_attention_interval > 0 && d.heads > 0 && d.key_value_heads > 0
                && d.key_width > 0 && d.heads % d.key_value_heads == 0
            &&& sections_fit(stored, d.key_width as int)
            &&& absent_or_positive(stored, "qwen35.rope.freq_base")
            &&& neutral_scaling(stored)
            &&& d.key_value_heads * d.key_width <= usize::MAX && d.heads * d.key_width <= usize::MAX
            &&& stored.dom().contains(epsilon) && (stored[epsilon] matches MetaValue::F32(bits) && 0
                < bits < 0x7f80_0000)
        },
{
    let stored = metadata@;
    let key = qwen35_execution::ROPE_SECTIONS_KEY;
    reveal_strlit("linear");
    reveal_strlit("none");
    assert("linear"@.len() != "none"@.len());
    assert(qwen35_execution::rope_section(stored, key, 0) >= 0
        || qwen35_execution::rope_section(stored, key, 0) < 0);
    assert(qwen35_execution::rope_section(stored, key, 1) >= 0
        || qwen35_execution::rope_section(stored, key, 1) < 0);
    assert(qwen35_execution::rope_section(stored, key, 2) >= 0
        || qwen35_execution::rope_section(stored, key, 2) < 0);
    assert(qwen35_execution::rope_section(stored, key, 3) >= 0
        || qwen35_execution::rope_section(stored, key, 3) < 0);
}

} // verus!
