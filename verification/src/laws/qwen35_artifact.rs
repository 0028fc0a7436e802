//! Laws of Qwen3.5 artifacts: which metadata shapes which tensor, and which artifacts
//! are admitted.

use crate::error::Error;
use crate::gguf::{MetaValue, MetaValueType, Metadata, ObservedArtifact, TensorDescriptor};
use crate::qwen35;
use crate::qwen35::{
    Dimensions, Qwen35ExecutionDimensions, Qwen35RecurrentLayout, Qwen35StructuralProfile,
};
use crate::qwen35_inventory;
use crate::qwen35_inventory::{
    expected_tensors, ExpectedTensor, Slot, TemplateShape, TensorTemplate,
};
use crate::text;
use vstd::prelude::*;

verus! {

/// The numbers that the metadata of an artifact stores.
pub struct Widths {
    /// The length of an embedding, which is that of every hidden row.
    pub hidden: int,
    /// The width of the feed-forward network.
    pub forward: int,
    /// The number of query heads.
    pub heads: int,
    /// The number of key and value heads.
    pub kv_heads: int,
    /// The width of a key head.
    pub key: int,
    /// The width of a value head.
    pub value: int,
    /// The length of the recurrent convolution.
    pub kernel: int,
    /// The width of all recurrent values of a token.
    pub inner: int,
    /// The width of a recurrent key head.
    pub state: int,
    /// The number of recurrent value heads.
    pub rank: int,
    /// The number of recurrent key heads.
    pub groups: int,
    /// The number of vocabulary entries.
    pub vocabulary: int,
    /// The number of stored blocks.
    pub blocks: int,
    /// The number of stored blocks behind the main ones.
    pub nextn: int,
    /// Every how many main blocks one uses full attention.
    pub interval: int,
}

/// The count stored under a key.
pub open spec fn count(metadata: Map<Seq<char>, MetaValue>, key: &'static str) -> int {
    metadata[key@]->U32_0 as int
}

/// The numbers that metadata stores.
pub open spec fn widths(metadata: Map<Seq<char>, MetaValue>) -> Widths {
    Widths {
        hidden: count(metadata, "qwen35.embedding_length"),
        forward: count(metadata, "qwen35.feed_forward_length"),
        heads: count(metadata, "qwen35.attention.head_count"),
        kv_heads: count(metadata, "qwen35.attention.head_count_kv"),
        key: count(metadata, "qwen35.attention.key_length"),
        value: count(metadata, "qwen35.attention.value_length"),
        kernel: count(metadata, "qwen35.ssm.conv_kernel"),
        inner: count(metadata, "qwen35.ssm.inner_size"),
        state: count(metadata, "qwen35.ssm.state_size"),
        rank: count(metadata, "qwen35.ssm.time_step_rank"),
        groups: count(metadata, "qwen35.ssm.group_count"),
        vocabulary: metadata["tokenizer.ggml.tokens"@]->Array_0.values@.len() as int,
        blocks: count(metadata, "qwen35.block_count"),
        nextn: count(metadata, "qwen35.nextn_predict_layers"),
        interval: count(metadata, "qwen35.full_attention_interval"),
    }
}

/// Whether dimensions are made of these numbers.
pub open spec fn made_of(d: Dimensions, w: Widths) -> bool {
    &&& d.hidden == w.hidden && d.feed_forward == w.forward && d.heads == w.heads
    &&& d.key_value_heads == w.kv_heads && d.key_width == w.key && d.value_width == w.value
    &&& d.conv_kernel == w.kernel && d.inner == w.inner && d.state == w.state
    &&& d.time_step_rank == w.rank && d.group_count == w.groups && d.vocabulary == w.vocabulary
    &&& d.stored_block_count == w.blocks && d.main_block_count == w.blocks - w.nextn
    &&& d.nextn_block_count == w.nextn && d.full_attention_interval == w.interval
}

/// Whether a tensor has a shape, its first dimension being that of the rows that it is
/// applied to.
pub open spec fn shaped(tensor: TensorDescriptor, dims: Seq<int>) -> bool {
    &&& tensor.dims@.len() == dims.len()
    &&& forall|d: int| 0 <= d < dims.len() ==> tensor.dims@[d] as int == #[trigger] dims[d]
}

/// Whether a tensor of a name is stored, and only with a shape.
pub open spec fn stored_as(
    tensors: Seq<TensorDescriptor>,
    name: Seq<char>,
    dims: Seq<int>,
) -> bool {
    &&& exists|i: int| 0 <= i < tensors.len() && (#[trigger] tensors[i]).name@ == name
    &&& forall|i: int|
        0 <= i < tensors.len() && (#[trigger] tensors[i]).name@ == name ==> shaped(tensors[i], dims)
}

/// Whether a block is a main block with full attention.
pub open spec fn attends_fully(w: Widths, block: int) -> bool {
    block < w.blocks - w.nextn && (block + 1) % w.interval == 0
}

/// Whether a block is a main block without full attention.
pub open spec fn recurs(w: Widths, block: int) -> bool {
    block < w.blocks - w.nextn && (block + 1) % w.interval != 0
}

/// Whether the tensors that every block has are stored with their shapes.
pub open spec fn common_stored(tensors: Seq<TensorDescriptor>, w: Widths, block: nat) -> bool {
    let prefix = "blk."@ + text::decimal(block) + "."@;
    &&& stored_as(tensors, prefix + "attn_norm.weight"@, seq![w.hidden])
    &&& stored_as(tensors, prefix + "ffn_down.weight"@, seq![w.forward, w.hidden])
    &&& stored_as(tensors, prefix + "ffn_gate.weight"@, seq![w.hidden, w.forward])
    &&& stored_as(tensors, prefix + "ffn_up.weight"@, seq![w.hidden, w.forward])
    &&& stored_as(tensors, prefix + "post_attention_norm.weight"@, seq![w.hidden])
}

/// Whether the tensors of full attention are stored for a block with their shapes.
pub open spec fn attention_stored(tensors: Seq<TensorDescriptor>, w: Widths, block: nat) -> bool {
    let prefix = "blk."@ + text::decimal(block) + "."@;
    &&& stored_as(tensors, prefix + "attn_k.weight"@, seq![w.hidden, w.kv_heads * w.key])
    &&& stored_as(tensors, prefix + "attn_k_norm.weight"@, seq![w.key])
    &&& stored_as(tensors, prefix + "attn_output.weight"@, seq![w.heads * w.key, w.hidden])
    &&& stored_as(tensors, prefix + "attn_q.weight"@, seq![w.hidden, 2 * (w.heads * w.key)])
    &&& stored_as(tensors, prefix + "attn_q_norm.weight"@, seq![w.key])
    &&& stored_as(tensors, prefix + "attn_v.weight"@, seq![w.hidden, w.kv_heads * w.value])
}

/// Whether the tensors of recurrence are stored for a block with their shapes.
pub open spec fn recurrent_stored(tensors: Seq<TensorDescriptor>, w: Widths, block: nat) -> bool {
    let prefix = "blk."@ + text::decimal(block) + "."@;
    &&& stored_as(tensors, prefix + "attn_gate.weight"@, seq![w.hidden, w.inner])
    &&& stored_as(tensors, prefix + "attn_qkv.weight"@, seq![w.hidden, 2 * (w.state * w.groups)
        + w.inner])
    &&& stored_as(tensors, prefix + "ssm_a"@, seq![w.rank])
    &&& stored_as(tensors, prefix + "ssm_alpha.weight"@, seq![w.hidden, w.rank])
    &&& stored_as(tensors, prefix + "ssm_beta.weight"@, seq![w.hidden, w.rank])
    &&& stored_as(tensors, prefix + "ssm_conv1d.weight"@, seq![w.kernel, 2 * (w.state * w.groups)
        + w.inner])
    &&& stored_as(tensors, prefix + "ssm_dt.bias"@, seq![w.rank])
    &&& stored_as(tensors, prefix + "ssm_norm.weight"@, seq![w.inner / w.rank])
    &&& stored_as(tensors, prefix + "ssm_out.weight"@, seq![w.inner, w.hidden])
}

/// Whether the tensors of a block behind the main ones are stored with their shapes.
pub open spec fn nextn_stored(tensors: Seq<TensorDescriptor>, w: Widths, block: nat) -> bool {
    let prefix = "blk."@ + text::decimal(block) + "."@;
    &&& stored_as(tensors, prefix + "nextn.eh_proj.weight"@, seq![2 * w.hidden, w.hidden])
    &&& stored_as(tensors, prefix + "nextn.enorm.weight"@, seq![w.hidden])
    &&& stored_as(tensors, prefix + "nextn.hnorm.weight"@, seq![w.hidden])
    &&& stored_as(tensors, prefix + "nextn.shared_head_norm.weight"@, seq![w.hidden])
}

/// Whether the tensors outside the blocks are stored with their shapes.
pub open spec fn outer_stored(tensors: Seq<TensorDescriptor>, w: Widths) -> bool {
    &&& stored_as(tensors, "token_embd.weight"@, seq![w.hidden, w.vocabulary])
    &&& stored_as(tensors, "output_norm.weight"@, seq![w.hidden])
    &&& stored_as(tensors, "output.weight"@, seq![w.hidden, w.vocabulary])
}

/// In every admitted artifact each stored matrix maps rows of the width that it is
/// applied to onto rows of the width that is wanted of it, in terms of the metadata:
/// the projection of a block behind the main ones takes an embedding and a hidden row
/// side by side, twice the embedding length, and gives one hidden row.
pub proof fn law_admitted_shapes(
    observed: &ObservedArtifact,
    profile: Qwen35StructuralProfile<'_>,
    block: nat,
)
    requires
        call_ensures(
            Qwen35StructuralProfile::try_from_observed,
            (observed,),
            Ok::<Qwen35StructuralProfile<'_>, Error>(profile),
        ),
        block < count(observed.metadata@, "qwen35.block_count"),
    ensures
        ({
            let w = widths(observed.metadata@);
            let tensors = observed.tensors@;
            &&& outer_stored(tensors, w)
            &&& common_stored(tensors, w, block)
            &&& attends_fully(w, block as int) ==> attention_stored(tensors, w, block)
            &&& recurs(w, block as int) ==> recurrent_stored(tensors, w, block)
            &&& block >= w.blocks - w.nextn ==> attention_stored(tensors, w, block) && nextn_stored(
                tensors,
                w,
                block,
            )
        }),
{
    let w = widths(observed.metadata@);
    let d = qwen35::dimensions_of(observed.metadata@);
    lemma_made_of(observed.metadata@);
    lemma_shapes(d, w, observed.tensors@, block as u64);
}

proof fn lemma_made_of(metadata: Map<Seq<char>, MetaValue>)
    requires
        qwen35::metadata_failure(metadata) is None,
    ensures
        made_of(qwen35::dimensions_of(metadata), widths(metadata)),
        qwen35::dimensions_of(metadata).full_attention_interval > 0,
        qwen35::dimensions_of(metadata).time_step_rank > 0,
{
    let tokens = metadata["tokenizer.ggml.tokens"@]->Array_0.values;
    assert(tokens.len() == tokens@.len());
}

proof fn lemma_slot_present(d: Dimensions, block: u64, r: int, blocks: int)
    requires
        block < blocks <= u64::MAX,
        0 <= r < d.block_roles(block as int).len(),
    ensures
        exists|k: int|
            0 <= k < qwen35_inventory::slots_upto(d, blocks).len()
                && #[trigger] qwen35_inventory::slots_upto(d, blocks)[k] == (
                Some(block),
                d.block_roles(block as int)[r],
            ),
    decreases blocks,
{
    let init = qwen35_inventory::slots_upto(d, blocks - 1);
    let all = qwen35_inventory::slots_upto(d, blocks);
    if block == blocks - 1 {
        assert(all[init.len() + r] == (Some(block), d.block_roles(block as int)[r]));
    } else {
        lemma_slot_present(d, block, r, blocks - 1);
        let k = choose|k: int|
            0 <= k < init.len() && #[trigger] init[k] == (
                Some(block),
                d.block_roles(block as int)[r],
            );
        assert(all[k] == init[k]);
    }
}

proof fn lemma_outer_present(d: Dimensions, r: int, blocks: int)
    requires
        0 <= blocks,
        0 <= r < 3,
    ensures
        3 <= qwen35_inventory::slots_upto(d, blocks).len(),
        qwen35_inventory::slots_upto(d, blocks)[r] == (
            None::<u64>,
            qwen35_inventory::global_roles()[r],
        ),
    decreases blocks,
{
    if blocks > 0 {
        lemma_outer_present(d, r, blocks - 1);
    }
}

/// Every tensor of a slot's name has the slot's shape, and one is stored.
proof fn lemma_slot_stored(
    d: Dimensions,
    tensors: Seq<TensorDescriptor>,
    k: int,
    dims: Seq<int>,
)
    requires
        qwen35_inventory::inventory_admitted(d, tensors),
        0 <= k < qwen35_inventory::slots(d).len(),
        qwen35_inventory::slots(d)[k].1.shape_spec(d) matches Ok(shape) ==> {
            &&& shape.len() == dims.len()
            &&& forall|j: int| 0 <= j < dims.len() ==> shape[j] as int == #[trigger] dims[j]
        },
    ensures
        stored_as(tensors, qwen35_inventory::slot_name(qwen35_inventory::slots(d)[k]), dims),
{
    let slot = qwen35_inventory::slots(d)[k];
    let name = qwen35_inventory::slot_name(slot);
    let listed = qwen35_inventory::rendered(d, qwen35_inventory::slots(d));
    qwen35_inventory::lemma_inventory_complete(d, tensors);
    let i = choose|i: int|
        {
            &&& 0 <= i < tensors.len()
            &&& (#[trigger] tensors[i]).name@ == qwen35_inventory::slot_name(
                qwen35_inventory::slots(d)[k],
            )
            &&& qwen35_inventory::slots(d)[k].1.shape_spec(d) == Ok::<Seq<u64>, Error>(
                tensors[i].dims@,
            )
        };
    assert(tensors[i].name@ == name);
    assert forall|j: int| 0 <= j < tensors.len() && (#[trigger] tensors[j]).name@
        == name implies shaped(tensors[j], dims) by {
        assert(qwen35_inventory::matches_entry(listed, tensors, j));
        assert(qwen35_inventory::matches_entry(listed, tensors, i));
        if j < i {
            assert(qwen35_inventory::repeats(tensors, i));
        }
        if i < j {
            assert(qwen35_inventory::repeats(tensors, j));
        }
    }
}

/// The shape of a role of a block, and its tensor in an admitted inventory.
proof fn lemma_role_stored(
    d: Dimensions,
    tensors: Seq<TensorDescriptor>,
    block: u64,
    r: int,
    dims: Seq<int>,
)
    requires
        qwen35_inventory::inventory_admitted(d, tensors),
        block < d.main_block_count + d.nextn_block_count <= u64::MAX,
        0 <= r < d.block_roles(block as int).len(),
        d.block_roles(block as int)[r].shape_spec(d) matches Ok(shape) ==> {
            &&& shape.len() == dims.len()
            &&& forall|j: int| 0 <= j < dims.len() ==> shape[j] as int == #[trigger] dims[j]
        },
    ensures
        stored_as(
            tensors,
            text::block_name_spec(block as nat, d.block_roles(block as int)[r].role@),
            dims,
        ),
{
    let blocks = d.main_block_count + d.nextn_block_count;
    lemma_slot_present(d, block, r, blocks);
    let k = choose|k: int|
        0 <= k < qwen35_inventory::slots_upto(d, blocks).len()
            && #[trigger] qwen35_inventory::slots_upto(d, blocks)[k] == (
            Some(block),
            d.block_roles(block as int)[r],
        );
    assert(qwen35_inventory::slots(d)[k] == (Some(block), d.block_roles(block as int)[r]));
    lemma_slot_stored(d, tensors, k, dims);
}

proof fn lemma_shapes(d: Dimensions, w: Widths, tensors: Seq<TensorDescriptor>, block: u64)
    requires
        qwen35_inventory::inventory_admitted(d, tensors),
        made_of(d, w),
        block < w.blocks,
        w.interval > 0,
        w.rank > 0,
    ensures
        outer_stored(tensors, w),
        common_stored(tensors, w, block as nat),
        attends_fully(w, block as int) ==> attention_stored(tensors, w, block as nat),
        recurs(w, block as int) ==> recurrent_stored(tensors, w, block as nat),
        block >= w.blocks - w.nextn ==> attention_stored(tensors, w, block as nat) && nextn_stored(
            tensors,
            w,
            block as nat,
        ),
{
    let blocks = d.main_block_count + d.nextn_block_count;
    let roles = d.block_roles(block as int);
    assert(w.heads * w.key * 2 == 2 * (w.heads * w.key)) by (nonlinear_arith);
    assert(w.state * w.groups * 2 == 2 * (w.state * w.groups)) by (nonlinear_arith);
    assert(w.inner / w.rank == d.inner / d.time_step_rank);
    lemma_outer_present(d, 0, blocks);
    lemma_slot_stored(d, tensors, 0, seq![w.hidden, w.vocabulary]);
    lemma_outer_present(d, 1, blocks);
    lemma_slot_stored(d, tensors, 1, seq![w.hidden]);
    lemma_outer_present(d, 2, blocks);
    lemma_slot_stored(d, tensors, 2, seq![w.hidden, w.vocabulary]);
    assert(roles[0] == qwen35_inventory::common_block_roles()[0]);
    lemma_role_stored(d, tensors, block, 0, seq![w.hidden]);
    assert(roles[1] == qwen35_inventory::common_block_roles()[1]);
    lemma_role_stored(d, tensors, block, 1, seq![w.forward, w.hidden]);
    assert(roles[2] == qwen35_inventory::common_block_roles()[2]);
    lemma_role_stored(d, tensors, block, 2, seq![w.hidden, w.forward]);
    assert(roles[3] == qwen35_inventory::common_block_roles()[3]);
    lemma_role_stored(d, tensors, block, 3, seq![w.hidden, w.forward]);
    assert(roles[4] == qwen35_inventory::common_block_roles()[4]);
    lemma_role_stored(d, tensors, block, 4, seq![w.hidden]);
    if attends_fully(w, block as int) || block >= w.blocks - w.nextn {
        assert(roles[5] == qwen35_inventory::full_attention_roles()[0]);
        lemma_role_stored(d, tensors, block, 5, seq![w.hidden, w.kv_heads * w.key]);
        assert(roles[6] == qwen35_inventory::full_attention_roles()[1]);
        lemma_role_stored(d, tensors, block, 6, seq![w.key]);
        assert(roles[7] == qwen35_inventory::full_attention_roles()[2]);
        lemma_role_stored(d, tensors, block, 7, seq![w.heads * w.key, w.hidden]);
        assert(roles[8] == qwen35_inventory::full_attention_roles()[3]);
        lemma_role_stored(d, tensors, block, 8, seq![w.hidden, 2 * (w.heads * w.key)]);
        assert(roles[9] == qwen35_inventory::full_attention_roles()[4]);
        lemma_role_stored(d, tensors, block, 9, seq![w.key]);
        assert(roles[10] == qwen35_inventory::full_attention_roles()[5]);
        lemma_role_stored(d, tensors, block, 10, seq![w.hidden, w.kv_heads * w.value]);
    }
    if recurs(w, block as int) {
        assert(roles[5] == qwen35_inventory::recurrent_roles()[0]);
        lemma_role_stored(d, tensors, block, 5, seq![w.hidden, w.inner]);
        assert(roles[6] == qwen35_inventory::recurrent_roles()[1]);
        lemma_role_stored(d, tensors, block, 6, seq![w.hidden, 2 * (w.state * w.groups) + w.inner]);
        assert(roles[7] == qwen35_inventory::recurrent_roles()[2]);
        lemma_role_stored(d, tensors, block, 7, seq![w.rank]);
        assert(roles[8] == qwen35_inventory::recurrent_roles()[3]);
        lemma_role_stored(d, tensors, block, 8, seq![w.hidden, w.rank]);
        assert(roles[9] == qwen35_inventory::recurrent_roles()[4]);
        lemma_role_stored(d, tensors, block, 9, seq![w.hidden, w.rank]);
        assert(roles[10] == qwen35_inventory::recurrent_roles()[5]);
        lemma_role_stored(d, tensors, block, 10, seq![w.kernel, 2 * (w.state * w.groups)
            + w.inner]);
        assert(roles[11] == qwen35_inventory::recurrent_roles()[6]);
        lemma_role_stored(d, tensors, block, 11, seq![w.rank]);
        assert(roles[12] == qwen35_inventory::recurrent_roles()[7]);
        lemma_role_stored(d, tensors, block, 12, seq![w.inner / w.rank]);
        assert(roles[13] == qwen35_inventory::recurrent_roles()[8]);
        lemma_role_stored(d, tensors, block, 13, seq![w.inner, w.hidden]);
    }
    if block >= w.blocks - w.nextn {
        assert(roles[11] == qwen35_inventory::nextn_extension_roles()[0]);
        lemma_role_stored(d, tensors, block, 11, seq![2 * w.hidden, w.hidden]);
        assert(roles[12] == qwen35_inventory::nextn_extension_roles()[1]);
        lemma_role_stored(d, tensors, block, 12, seq![w.hidden]);
        assert(roles[13] == qwen35_inventory::nextn_extension_roles()[2]);
        lemma_role_stored(d, tensors, block, 13, seq![w.hidden]);
        assert(roles[14] == qwen35_inventory::nextn_extension_roles()[3]);
        lemma_role_stored(d, tensors, block, 14, seq![w.hidden]);
    }
}

/// Whether a tensor is one that every block has, with its shape.
pub open spec fn is_common_tensor(tensor: TensorDescriptor, w: Widths, block: nat) -> bool {
    let prefix = "blk."@ + text::decimal(block) + "."@;
    ||| tensor.name@ == prefix + "attn_norm.weight"@ && shaped(tensor, seq![w.hidden])
    ||| tensor.name@ == prefix + "ffn_down.weight"@ && shaped(tensor, seq![w.forward, w.hidden])
    ||| tensor.name@ == prefix + "ffn_gate.weight"@ && shaped(tensor, seq![w.hidden, w.forward])
    ||| tensor.name@ == prefix + "ffn_up.weight"@ && shaped(tensor, seq![w.hidden, w.forward])
    ||| tensor.name@ == prefix + "post_attention_norm.weight"@ && shaped(tensor, seq![w.hidden])
}

/// Whether a tensor is one of full attention, with its shape.
pub open spec fn is_attention_tensor(tensor: TensorDescriptor, w: Widths, block: nat) -> bool {
    let prefix = "blk."@ + text::decimal(block) + "."@;
    ||| tensor.name@ == prefix + "attn_k.weight"@
        && shaped(tensor, seq![w.hidden, w.kv_heads * w.key])
    ||| tensor.name@ == prefix + "attn_k_norm.weight"@ && shaped(tensor, seq![w.key])
    ||| tensor.name@ == prefix + "attn_output.weight"@
        && shaped(tensor, seq![w.heads * w.key, w.hidden])
    ||| tensor.name@ == prefix + "attn_q.weight"@
        && shaped(tensor, seq![w.hidden, 2 * (w.heads * w.key)])
    ||| tensor.name@ == prefix + "attn_q_norm.weight"@ && shaped(tensor, seq![w.key])
    ||| tensor.name@ == prefix + "attn_v.weight"@
        && shaped(tensor, seq![w.hidden, w.kv_heads * w.value])
}

/// Whether a tensor is one of recurrence, with its shape.
pub open spec fn is_recurrent_tensor(tensor: TensorDescriptor, w: Widths, block: nat) -> bool {
    let prefix = "blk."@ + text::decimal(block) + "."@;
    ||| tensor.name@ == prefix + "attn_gate.weight"@ && shaped(tensor, seq![w.hidden, w.inner])
    ||| tensor.name@ == prefix + "attn_qkv.weight"@
        && shaped(tensor, seq![w.hidden, 2 * (w.state * w.groups) + w.inner])
    ||| tensor.name@ == prefix + "ssm_a"@ && shaped(tensor, seq![w.rank])
    ||| tensor.name@ == prefix + "ssm_alpha.weight"@ && shaped(tensor, seq![w.hidden, w.rank])
    ||| tensor.name@ == prefix + "ssm_beta.weight"@ && shaped(tensor, seq![w.hidden, w.rank])
    ||| tensor.name@ == prefix + "ssm_conv1d.weight"@
        && shaped(tensor, seq![w.kernel, 2 * (w.state * w.groups) + w.inner])
    ||| tensor.name@ == prefix + "ssm_dt.bias"@ && shaped(tensor, seq![w.rank])
    ||| tensor.name@ == prefix + "ssm_norm.weight"@ && shaped(tensor, seq![w.inner / w.rank])
    ||| tensor.name@ == prefix + "ssm_out.weight"@ && shaped(tensor, seq![w.inner, w.hidden])
}

/// Whether a tensor is one of a block behind the main ones, with its shape.
pub open spec fn is_nextn_tensor(tensor: TensorDescriptor, w: Widths, block: nat) -> bool {
    let prefix = "blk."@ + text::decimal(block) + "."@;
    ||| tensor.name@ == prefix + "nextn.eh_proj.weight"@
        && shaped(tensor, seq![2 * w.hidden, w.hidden])
    ||| tensor.name@ == prefix + "nextn.enorm.weight"@ && shaped(tensor, seq![w.hidden])
    ||| tensor.name@ == prefix + "nextn.hnorm.weight"@ && shaped(tensor, seq![w.hidden])
    ||| tensor.name@ == prefix + "nextn.shared_head_norm.weight"@ && shaped(tensor, seq![w.hidden])
}

/// Whether a tensor is one outside the blocks, with its shape.
pub open spec fn is_outer_tensor(tensor: TensorDescriptor, w: Widths) -> bool {
    ||| tensor.name@ == "token_embd.weight"@ && shaped(tensor, seq![w.hidden, w.vocabulary])
    ||| tensor.name@ == "output_norm.weight"@ && shaped(tensor, seq![w.hidden])
    ||| tensor.name@ == "output.weight"@ && shaped(tensor, seq![w.hidden, w.vocabulary])
}

/// Whether a tensor is one that a block has, with its shape.
pub open spec fn is_block_tensor(tensor: TensorDescriptor, w: Widths, block: nat) -> bool {
    ||| is_common_tensor(tensor, w, block)
    ||| is_attention_tensor(tensor, w, block) && (attends_fully(w, block as int) || block
        >= w.blocks - w.nextn)
    ||| is_recurrent_tensor(tensor, w, block) && recurs(w, block as int)
    ||| is_nextn_tensor(tensor, w, block) && block >= w.blocks - w.nextn
}

/// Whether the tensors of an artifact are exactly those that its numbers call for: as
/// many, none twice, and each one of them with its shape.
pub open spec fn complete(tensors: Seq<TensorDescriptor>, w: Widths) -> bool {
    let main = w.blocks - w.nextn;
    let full = main / w.interval;
    &&& tensors.len() == 3 + 11 * full + 14 * (main - full) + 15 * w.nextn
    &&& forall|i: int, j: int|
        #![trigger tensors[i], tensors[j]]
        0 <= i < j < tensors.len() ==> tensors[i].name@ != tensors[j].name@
    &&& forall|i: int|
        0 <= i < tensors.len() ==> is_outer_tensor(#[trigger] tensors[i], w)
            || exists|block: nat| block < w.blocks
                && #[trigger] is_block_tensor(tensors[i], w, block)
}

proof fn lemma_dims(tensor: TensorDescriptor, shape: Seq<u64>, dims: Seq<int>)
    requires
        shaped(tensor, dims),
        shape.len() == dims.len(),
        forall|j: int| 0 <= j < dims.len() ==> shape[j] as int == #[trigger] dims[j],
    ensures
        tensor.dims@ == shape,
{
    assert forall|j: int| 0 <= j < shape.len() implies tensor.dims@[j] == shape[j] by {
        assert(tensor.dims@[j] as int == dims[j]);
    }
    assert(tensor.dims@ =~= shape);
}

/// Whether the widths of the projections can be represented.
pub open spec fn no_overflow(w: Widths) -> bool {
    &&& 2 * (w.heads * w.key) <= u64::MAX
    &&& w.kv_heads * w.key <= u64::MAX
    &&& w.kv_heads * w.value <= u64::MAX
    &&& 2 * (w.state * w.groups) + w.inner <= u64::MAX
    &&& 2 * w.hidden <= u64::MAX
}

proof fn lemma_no_overflow(d: Dimensions, w: Widths)
    requires
        made_of(d, w),
        no_overflow(w),
        w.rank > 0,
    ensures
        d.full_attention_shapes_spec() is Ok,
        d.full_attention_shapes_spec()->Ok_0.query == 2 * (w.heads * w.key),
        d.full_attention_shapes_spec()->Ok_0.output == w.heads * w.key,
        d.full_attention_shapes_spec()->Ok_0.key == w.kv_heads * w.key,
        d.full_attention_shapes_spec()->Ok_0.value == w.kv_heads * w.value,
        d.recurrent_shapes_spec() is Ok,
        d.recurrent_shapes_spec()->Ok_0.conv_width == 2 * (w.state * w.groups) + w.inner,
        d.recurrent_shapes_spec()->Ok_0.head_width == w.inner / w.rank,
{
    assert(w.heads * w.key * 2 == 2 * (w.heads * w.key)) by (nonlinear_arith);
    assert(w.state * w.groups * 2 == 2 * (w.state * w.groups)) by (nonlinear_arith);
    assert(0 <= w.heads * w.key) by (nonlinear_arith)
        requires
            0 <= w.heads,
            0 <= w.key,
    ;
    assert(0 <= w.state * w.groups) by (nonlinear_arith)
        requires
            0 <= w.state,
            0 <= w.groups,
    ;
}

proof fn lemma_outer_role(d: Dimensions, w: Widths, tensor: TensorDescriptor) -> (r: int)
    requires
        made_of(d, w),
        no_overflow(w),
        w.rank > 0,
        is_outer_tensor(tensor, w),
    ensures
        0 <= r < 3,
        tensor.name@ == qwen35_inventory::global_roles()[r].role@,
        qwen35_inventory::global_roles()[r].shape_spec(d) == Ok::<Seq<u64>, Error>(tensor.dims@),
{
    let roles = qwen35_inventory::global_roles();
    lemma_no_overflow(d, w);
    if tensor.name@ == "token_embd.weight"@ && shaped(tensor, seq![w.hidden, w.vocabulary]) {
        let dims = seq![w.hidden, w.vocabulary];
        assert(roles[0] == qwen35_inventory::global_roles()[0]);
        lemma_dims(tensor, roles[0].shape_spec(d)->Ok_0, dims);
        0
    } else if tensor.name@ == "output_norm.weight"@ && shaped(tensor, seq![w.hidden]) {
        let dims = seq![w.hidden];
        assert(roles[1] == qwen35_inventory::global_roles()[1]);
        lemma_dims(tensor, roles[1].shape_spec(d)->Ok_0, dims);
        1
    } else {
        let dims = seq![w.hidden, w.vocabulary];
        assert(roles[2] == qwen35_inventory::global_roles()[2]);
        lemma_dims(tensor, roles[2].shape_spec(d)->Ok_0, dims);
        2
    }
}

proof fn lemma_common_role(d: Dimensions, w: Widths, tensor: TensorDescriptor, block: u64) -> (r: int)
    requires
        made_of(d, w),
        no_overflow(w),
        w.rank > 0,
        is_common_tensor(tensor, w, block as nat),
    ensures
        0 <= r < d.block_roles(block as int).len(),
        tensor.name@ == text::block_name_spec(block as nat, d.block_roles(block as int)[r].role@),
        d.block_roles(block as int)[r].shape_spec(d) == Ok::<Seq<u64>, Error>(tensor.dims@),
{
    let prefix = "blk."@ + text::decimal(block as nat) + "."@;
    let roles = d.block_roles(block as int);
    lemma_no_overflow(d, w);
    if tensor.name@ == prefix + "attn_norm.weight"@ && shaped(tensor, seq![w.hidden]) {
        let dims = seq![w.hidden];
        assert(roles[0] == qwen35_inventory::common_block_roles()[0]);
        lemma_dims(tensor, roles[0].shape_spec(d)->Ok_0, dims);
        0
    } else if tensor.name@ == prefix + "ffn_down.weight"@
        && shaped(tensor, seq![w.forward, w.hidden]) {
        let dims = seq![w.forward, w.hidden];
        assert(roles[1] == qwen35_inventory::common_block_roles()[1]);
        lemma_dims(tensor, roles[1].shape_spec(d)->Ok_0, dims);
        1
    } else if tensor.name@ == prefix + "ffn_gate.weight"@
        && shaped(tensor, seq![w.hidden, w.forward]) {
        let dims = seq![w.hidden, w.forward];
        assert(roles[2] == qwen35_inventory::common_block_roles()[2]);
        lemma_dims(tensor, roles[2].shape_spec(d)->Ok_0, dims);
        2
    } else if tensor.name@ == prefix + "ffn_up.weight"@
        && shaped(tensor, seq![w.hidden, w.forward]) {
        let dims = seq![w.hidden, w.forward];
        assert(roles[3] == qwen35_inventory::common_block_roles()[3]);
        lemma_dims(tensor, roles[3].shape_spec(d)->Ok_0, dims);
        3
    } else {
        let dims = seq![w.hidden];
        assert(roles[4] == qwen35_inventory::common_block_roles()[4]);
        lemma_dims(tensor, roles[4].shape_spec(d)->Ok_0, dims);
        4
    }
}

proof fn lemma_attention_role(d: Dimensions, w: Widths, tensor: TensorDescriptor, block: u64) -> (r: int)
    requires
        made_of(d, w),
        no_overflow(w),
        w.rank > 0,
        is_attention_tensor(tensor, w, block as nat),
        attends_fully(w, block as int) || block >= w.blocks - w.nextn,
    ensures
        0 <= r < d.block_roles(block as int).len(),
        tensor.name@ == text::block_name_spec(block as nat, d.block_roles(block as int)[r].role@),
        d.block_roles(block as int)[r].shape_spec(d) == Ok::<Seq<u64>, Error>(tensor.dims@),
{
    let prefix = "blk."@ + text::decimal(block as nat) + "."@;
    let roles = d.block_roles(block as int);
    lemma_no_overflow(d, w);
    if tensor.name@ == prefix + "attn_k.weight"@
        && shaped(tensor, seq![w.hidden, w.kv_heads * w.key]) {
        let dims = seq![w.hidden, w.kv_heads * w.key];
        assert(roles[5] == qwen35_inventory::full_attention_roles()[0]);
        lemma_dims(tensor, roles[5].shape_spec(d)->Ok_0, dims);
        5
    } else if tensor.name@ == prefix + "attn_k_norm.weight"@ && shaped(tensor, seq![w.key]) {
        let dims = seq![w.key];
        assert(roles[6] == qwen35_inventory::full_attention_roles()[1]);
        lemma_dims(tensor, roles[6].shape_spec(d)->Ok_0, dims);
        6
    } else if tensor.name@ == prefix + "attn_output.weight"@
        && shaped(tensor, seq![w.heads * w.key, w.hidden]) {
        let dims = seq![w.heads * w.key, w.hidden];
        assert(roles[7] == qwen35_inventory::full_attention_roles()[2]);
        lemma_dims(tensor, roles[7].shape_spec(d)->Ok_0, dims);
        7
    } else if tensor.name@ == prefix + "attn_q.weight"@
        && shaped(tensor, seq![w.hidden, 2 * (w.heads * w.key)]) {
        let dims = seq![w.hidden, 2 * (w.heads * w.key)];
        assert(roles[8] == qwen35_inventory::full_attention_roles()[3]);
        lemma_dims(tensor, roles[8].shape_spec(d)->Ok_0, dims);
        8
    } else if tensor.name@ == prefix + "attn_q_norm.weight"@ && shaped(tensor, seq![w.key]) {
        let dims = seq![w.key];
        assert(roles[9] == qwen35_inventory::full_attention_roles()[4]);
        lemma_dims(tensor, roles[9].shape_spec(d)->Ok_0, dims);
        9
    } else {
        let dims = seq![w.hidden, w.kv_heads * w.value];
        assert(roles[10] == qwen35_inventory::full_attention_roles()[5]);
        lemma_dims(tensor, roles[10].shape_spec(d)->Ok_0, dims);
        10
    }
}

proof fn lemma_recurrent_role(d: Dimensions, w: Widths, tensor: TensorDescriptor, block: u64) -> (r: int)
    requires
        made_of(d, w),
        no_overflow(w),
        w.rank > 0,
        is_recurrent_tensor(tensor, w, block as nat),
        recurs(w, block as int),
    ensures
        0 <= r < d.block_roles(block as int).len(),
        tensor.name@ == text::block_name_spec(block as nat, d.block_roles(block as int)[r].role@),
        d.block_roles(block as int)[r].shape_spec(d) == Ok::<Seq<u64>, Error>(tensor.dims@),
{
    let prefix = "blk."@ + text::decimal(block as nat) + "."@;
    let roles = d.block_roles(block as int);
    lemma_no_overflow(d, w);
    if tensor.name@ == prefix + "attn_gate.weight"@ && shaped(tensor, seq![w.hidden, w.inner]) {
        let dims = seq![w.hidden, w.inner];
        assert(roles[5] == qwen35_inventory::recurrent_roles()[0]);
        lemma_dims(tensor, roles[5].shape_spec(d)->Ok_0, dims);
        5
    } else if tensor.name@ == prefix + "attn_qkv.weight"@
        && shaped(tensor, seq![w.hidden, 2 * (w.state * w.groups) + w.inner]) {
        let dims = seq![w.hidden, 2 * (w.state * w.groups) + w.inner];
        assert(roles[6] == qwen35_inventory::recurrent_roles()[1]);
        lemma_dims(tensor, roles[6].shape_spec(d)->Ok_0, dims);
        6
    } else if tensor.name@ == prefix + "ssm_a"@ && shaped(tensor, seq![w.rank]) {
        let dims = seq![w.rank];
        assert(roles[7] == qwen35_inventory::recurrent_roles()[2]);
        lemma_dims(tensor, roles[7].shape_spec(d)->Ok_0, dims);
        7
    } else if tensor.name@ == prefix + "ssm_alpha.weight"@
        && shaped(tensor, seq![w.hidden, w.rank]) {
        let dims = seq![w.hidden, w.rank];
        assert(roles[8] == qwen35_inventory::recurrent_roles()[3]);
        lemma_dims(tensor, roles[8].shape_spec(d)->Ok_0, dims);
        8
    } else if tensor.name@ == prefix + "ssm_beta.weight"@
        && shaped(tensor, seq![w.hidden, w.rank]) {
        let dims = seq![w.hidden, w.rank];
        assert(roles[9] == qwen35_inventory::recurrent_roles()[4]);
        lemma_dims(tensor, roles[9].shape_spec(d)->Ok_0, dims);
        9
    } else if tensor.name@ == prefix + "ssm_conv1d.weight"@
        && shaped(tensor, seq![w.kernel, 2 * (w.state * w.groups) + w.inner]) {
        let dims = seq![w.kernel, 2 * (w.state * w.groups) + w.inner];
        assert(roles[10] == qwen35_inventory::recurrent_roles()[5]);
        lemma_dims(tensor, roles[10].shape_spec(d)->Ok_0, dims);
        10
    } else if tensor.name@ == prefix + "ssm_dt.bias"@ && shaped(tensor, seq![w.rank]) {
        let dims = seq![w.rank];
        assert(roles[11] == qwen35_inventory::recurrent_roles()[6]);
        lemma_dims(tensor, roles[11].shape_spec(d)->Ok_0, dims);
        11
    } else if tensor.name@ == prefix + "ssm_norm.weight"@
        && shaped(tensor, seq![w.inner / w.rank]) {
        let dims = seq![w.inner / w.rank];
        assert(roles[12] == qwen35_inventory::recurrent_roles()[7]);
        lemma_dims(tensor, roles[12].shape_spec(d)->Ok_0, dims);
        12
    } else {
        let dims = seq![w.inner, w.hidden];
        assert(roles[13] == qwen35_inventory::recurrent_roles()[8]);
        lemma_dims(tensor, roles[13].shape_spec(d)->Ok_0, dims);
        13
    }
}

proof fn lemma_nextn_role(d: Dimensions, w: Widths, tensor: TensorDescriptor, block: u64) -> (r: int)
    requires
        made_of(d, w),
        no_overflow(w),
        w.rank > 0,
        is_nextn_tensor(tensor, w, block as nat),
        block >= w.blocks - w.nextn,
    ensures
        0 <= r < d.block_roles(block as int).len(),
        tensor.name@ == text::block_name_spec(block as nat, d.block_roles(block as int)[r].role@),
        d.block_roles(block as int)[r].shape_spec(d) == Ok::<Seq<u64>, Error>(tensor.dims@),
{
    let prefix = "blk."@ + text::decimal(block as nat) + "."@;
    let roles = d.block_roles(block as int);
    lemma_no_overflow(d, w);
    if tensor.name@ == prefix + "nextn.eh_proj.weight"@
        && shaped(tensor, seq![2 * w.hidden, w.hidden]) {
        let dims = seq![2 * w.hidden, w.hidden];
        assert(roles[11] == qwen35_inventory::nextn_extension_roles()[0]);
        lemma_dims(tensor, roles[11].shape_spec(d)->Ok_0, dims);
        11
    } else if tensor.name@ == prefix + "nextn.enorm.weight"@ && shaped(tensor, seq![w.hidden]) {
        let dims = seq![w.hidden];
        assert(roles[12] == qwen35_inventory::nextn_extension_roles()[1]);
        lemma_dims(tensor, roles[12].shape_spec(d)->Ok_0, dims);
        12
    } else if tensor.name@ == prefix + "nextn.hnorm.weight"@ && shaped(tensor, seq![w.hidden]) {
        let dims = seq![w.hidden];
        assert(roles[13] == qwen35_inventory::nextn_extension_roles()[2]);
        lemma_dims(tensor, roles[13].shape_spec(d)->Ok_0, dims);
        13
    } else {
        let dims = seq![w.hidden];
        assert(roles[14] == qwen35_inventory::nextn_extension_roles()[3]);
        lemma_dims(tensor, roles[14].shape_spec(d)->Ok_0, dims);
        14
    }
}

proof fn lemma_listed(d: Dimensions, tensor: TensorDescriptor, k: int)
    requires
        qwen35_inventory::shape_failure(d, qwen35_inventory::slots(d)) is None,
        0 <= k < qwen35_inventory::slots(d).len(),
        tensor.name@ == qwen35_inventory::slot_name(qwen35_inventory::slots(d)[k]),
        qwen35_inventory::slots(d)[k].1.shape_spec(d) == Ok::<Seq<u64>, Error>(tensor.dims@),
    ensures
        qwen35_inventory::rendered(d, qwen35_inventory::slots(d)).contains(
            (tensor.name@, tensor.dims@),
        ),
{
    let listed = qwen35_inventory::rendered(d, qwen35_inventory::slots(d));
    qwen35_inventory::lemma_rendered_slots(d, qwen35_inventory::slots(d));
    assert(listed[k] == (tensor.name@, tensor.dims@));
}

proof fn lemma_shapes_derive(d: Dimensions, w: Widths, slots: Seq<Slot>)
    requires
        made_of(d, w),
        no_overflow(w),
        w.rank > 0,
    ensures
        qwen35_inventory::shape_failure(d, slots) is None,
    decreases slots.len(),
{
    if slots.len() > 0 {
        lemma_shapes_derive(d, w, slots.drop_last());
        lemma_no_overflow(d, w);
    }
}

proof fn lemma_block_tensor_listed(
    d: Dimensions,
    w: Widths,
    tensor: TensorDescriptor,
    block: u64,
)
    requires
        made_of(d, w),
        no_overflow(w),
        w.rank > 0,
        is_block_tensor(tensor, w, block as nat),
        block < w.blocks,
        d.main_block_count + d.nextn_block_count <= u64::MAX,
    ensures
        qwen35_inventory::rendered(d, qwen35_inventory::slots(d)).contains(
            (tensor.name@, tensor.dims@),
        ),
{
    let r: int = if is_common_tensor(tensor, w, block as nat) {
        lemma_common_role(d, w, tensor, block)
    } else if is_attention_tensor(tensor, w, block as nat) && (attends_fully(w, block as int)
        || block >= w.blocks - w.nextn) {
        lemma_attention_role(d, w, tensor, block)
    } else if is_recurrent_tensor(tensor, w, block as nat) && recurs(w, block as int) {
        lemma_recurrent_role(d, w, tensor, block)
    } else {
        lemma_nextn_role(d, w, tensor, block)
    };
    let blocks = d.main_block_count + d.nextn_block_count;
    lemma_slot_present(d, block, r, blocks);
    let k = choose|k: int|
        0 <= k < qwen35_inventory::slots_upto(d, blocks).len()
            && #[trigger] qwen35_inventory::slots_upto(d, blocks)[k] == (
            Some(block),
            d.block_roles(block as int)[r],
        );
    assert(qwen35_inventory::slots(d)[k] == (Some(block), d.block_roles(block as int)[r]));
    lemma_shapes_derive(d, w, qwen35_inventory::slots(d));
    lemma_listed(d, tensor, k);
}

proof fn lemma_complete_is_admitted(d: Dimensions, w: Widths, tensors: Seq<TensorDescriptor>)
    requires
        made_of(d, w),
        no_overflow(w),
        w.rank > 0,
        w.interval > 0,
        w.blocks <= u32::MAX,
        tensors.len() <= usize::MAX,
        complete(tensors, w),
    ensures
        qwen35_inventory::inventory_admitted(d, tensors),
{
    let slots = qwen35_inventory::slots(d);
    let listed = qwen35_inventory::rendered(d, slots);
    let main = w.blocks - w.nextn;
    assert(0 <= main / w.interval <= main) by (nonlinear_arith)
        requires
            main >= 0,
            w.interval > 0,
    ;
    assert(d.expected_count() is Ok);
    qwen35_inventory::lemma_inventory_count(d);
    lemma_shapes_derive(d, w, slots);
    let blocks = d.main_block_count + d.nextn_block_count;
    assert forall|i: int| 0 <= i < tensors.len() implies #[trigger] qwen35_inventory::matches_entry(
        listed,
        tensors,
        i,
    ) by {
        if qwen35_inventory::repeats(tensors, i) {
            let j = choose|j: int| 0 <= j < i && (#[trigger] tensors[j]).name@ == tensors[i].name@;
            assert(tensors[j].name@ != tensors[i].name@);
        }
        if is_outer_tensor(tensors[i], w) {
            let r = lemma_outer_role(d, w, tensors[i]);
            lemma_outer_present(d, r, blocks);
            lemma_listed(d, tensors[i], r);
        } else {
            let block = choose|block: nat|
                block < w.blocks && #[trigger] is_block_tensor(tensors[i], w, block);
            lemma_block_tensor_listed(d, w, tensors[i], block as u64);
        }
    }
}

/// An artifact whose metadata is admitted, whose projections have representable widths,
/// and whose tensors are complete, with the shapes that the metadata gives, is admitted.
pub proof fn law_complete_artifact_is_admitted(
    observed: &ObservedArtifact,
    metadata: &Metadata,
    dimensions: Dimensions,
    profile: Result<Qwen35StructuralProfile<'_>, Error>,
)
    requires
        call_ensures(Qwen35StructuralProfile::try_from_observed, (observed,), profile),
        *metadata == observed.metadata,
        call_ensures(Dimensions::from_metadata, (metadata,), Ok::<Dimensions, Error>(dimensions)),
        no_overflow(widths(observed.metadata@)),
        complete(observed.tensors@, widths(observed.metadata@)),
    ensures
        profile is Ok,
{
    let w = widths(observed.metadata@);
    lemma_made_of(observed.metadata@);
    assert(observed.tensors.len() == observed.tensors@.len());
    lemma_complete_is_admitted(
        qwen35::dimensions_of(observed.metadata@),
        w,
        observed.tensors@,
    );
}

/// Whether a count is stored under a key.
pub open spec fn counted(metadata: Map<Seq<char>, MetaValue>, key: &'static str) -> bool {
    metadata.dom().contains(key@) && metadata[key@] is U32
}

/// Metadata is admitted exactly where it names the architecture, leaves the recurrent
/// layers to the interval, stores every count, has a main block and at most one block
/// behind the main ones, and its counts fit together.
pub proof fn law_metadata_admission(metadata: &Metadata, dimensions: Result<Dimensions, Error>)
    requires
        call_ensures(Dimensions::from_metadata, (metadata,), dimensions),
    ensures
        dimensions is Ok <==> {
            let stored = metadata@;
            let w = widths(stored);
            &&& stored.dom().contains("general.architecture"@)
            &&& stored["general.architecture"@] matches MetaValue::String(name)
                && name@ == "qwen35"@
            &&& !stored.dom().contains("qwen35.attention.recurrent_layers"@)
            &&& counted(stored, "qwen35.block_count")
            &&& counted(stored, "qwen35.nextn_predict_layers")
            &&& counted(stored, "qwen35.full_attention_interval")
            &&& counted(stored, "qwen35.embedding_length")
            &&& counted(stored, "qwen35.feed_forward_length")
            &&& counted(stored, "qwen35.attention.head_count")
            &&& counted(stored, "qwen35.attention.head_count_kv")
            &&& counted(stored, "qwen35.attention.key_length")
            &&& counted(stored, "qwen35.attention.value_length")
            &&& counted(stored, "qwen35.ssm.conv_kernel")
            &&& counted(stored, "qwen35.ssm.inner_size")
            &&& counted(stored, "qwen35.ssm.state_size")
            &&& counted(stored, "qwen35.ssm.time_step_rank")
            &&& counted(stored, "qwen35.ssm.group_count")
            &&& stored.dom().contains("tokenizer.ggml.tokens"@)
            &&& stored["tokenizer.ggml.tokens"@] matches MetaValue::Array(tokens)
            &&& tokens.element_type == MetaValueType::String
            &&& forall|i: int|
                0 <= i < tokens.values@.len() ==> #[trigger] tokens.values@[i] is String
            &&& w.nextn <= 1 && w.nextn < w.blocks && w.interval > 0
            &&& w.hidden > 0 && w.forward > 0 && w.vocabulary > 0
            &&& 0 < w.kv_heads <= w.heads && w.heads % w.kv_heads == 0
            &&& w.key > 0 && w.value == w.key
            &&& w.kernel > 0 && w.inner > 0 && w.rank > 0 && w.groups > 0
            &&& w.rank * w.state == w.inner
            &&& w.rank % w.groups == 0
        },
{
    let stored = metadata@;
    let w = widths(stored);
    let d = qwen35::dimensions_of(stored);
    let tokens = stored["tokenizer.ggml.tokens"@]->Array_0.values;
    assert(tokens.len() == tokens@.len());
    assert forall|i: int| 0 <= i < tokens@.len() implies (#[trigger] tokens@[i]).spec_value_type()
        == MetaValueType::String <==> tokens@[i] is String by {}
    if w.rank > 0 {
        vstd::arithmetic::div_mod::lemma_fundamental_div_mod(w.inner, w.rank);
        if w.rank * w.state == w.inner {
            vstd::arithmetic::div_mod::lemma_fundamental_div_mod_converse(
                w.inner,
                w.rank,
                w.state,
                0,
            );
            assert(w.state > 0 || w.inner <= 0) by (nonlinear_arith)
                requires
                    w.rank * w.state == w.inner,
                    w.rank > 0,
            ;
        }
    }
    assert(qwen35::block_structure_failure(stored) is None ==> qwen35::u32_value(
        stored,
        qwen35::BLOCK_COUNT_KEY,
    ) > qwen35::u32_value(stored, qwen35::NEXTN_PREDICT_LAYERS_KEY));
}

/// The dimensions of admitted metadata are what its keys store.
pub proof fn law_dimensions_are_what_is_stored(metadata: &Metadata, dimensions: Dimensions)
    requires
        call_ensures(Dimensions::from_metadata, (metadata,), Ok::<Dimensions, Error>(dimensions)),
    ensures
        made_of(dimensions, widths(metadata@)),
{
    lemma_made_of(metadata@);
}

/// What a profile says of its blocks is what the metadata stores, and what it hands to
/// recurrent blocks and to execution are the numbers of the same metadata.
pub proof fn law_profile_reports_what_is_stored(
    observed: &ObservedArtifact,
    profile: Qwen35StructuralProfile<'_>,
    lent: &Qwen35StructuralProfile<'_>,
    stored: u64,
    main: u64,
    nextn: u64,
    layout: Qwen35RecurrentLayout,
    execution: Qwen35ExecutionDimensions,
)
    requires
        call_ensures(
            Qwen35StructuralProfile::try_from_observed,
            (observed,),
            Ok::<Qwen35StructuralProfile<'_>, Error>(profile),
        ),
        *lent == profile,
        call_ensures(Qwen35StructuralProfile::stored_block_count, (lent,), stored),
        call_ensures(Qwen35StructuralProfile::main_block_count, (lent,), main),
        call_ensures(Qwen35StructuralProfile::nextn_block_count, (lent,), nextn),
        call_ensures(Qwen35StructuralProfile::recurrent_layout, (lent,), layout),
        call_ensures(Qwen35StructuralProfile::execution_dimensions, (lent,), execution),
    ensures
        ({
            let w = widths(observed.metadata@);
            &&& stored == w.blocks && nextn == w.nextn && main + nextn == stored
            &&& layout.hidden == w.hidden && layout.conv_kernel == w.kernel && layout.inner
                == w.inner && layout.state == w.state && layout.time_step_rank == w.rank
                && layout.group_count == w.groups && layout.main_block_count == main
                && layout.full_attention_interval == w.interval
            &&& execution.hidden == w.hidden && execution.feed_forward == w.forward
                && execution.heads == w.heads && execution.key_value_heads == w.kv_heads
                && execution.key_width == w.key && execution.vocabulary == w.vocabulary
                && execution.main_block_count == main && execution.full_attention_interval
                == w.interval
        }),
{
    lemma_made_of(observed.metadata@);
}

/// A derived shape in terms of the dimensions it derives from: first the width of the
/// rows that a matrix is applied to, then the width of the rows that it gives.
pub proof fn law_template_shapes(
    template: TensorTemplate,
    dimensions: &Dimensions,
    shape: Vec<u64>,
)
    requires
        call_ensures(TensorTemplate::shape, (template, dimensions), Ok::<Vec<u64>, Error>(shape)),
    ensures
        ({
            let d = *dimensions;
            let channels = 2 * (d.state * d.group_count) + d.inner;
            match template.shape {
                TemplateShape::HiddenVocabulary => shape@ == seq![d.hidden, d.vocabulary],
                TemplateShape::Hidden => shape@ == seq![d.hidden],
                TemplateShape::KeyWidth => shape@ == seq![d.key_width],
                TemplateShape::FullAttentionKey => shape@.len() == 2 && shape@[0] == d.hidden
                    && shape@[1] == d.key_value_heads * d.key_width,
                TemplateShape::FullAttentionOutput => shape@.len() == 2 && shape@[0] == d.heads
                    * d.key_width && shape@[1] == d.hidden,
                TemplateShape::FullAttentionQuery => shape@.len() == 2 && shape@[0] == d.hidden
                    && shape@[1] == 2 * (d.heads * d.key_width),
                TemplateShape::FullAttentionValue => shape@.len() == 2 && shape@[0] == d.hidden
                    && shape@[1] == d.key_value_heads * d.value_width,
                TemplateShape::FeedForwardDown => shape@ == seq![d.feed_forward, d.hidden],
                TemplateShape::FeedForwardUp => shape@ == seq![d.hidden, d.feed_forward],
                TemplateShape::RecurrentGate => shape@ == seq![d.hidden, d.inner],
                TemplateShape::RecurrentQkv => shape@.len() == 2 && shape@[0] == d.hidden
                    && shape@[1] == channels,
                TemplateShape::TimeStepRank => shape@ == seq![d.time_step_rank],
                TemplateShape::HiddenTimeStepRank => shape@ == seq![d.hidden, d.time_step_rank],
                TemplateShape::RecurrentConvolution => shape@.len() == 2 && shape@[0]
                    == d.conv_kernel && shape@[1] == channels,
                TemplateShape::RecurrentHead => shape@ == seq![
                    (d.inner / d.time_step_rank),
                ],
                TemplateShape::RecurrentOutput => shape@ == seq![d.inner, d.hidden],
                TemplateShape::NextNProjection => shape@.len() == 2 && shape@[0] == d.hidden
                    + d.hidden && shape@[1] == d.hidden,
            }
        }),
{
    let d = *dimensions;
    assert(d.heads * d.key_width * 2 == 2 * (d.heads * d.key_width)) by (nonlinear_arith);
    assert(d.state * d.group_count * 2 == 2 * (d.state * d.group_count)) by (nonlinear_arith);
}

/// The listed tensors of an artifact are all different, as many as its blocks call for,
/// and the projection of each block behind the main ones is listed with an input of
/// twice the embedding length.
pub proof fn law_expected_tensors(
    dimensions: &Dimensions,
    listed: Vec<ExpectedTensor>,
    block: u64,
)
    requires
        call_ensures(expected_tensors, (dimensions,), Ok::<Vec<ExpectedTensor>, Error>(listed)),
        dimensions.full_attention_interval > 0,
        dimensions.main_block_count <= block < dimensions.main_block_count
            + dimensions.nextn_block_count,
    ensures
        listed@.len() == 3 + 11 * (dimensions.main_block_count as int
            / dimensions.full_attention_interval as int) + 14 * (dimensions.main_block_count
            - dimensions.main_block_count as int / dimensions.full_attention_interval as int) + 15
            * dimensions.nextn_block_count,
        exists|i: int|
            0 <= i < listed@.len() && (#[trigger] listed@[i]).name@ == "blk."@ + text::decimal(
                block as nat,
            ) + "."@ + "nextn.eh_proj.weight"@ && listed@[i].shape@.len() == 2
                && listed@[i].shape@[0] == 2 * dimensions.hidden && listed@[i].shape@[1]
                == dimensions.hidden,
        forall|i: int, j: int|
            #![trigger listed@[i], listed@[j]]
            0 <= i < j < listed@.len() ==> listed@[i].name@ != listed@[j].name@,
{
    let d = *dimensions;
    let slots = qwen35_inventory::slots(d);
    let rendered = qwen35_inventory::rendered(d, slots);
    let main = d.main_block_count as int;
    qwen35_inventory::lemma_inventory_count(d);
    qwen35_inventory::lemma_inventory_names_unique(d);
    qwen35_inventory::lemma_rendered_slots(d, slots);
    let blocks = d.main_block_count + d.nextn_block_count;
    let roles = d.block_roles(block as int);
    assert(roles[11] == qwen35_inventory::nextn_extension_roles()[0]);
    lemma_slot_present(d, block, 11, blocks);
    let k = choose|k: int|
        0 <= k < qwen35_inventory::slots_upto(d, blocks).len()
            && #[trigger] qwen35_inventory::slots_upto(d, blocks)[k] == (Some(block), roles[11]);
    assert(slots[k] == (Some(block), roles[11]));
    assert(qwen35_inventory::entries(listed@)[k] == listed@[k]@);
    assert(rendered[k].0 == qwen35_inventory::slot_name(slots[k]));
    assert(listed@[k].name@ == qwen35_inventory::slot_name(slots[k]));
    assert forall|i: int, j: int|
        #![trigger listed@[i], listed@[j]]
        0 <= i < j < listed@.len() implies listed@[i].name@ != listed@[j].name@ by {
        assert(qwen35_inventory::entries(listed@)[i] == listed@[i]@);
        assert(qwen35_inventory::entries(listed@)[j] == listed@[j]@);
        assert(rendered[i].0 == qwen35_inventory::slot_name(slots[i]));
        assert(rendered[j].0 == qwen35_inventory::slot_name(slots[j]));
        assert(qwen35_inventory::slot_name(slots[i]) != qwen35_inventory::slot_name(slots[j]));
    }
}

} // verus!
