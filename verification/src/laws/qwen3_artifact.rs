//! Laws of Qwen3 artifacts: which metadata shapes which tensor, and which artifacts
//! are bound.

use crate::error::Error;
use crate::gguf::{GgmlType, MetaValue, MetaValueType, Metadata, TensorDescriptor, VerifiedArtifact};
use crate::qwen3;
use crate::qwen35_execution;
use crate::qwen3::{Layout, Qwen3Profile};
use crate::qwen3_execution;
use crate::qwen3_execution::{
    Qwen3AllocationShape, Qwen3BodyWeights, Qwen3CpuRequirements, Qwen3Execution, Qwen3RankWeights,
    Qwen3Weights,
};
use crate::qwen3_inventory;
use crate::text;
use vstd::prelude::*;

verus! {

/// The count stored under a key.
pub open spec fn count(metadata: Map<Seq<char>, MetaValue>, key: &'static str) -> int {
    metadata[key@]->U32_0 as int
}

/// Whether a tensor of a name is stored, and every tensor of that name has a shape and
/// a storage that its use admits: vectors are `f32`, matrices are `f32` or `q8_0`.
pub open spec fn stored_as(
    tensors: Seq<TensorDescriptor>,
    name: Seq<char>,
    dims: Seq<int>,
    vector: bool,
) -> bool {
    &&& exists|i: int| 0 <= i < tensors.len() && (#[trigger] tensors[i]).name@ == name
    &&& forall|i: int|
        0 <= i < tensors.len() && (#[trigger] tensors[i]).name@ == name ==> has_shape(
            tensors[i],
            dims,
            vector,
        )
}

/// Whether a tensor has a shape, and a storage that its use admits.
pub open spec fn has_shape(tensor: TensorDescriptor, dims: Seq<int>, vector: bool) -> bool {
    &&& tensor.dims@.len() == dims.len()
    &&& forall|d: int| 0 <= d < dims.len() ==> tensor.dims@[d] as int == #[trigger] dims[d]
    &&& tensor.ggml_type == GgmlType::F32 || (!vector && tensor.ggml_type == GgmlType::Q8_0)
}

proof fn lemma_block_stored(
    tensors: Seq<TensorDescriptor>,
    layout: Layout,
    profile: Qwen3Profile,
    block: usize,
    r: int,
    wanted: Seq<int>,
)
    requires
        qwen3_inventory::inventory_admitted(
            tensors,
            layout,
            qwen3_inventory::profile_roles_spec(profile),
        ),
        block < layout.blocks,
        0 <= r < 11,
        ({
            let dims = qwen3_inventory::block_roles_spec()[r].shape.dims(layout);
            &&& dims.len() == wanted.len()
            &&& forall|d: int| 0 <= d < dims.len() ==> dims[d] as int == #[trigger] wanted[d]
        }),
    ensures
        stored_as(
            tensors,
            text::block_name_spec(block as nat, qwen3_inventory::block_roles_spec()[r].name@),
            wanted,
            qwen3_inventory::block_roles_spec()[r].storage == qwen3_inventory::Storage::F32Vector,
        ),
{
    let role = qwen3_inventory::block_roles_spec()[r];
    let name = text::block_name_spec(block as nat, role.name@);
    let roles = qwen3_inventory::profile_roles_spec(profile);
    qwen3_inventory::lemma_admitted_block(tensors, layout, profile, block, r);
    qwen3_inventory::lemma_block_role(profile, layout.blocks, block, r);
    assert forall|i: int| 0 <= i < tensors.len() && (#[trigger] tensors[i]).name@
        == name implies has_shape(
        tensors[i],
        wanted,
        role.storage == qwen3_inventory::Storage::F32Vector,
    ) by {
        assert(qwen3_inventory::tensor_rule(tensors, layout, roles, i) is None);
    }
}

/// In an admitted inventory every block has its eleven tensors, each shaped by the
/// geometry so that its input dimension is the width of the row it is applied to.
proof fn lemma_block_shapes(
    tensors: Seq<TensorDescriptor>,
    layout: Layout,
    profile: Qwen3Profile,
    block: usize,
)
    requires
        qwen3_inventory::inventory_admitted(
            tensors,
            layout,
            qwen3_inventory::profile_roles_spec(profile),
        ),
        block < layout.blocks,
    ensures
        block_shaped(
            tensors,
            block as nat,
            layout.hidden as int,
            layout.q_width as int,
            layout.kv_width as int,
            layout.head_dim as int,
            layout.feed_forward as int,
        ),
{
    let hidden = layout.hidden as int;
    let query = layout.q_width as int;
    let pair = layout.kv_width as int;
    let head = layout.head_dim as int;
    let forward = layout.feed_forward as int;
    lemma_block_stored(tensors, layout, profile, block, 0, seq![hidden]);
    lemma_block_stored(tensors, layout, profile, block, 1, seq![head]);
    lemma_block_stored(tensors, layout, profile, block, 2, seq![head]);
    lemma_block_stored(tensors, layout, profile, block, 3, seq![hidden]);
    lemma_block_stored(tensors, layout, profile, block, 4, seq![hidden, query]);
    lemma_block_stored(tensors, layout, profile, block, 5, seq![hidden, pair]);
    lemma_block_stored(tensors, layout, profile, block, 6, seq![hidden, pair]);
    lemma_block_stored(tensors, layout, profile, block, 7, seq![query, hidden]);
    lemma_block_stored(tensors, layout, profile, block, 8, seq![hidden, forward]);
    lemma_block_stored(tensors, layout, profile, block, 9, seq![hidden, forward]);
    lemma_block_stored(tensors, layout, profile, block, 10, seq![forward, hidden]);
}

/// Whether a block's eleven tensors are stored with the shapes that five widths give.
pub open spec fn block_shaped(
    tensors: Seq<TensorDescriptor>,
    block: nat,
    hidden: int,
    query: int,
    pair: int,
    head: int,
    forward: int,
) -> bool {
    let prefix = "blk."@ + text::decimal(block) + "."@;
    &&& stored_as(tensors, prefix + "attn_norm.weight"@, seq![hidden], true)
    &&& stored_as(tensors, prefix + "attn_q_norm.weight"@, seq![head], true)
    &&& stored_as(tensors, prefix + "attn_k_norm.weight"@, seq![head], true)
    &&& stored_as(tensors, prefix + "ffn_norm.weight"@, seq![hidden], true)
    &&& stored_as(tensors, prefix + "attn_q.weight"@, seq![hidden, query], false)
    &&& stored_as(tensors, prefix + "attn_k.weight"@, seq![hidden, pair], false)
    &&& stored_as(tensors, prefix + "attn_v.weight"@, seq![hidden, pair], false)
    &&& stored_as(tensors, prefix + "attn_output.weight"@, seq![query, hidden], false)
    &&& stored_as(tensors, prefix + "ffn_gate.weight"@, seq![hidden, forward], false)
    &&& stored_as(tensors, prefix + "ffn_up.weight"@, seq![hidden, forward], false)
    &&& stored_as(tensors, prefix + "ffn_down.weight"@, seq![forward, hidden], false)
}

/// In every bound artifact each block's tensors have the shapes that the metadata
/// gives: the feed-forward matrices go from the embedding length to the feed-forward
/// length and back, the attention matrices to and from the heads' joined widths.
pub proof fn law_bound_block_shapes(
    payload: &VerifiedArtifact,
    profile: Qwen3Profile,
    body: Qwen3BodyWeights<'_>,
    block: nat,
)
    requires
        call_ensures(
            Qwen3BodyWeights::try_from_verified,
            (payload, profile),
            Ok::<Qwen3BodyWeights<'_>, Error>(body),
        ),
        block < count(payload.spec_observation().metadata@, "qwen3.block_count"),
    ensures
        ({
            let metadata = payload.spec_observation().metadata@;
            let tensors = payload.spec_observation().tensors@;
            let hidden = count(metadata, "qwen3.embedding_length");
            let forward = count(metadata, "qwen3.feed_forward_length");
            let head = count(metadata, "qwen3.attention.key_length");
            let query = count(metadata, "qwen3.attention.head_count") * head;
            let pair = count(metadata, "qwen3.attention.head_count_kv") * head;
            block_shaped(tensors, block, hidden, query, pair, head, forward)
        }),
{
    let metadata = payload.spec_observation().metadata@;
    assert(qwen3::positive_failure(metadata, qwen3::BLOCK_COUNT) is None);
    lemma_block_shapes(
        payload.spec_observation().tensors@,
        body.spec_layout(),
        profile,
        block as usize,
    );
}

/// The tensors outside the blocks: the embedding has a row of the embedding length for
/// every vocabulary entry, the output norm is one such row, and the rank head maps a
/// row to its two labels.
pub proof fn law_bound_outer_shapes(
    payload: &VerifiedArtifact,
    profile: Qwen3Profile,
    body: Qwen3BodyWeights<'_>,
)
    requires
        call_ensures(
            Qwen3BodyWeights::try_from_verified,
            (payload, profile),
            Ok::<Qwen3BodyWeights<'_>, Error>(body),
        ),
    ensures
        ({
            let metadata = payload.spec_observation().metadata@;
            let tensors = payload.spec_observation().tensors@;
            let hidden = count(metadata, "qwen3.embedding_length");
            let vocabulary = metadata["tokenizer.ggml.tokens"@]->Array_0.values@.len() as int;
            &&& stored_as(tensors, "token_embd.weight"@, seq![hidden, vocabulary], false)
            &&& stored_as(tensors, "output_norm.weight"@, seq![hidden], true)
            &&& profile == Qwen3Profile::Rank ==> stored_as(
                tensors,
                "cls.output.weight"@,
                seq![hidden, 2],
                false,
            )
            &&& tensors.len() == 11 * count(metadata, "qwen3.block_count") + 2 + (if profile
                == Qwen3Profile::Rank {
                1int
            } else {
                0
            })
        }),
        forall|i: int, j: int|
            #![trigger payload.spec_observation().tensors@[i], payload.spec_observation().tensors@[j]]
            0 <= i < j < payload.spec_observation().tensors@.len()
                ==> payload.spec_observation().tensors@[i].name@
                != payload.spec_observation().tensors@[j].name@,
{
    let metadata = payload.spec_observation().metadata@;
    let tensors = payload.spec_observation().tensors@;
    let layout = body.spec_layout();
    let roles = qwen3_inventory::profile_roles_spec(profile);
    lemma_outer_roles(profile, layout.blocks);
    assert(qwen3_inventory::present(tensors, qwen3_inventory::required_name(roles, 0)));
    assert(qwen3_inventory::present(tensors, qwen3_inventory::required_name(roles, 1)));
    if profile == Qwen3Profile::Rank {
        assert(qwen3_inventory::present(tensors, qwen3_inventory::required_name(roles, 2)));
    }
    assert forall|i: int|
        0 <= i < tensors.len() implies #[trigger] qwen3_inventory::tensor_rule(
        tensors,
        layout,
        roles,
        i,
    ) is None by {}
    assert forall|i: int| 0 <= i < tensors.len() && (#[trigger] tensors[i]).name@
        == "token_embd.weight"@ implies has_shape(
        tensors[i],
        seq![layout.hidden as int, layout.vocabulary as int],
        false,
    ) by {
        assert(qwen3_inventory::tensor_rule(tensors, layout, roles, i) is None);
    }
    assert forall|i: int| 0 <= i < tensors.len() && (#[trigger] tensors[i]).name@
        == "output_norm.weight"@ implies has_shape(
        tensors[i],
        seq![layout.hidden as int],
        true,
    ) by {
        assert(qwen3_inventory::tensor_rule(tensors, layout, roles, i) is None);
    }
    if profile == Qwen3Profile::Rank {
        assert forall|i: int| 0 <= i < tensors.len() && (#[trigger] tensors[i]).name@
            == "cls.output.weight"@ implies has_shape(
            tensors[i],
            seq![layout.hidden as int, 2],
            false,
        ) by {
            assert(qwen3_inventory::tensor_rule(tensors, layout, roles, i) is None);
        }
    }
    assert forall|i: int, j: int|
        #![trigger tensors[i], tensors[j]]
        0 <= i < j < tensors.len() implies tensors[i].name@ != tensors[j].name@ by {
        assert(qwen3_inventory::tensor_rule(tensors, layout, roles, j) is None);
        assert(!qwen3_inventory::repeated(tensors, j));
    }
}

proof fn lemma_outer_roles(profile: Qwen3Profile, blocks: usize)
    ensures
        ({
            let roles = qwen3_inventory::profile_roles_spec(profile);
            let outer = qwen3_inventory::global_roles_spec();
            &&& qwen3_inventory::role_of("token_embd.weight"@, blocks, roles) == Some(outer[0])
            &&& qwen3_inventory::role_of("output_norm.weight"@, blocks, roles) == Some(outer[1])
            &&& profile == Qwen3Profile::Rank ==> qwen3_inventory::role_of(
                "cls.output.weight"@,
                blocks,
                roles,
            ) == Some(roles[0])
        }),
{
    reveal_strlit("token_embd.weight");
    reveal_strlit("output_norm.weight");
    reveal_strlit("cls.output.weight");
    reveal_with_fuel(qwen3_inventory::named_role, 3);
    let outer = qwen3_inventory::global_roles_spec();
    assert("token_embd.weight"@[0] == 't');
    assert("output_norm.weight"@[0] == 'o');
    assert("cls.output.weight"@[0] == 'c');
    assert(outer.drop_first()[0] == outer[1]);
    assert(outer.drop_first().drop_first().len() == 0);
}

/// Whether a positive count is stored under a key.
pub open spec fn counted(metadata: Map<Seq<char>, MetaValue>, key: &'static str) -> bool {
    metadata.dom().contains(key@) && metadata[key@] is U32 && metadata[key@]->U32_0 > 0
}

/// Whether a number above zero is stored under a key: no sign, no zero, and an exponent
/// that is not all ones.
pub open spec fn measured(metadata: Map<Seq<char>, MetaValue>, key: &'static str) -> bool {
    metadata.dom().contains(key@) && metadata[key@] is F32 && 0 < metadata[key@]->F32_0
        < 0x7f80_0000
}

/// Metadata is admitted exactly where it names the architecture and the profile's
/// pooling, is causal and unscaled, stores every count as a positive `u32`, has whole
/// groups of heads of one even rotary width, and lists a vocabulary.
pub proof fn law_metadata_admission(
    metadata: &Metadata,
    profile: Qwen3Profile,
    layout: Result<Layout, Error>,
)
    requires
        call_ensures(Layout::from_metadata, (metadata, profile), layout),
    ensures
        layout is Ok <==> {
            let stored = metadata@;
            &&& stored.dom().contains("general.architecture"@)
            &&& stored["general.architecture"@] matches MetaValue::String(name) && name@ == "qwen3"@
            &&& stored.dom().contains("qwen3.pooling_type"@)
            &&& stored["qwen3.pooling_type"@] == MetaValue::U32(
                if profile == Qwen3Profile::Embedding {
                    3
                } else {
                    4
                },
            )
            &&& stored.dom().contains("qwen3.attention.causal"@)
                ==> stored["qwen3.attention.causal"@] == MetaValue::Bool(true)
            &&& unscaled(stored)
            &&& counted(stored, "qwen3.block_count")
            &&& counted(stored, "qwen3.context_length")
            &&& counted(stored, "qwen3.embedding_length")
            &&& counted(stored, "qwen3.feed_forward_length")
            &&& counted(stored, "qwen3.attention.head_count")
            &&& counted(stored, "qwen3.attention.head_count_kv")
            &&& counted(stored, "qwen3.attention.key_length")
            &&& counted(stored, "qwen3.attention.value_length")
            &&& counted(stored, "qwen3.rope.dimension_count")
            &&& measured(stored, "qwen3.attention.layer_norm_rms_epsilon")
            &&& measured(stored, "qwen3.rope.freq_base")
            &&& count(stored, "qwen3.attention.head_count") % count(
                stored,
                "qwen3.attention.head_count_kv",
            ) == 0
            &&& count(stored, "qwen3.attention.value_length") == count(
                stored,
                "qwen3.attention.key_length",
            )
            &&& count(stored, "qwen3.rope.dimension_count") == count(
                stored,
                "qwen3.attention.key_length",
            )
            &&& count(stored, "qwen3.attention.key_length") % 2 == 0
            &&& count(stored, "qwen3.attention.head_count") * count(
                stored,
                "qwen3.attention.key_length",
            ) <= usize::MAX
            &&& count(stored, "qwen3.attention.head_count_kv") * count(
                stored,
                "qwen3.attention.key_length",
            ) <= usize::MAX
            &&& stored.dom().contains("tokenizer.ggml.tokens"@)
            &&& stored["tokenizer.ggml.tokens"@] matches MetaValue::Array(tokens)
            &&& tokens.element_type == MetaValueType::String
            &&& tokens.values@.len() > 0
        },
{
}

/// Whether rotary scaling is absent or has no effect: the kind is linear or none, the
/// effective linear factor is zero or one, and an attention factor is one.
pub open spec fn unscaled(metadata: Map<Seq<char>, MetaValue>) -> bool {
    let kind = "qwen3.rope.scaling.type"@;
    let factor = "qwen3.rope.scaling.factor"@;
    let legacy = "qwen3.rope.scale_linear"@;
    let attention = "qwen3.rope.scaling.attn_factor"@;
    let none = metadata.dom().contains(kind) && (metadata[kind] matches MetaValue::String(name)
        && name@ == "none"@);
    let linear = metadata.dom().contains(kind) && (metadata[kind] matches MetaValue::String(name)
        && name@ == "linear"@);
    &&& metadata.dom().contains(kind) ==> none || linear
    &&& metadata.dom().contains(factor) ==> (metadata[factor] matches MetaValue::F32(bits) && (bits
        % 0x8000_0000) < 0x7f80_0000)
    &&& metadata.dom().contains(legacy) ==> (metadata[legacy] matches MetaValue::F32(bits) && (bits
        % 0x8000_0000) < 0x7f80_0000)
    &&& !none && metadata.dom().contains(factor) ==> metadata[factor]->F32_0 == 0
        || metadata[factor]->F32_0 == 0x3f80_0000
    &&& !none && !metadata.dom().contains(factor) && metadata.dom().contains(legacy)
        ==> metadata[legacy]->F32_0 == 0 || metadata[legacy]->F32_0 == 0x3f80_0000
    &&& metadata.dom().contains(attention) ==> metadata[attention] == MetaValue::F32(0x3f80_0000)
}

/// The geometry of admitted metadata is what its keys store, and the joined widths are
/// the head counts times the head width.
pub proof fn law_geometry_is_what_is_stored(
    metadata: &Metadata,
    profile: Qwen3Profile,
    layout: Layout,
)
    requires
        call_ensures(Layout::from_metadata, (metadata, profile), Ok::<Layout, Error>(layout)),
    ensures
        layout.blocks == count(metadata@, "qwen3.block_count"),
        layout.context == count(metadata@, "qwen3.context_length"),
        layout.hidden == count(metadata@, "qwen3.embedding_length"),
        layout.feed_forward == count(metadata@, "qwen3.feed_forward_length"),
        layout.heads == count(metadata@, "qwen3.attention.head_count"),
        layout.kv_heads == count(metadata@, "qwen3.attention.head_count_kv"),
        layout.head_dim == count(metadata@, "qwen3.attention.key_length"),
        layout.head_dim == count(metadata@, "qwen3.attention.value_length"),
        layout.head_dim == count(metadata@, "qwen3.rope.dimension_count"),
        layout.q_width == layout.heads * layout.head_dim,
        layout.kv_width == layout.kv_heads * layout.head_dim,
        layout.vocabulary == metadata@["tokenizer.ggml.tokens"@]->Array_0.values@.len(),
        layout.epsilon == metadata@["qwen3.attention.layer_norm_rms_epsilon"@]->F32_0,
        layout.rope_base == metadata@["qwen3.rope.freq_base"@]->F32_0,
{
}

/// Bound weights carry the geometry of their own artifact's metadata.
pub proof fn law_bound_geometry(
    payload: &VerifiedArtifact,
    profile: Qwen3Profile,
    body: Qwen3BodyWeights<'_>,
)
    requires
        call_ensures(
            Qwen3BodyWeights::try_from_verified,
            (payload, profile),
            Ok::<Qwen3BodyWeights<'_>, Error>(body),
        ),
    ensures
        body.spec_payload() == *payload,
        ({
            let metadata = payload.spec_observation().metadata@;
            let layout = body.spec_layout();
            &&& layout.blocks == count(metadata, "qwen3.block_count")
            &&& layout.context == count(metadata, "qwen3.context_length")
            &&& layout.hidden == count(metadata, "qwen3.embedding_length")
            &&& layout.feed_forward == count(metadata, "qwen3.feed_forward_length")
            &&& layout.heads == count(metadata, "qwen3.attention.head_count")
            &&& layout.kv_heads == count(metadata, "qwen3.attention.head_count_kv")
            &&& layout.head_dim == count(metadata, "qwen3.attention.key_length")
            &&& layout.q_width == layout.heads * layout.head_dim
            &&& layout.kv_width == layout.kv_heads * layout.head_dim
        }),
{
}

/// The embedding weights and the rank weights bind an artifact as its body does; the
/// rank weights also ask for the labels yes and no, in that order.
pub proof fn law_profiles_bind_the_body(
    payload: &VerifiedArtifact,
    weights: Qwen3Weights<'_>,
    rank: Qwen3RankWeights<'_>,
)
    ensures
        call_ensures(
            Qwen3Weights::try_from_verified,
            (payload,),
            Ok::<Qwen3Weights<'_>, Error>(weights),
        ) ==> weights.spec_body().spec_payload() == *payload
            && payload.spec_observation().metadata@["qwen3.pooling_type"@] == MetaValue::U32(3),
        call_ensures(
            Qwen3RankWeights::try_from_verified,
            (payload,),
            Ok::<Qwen3RankWeights<'_>, Error>(rank),
        ) ==> {
            let metadata = payload.spec_observation().metadata@;
            &&& rank.spec_body().spec_payload() == *payload
            &&& metadata["qwen3.pooling_type"@] == MetaValue::U32(4)
            &&& metadata["qwen3.classifier.output_labels"@] matches MetaValue::Array(labels)
            &&& labels.values@.len() == 2
            &&& labels.values@[0] matches MetaValue::String(yes) && yes@ == "yes"@
            &&& labels.values@[1] matches MetaValue::String(no) && no@ == "no"@
        },
{
}

/// Whether a tensor is one of a block's eleven, with the shape that five widths give.
pub open spec fn block_tensor(
    tensor: TensorDescriptor,
    block: nat,
    hidden: int,
    query: int,
    pair: int,
    head: int,
    forward: int,
) -> bool {
    let prefix = "blk."@ + text::decimal(block) + "."@;
    ||| tensor.name@ == prefix + "attn_norm.weight"@ && has_shape(tensor, seq![hidden], true)
    ||| tensor.name@ == prefix + "attn_q_norm.weight"@ && has_shape(tensor, seq![head], true)
    ||| tensor.name@ == prefix + "attn_k_norm.weight"@ && has_shape(tensor, seq![head], true)
    ||| tensor.name@ == prefix + "ffn_norm.weight"@ && has_shape(tensor, seq![hidden], true)
    ||| tensor.name@ == prefix + "attn_q.weight"@ && has_shape(tensor, seq![hidden, query], false)
    ||| tensor.name@ == prefix + "attn_k.weight"@ && has_shape(tensor, seq![hidden, pair], false)
    ||| tensor.name@ == prefix + "attn_v.weight"@ && has_shape(tensor, seq![hidden, pair], false)
    ||| tensor.name@ == prefix + "attn_output.weight"@ && has_shape(
        tensor,
        seq![query, hidden],
        false,
    )
    ||| tensor.name@ == prefix + "ffn_gate.weight"@ && has_shape(
        tensor,
        seq![hidden, forward],
        false,
    )
    ||| tensor.name@ == prefix + "ffn_up.weight"@ && has_shape(
        tensor,
        seq![hidden, forward],
        false,
    )
    ||| tensor.name@ == prefix + "ffn_down.weight"@ && has_shape(
        tensor,
        seq![forward, hidden],
        false,
    )
}

/// Whether a tensor is one of those outside the blocks, with its shape.
pub open spec fn outer_tensor(
    tensor: TensorDescriptor,
    profile: Qwen3Profile,
    hidden: int,
    vocabulary: int,
) -> bool {
    ||| tensor.name@ == "token_embd.weight"@ && has_shape(
        tensor,
        seq![hidden, vocabulary],
        false,
    )
    ||| tensor.name@ == "output_norm.weight"@ && has_shape(tensor, seq![hidden], true)
    ||| profile == Qwen3Profile::Rank && tensor.name@ == "cls.output.weight"@ && has_shape(
        tensor,
        seq![hidden, 2],
        false,
    )
}

proof fn lemma_block_tensor_role(
    tensor: TensorDescriptor,
    layout: Layout,
    block: usize,
) -> (r: int)
    requires
        block_tensor(
            tensor,
            block as nat,
            layout.hidden as int,
            layout.q_width as int,
            layout.kv_width as int,
            layout.head_dim as int,
            layout.feed_forward as int,
        ),
    ensures
        0 <= r < 11,
        tensor.name@ == text::block_name_spec(
            block as nat,
            qwen3_inventory::block_roles_spec()[r].name@,
        ),
        tensor.dims@ == qwen3_inventory::block_roles_spec()[r].shape.dims(layout),
        qwen3_inventory::storage_rule(
            qwen3_inventory::block_roles_spec()[r].storage,
            tensor.ggml_type,
        ) is None,
{
    let roles = qwen3_inventory::block_roles_spec();
    let prefix = "blk."@ + text::decimal(block as nat) + "."@;
    let hidden = layout.hidden as int;
    let query = layout.q_width as int;
    let pair = layout.kv_width as int;
    let head = layout.head_dim as int;
    let forward = layout.feed_forward as int;
    let r: int = if tensor.name@ == prefix + "attn_norm.weight"@ && has_shape(
        tensor,
        seq![hidden],
        true,
    ) {
        0
    } else if tensor.name@ == prefix + "attn_q_norm.weight"@ && has_shape(
        tensor,
        seq![head],
        true,
    ) {
        1
    } else if tensor.name@ == prefix + "attn_k_norm.weight"@ && has_shape(
        tensor,
        seq![head],
        true,
    ) {
        2
    } else if tensor.name@ == prefix + "ffn_norm.weight"@ && has_shape(
        tensor,
        seq![hidden],
        true,
    ) {
        3
    } else if tensor.name@ == prefix + "attn_q.weight"@ && has_shape(
        tensor,
        seq![hidden, query],
        false,
    ) {
        4
    } else if tensor.name@ == prefix + "attn_k.weight"@ && has_shape(
        tensor,
        seq![hidden, pair],
        false,
    ) {
        5
    } else if tensor.name@ == prefix + "attn_v.weight"@ && has_shape(
        tensor,
        seq![hidden, pair],
        false,
    ) {
        6
    } else if tensor.name@ == prefix + "attn_output.weight"@ && has_shape(
        tensor,
        seq![query, hidden],
        false,
    ) {
        7
    } else if tensor.name@ == prefix + "ffn_gate.weight"@ && has_shape(
        tensor,
        seq![hidden, forward],
        false,
    ) {
        8
    } else if tensor.name@ == prefix + "ffn_up.weight"@ && has_shape(
        tensor,
        seq![hidden, forward],
        false,
    ) {
        9
    } else {
        10
    };
    let dims = roles[r].shape.dims(layout);
    assert(tensor.dims@ =~= dims) by {
        if r == 0 || r == 3 {
            assert(seq![hidden][0] == hidden);
        } else if r == 1 || r == 2 {
            assert(seq![head][0] == head);
        } else if r == 4 {
            assert(seq![hidden, query][0] == hidden && seq![hidden, query][1] == query);
        } else if r == 5 || r == 6 {
            assert(seq![hidden, pair][0] == hidden && seq![hidden, pair][1] == pair);
        } else if r == 7 {
            assert(seq![query, hidden][0] == query && seq![query, hidden][1] == hidden);
        } else if r == 8 || r == 9 {
            assert(seq![hidden, forward][0] == hidden && seq![hidden, forward][1] == forward);
        } else {
            assert(seq![forward, hidden][0] == forward && seq![forward, hidden][1] == hidden);
        }
    }
    r
}

/// Whether the tensors of an artifact are those of a profile with five widths, a
/// vocabulary, and a number of blocks: as many as there are roles, none twice, and each
/// one of them with its shape.
pub open spec fn complete(
    tensors: Seq<TensorDescriptor>,
    profile: Qwen3Profile,
    blocks: int,
    vocabulary: int,
    hidden: int,
    query: int,
    pair: int,
    head: int,
    forward: int,
) -> bool {
    &&& tensors.len() == 11 * blocks + 2 + (if profile == Qwen3Profile::Rank {
        1int
    } else {
        0
    })
    &&& forall|i: int, j: int|
        #![trigger tensors[i], tensors[j]]
        0 <= i < j < tensors.len() ==> tensors[i].name@ != tensors[j].name@
    &&& forall|i: int|
        0 <= i < tensors.len() ==> outer_tensor(#[trigger] tensors[i], profile, hidden, vocabulary)
            || exists|block: nat|
            block < blocks && #[trigger] block_tensor(
                tensors[i],
                block,
                hidden,
                query,
                pair,
                head,
                forward,
            )
}

/// An inventory that holds every role once, each with the shape that the geometry
/// gives, is admitted.
pub proof fn law_complete_inventory_is_admitted(
    tensors: &[TensorDescriptor],
    layout: Layout,
    profile: Qwen3Profile,
    roles: &[qwen3_inventory::Role],
    checked: Result<(), Error>,
)
    requires
        roles@ == qwen3_inventory::profile_roles_spec(profile),
        call_ensures(qwen3_inventory::validate_inventory, (tensors, layout, roles), checked),
        complete(
            tensors@,
            profile,
            layout.blocks as int,
            layout.vocabulary as int,
            layout.hidden as int,
            layout.q_width as int,
            layout.kv_width as int,
            layout.head_dim as int,
            layout.feed_forward as int,
        ),
    ensures
        checked is Ok,
{
    lemma_complete_is_admitted(tensors@, layout, profile);
}

proof fn lemma_complete_tensor(
    tensors: Seq<TensorDescriptor>,
    layout: Layout,
    profile: Qwen3Profile,
    i: int,
) -> (k: int)
    requires
        complete(
            tensors,
            profile,
            layout.blocks as int,
            layout.vocabulary as int,
            layout.hidden as int,
            layout.q_width as int,
            layout.kv_width as int,
            layout.head_dim as int,
            layout.feed_forward as int,
        ),
        0 <= i < tensors.len(),
    ensures
        0 <= k < qwen3_inventory::inventory_count(
            layout,
            qwen3_inventory::profile_roles_spec(profile),
        ),
        qwen3_inventory::required_name(qwen3_inventory::profile_roles_spec(profile), k)
            == tensors[i].name@,
        qwen3_inventory::tensor_rule(
            tensors,
            layout,
            qwen3_inventory::profile_roles_spec(profile),
            i,
        ) is None,
{
    let roles = qwen3_inventory::profile_roles_spec(profile);
    let hidden = layout.hidden as int;
    let vocabulary = layout.vocabulary as int;
    lemma_outer_roles(profile, layout.blocks);
    assert(!qwen3_inventory::repeated(tensors, i)) by {
        if qwen3_inventory::repeated(tensors, i) {
            let j = choose|j: int| 0 <= j < i && (#[trigger] tensors[j]).name@ == tensors[i].name@;
            assert(tensors[j].name@ != tensors[i].name@);
        }
    }
    if outer_tensor(tensors[i], profile, hidden, vocabulary) {
        if tensors[i].name@ == "token_embd.weight"@ && has_shape(
            tensors[i],
            seq![hidden, vocabulary],
            false,
        ) {
            assert(seq![hidden, vocabulary][0] == hidden && seq![hidden, vocabulary][1]
                == vocabulary);
            assert(tensors[i].dims@ =~= qwen3_inventory::Shape::HiddenVocabulary.dims(layout));
            0
        } else if tensors[i].name@ == "output_norm.weight"@ && has_shape(
            tensors[i],
            seq![hidden],
            true,
        ) {
            assert(seq![hidden][0] == hidden);
            assert(tensors[i].dims@ =~= qwen3_inventory::Shape::Hidden.dims(layout));
            1
        } else {
            assert(seq![hidden, 2int][0] == hidden && seq![hidden, 2int][1] == 2);
            assert(tensors[i].dims@ =~= qwen3_inventory::Shape::HiddenRankLabels.dims(layout));
            2
        }
    } else {
        let block = choose|block: nat|
            block < layout.blocks && #[trigger] block_tensor(
                tensors[i],
                block,
                hidden,
                layout.q_width as int,
                layout.kv_width as int,
                layout.head_dim as int,
                layout.feed_forward as int,
            );
        let r = lemma_block_tensor_role(tensors[i], layout, block as usize);
        qwen3_inventory::lemma_block_role(profile, layout.blocks, block as usize, r);
        let k = 2 + roles.len() + 11 * block + r;
        assert((k - (2 + roles.len())) / 11 == block && (k - (2 + roles.len())) % 11 == r);
        k
    }
}

proof fn lemma_complete_is_admitted(
    tensors: Seq<TensorDescriptor>,
    layout: Layout,
    profile: Qwen3Profile,
)
    requires
        complete(
            tensors,
            profile,
            layout.blocks as int,
            layout.vocabulary as int,
            layout.hidden as int,
            layout.q_width as int,
            layout.kv_width as int,
            layout.head_dim as int,
            layout.feed_forward as int,
        ),
    ensures
        qwen3_inventory::inventory_admitted(
            tensors,
            layout,
            qwen3_inventory::profile_roles_spec(profile),
        ),
{
    let roles = qwen3_inventory::profile_roles_spec(profile);
    let total = qwen3_inventory::inventory_count(layout, roles) as nat;
    assert(tensors.len() == total);
    assert forall|i: int| 0 <= i < tensors.len() implies #[trigger] qwen3_inventory::tensor_rule(
        tensors,
        layout,
        roles,
        i,
    ) is None by {
        let k = lemma_complete_tensor(tensors, layout, profile, i);
    }
    let required = Seq::new(total, |k: int| qwen3_inventory::required_name(roles, k));
    let observed = Seq::new(tensors.len(), |m: int| tensors[m].name@);
    assert(observed.no_duplicates()) by {
        assert forall|a: int, b: int|
            0 <= a < observed.len() && 0 <= b < observed.len() && a != b implies observed[a]
            != observed[b] by {
            if a < b {
                assert(tensors[a].name@ != tensors[b].name@);
            } else {
                assert(tensors[b].name@ != tensors[a].name@);
            }
        }
    }
    assert(observed.to_set().subset_of(required.to_set())) by {
        assert forall|name: Seq<char>| observed.to_set().contains(
            name,
        ) implies required.to_set().contains(name) by {
            let m = choose|m: int| 0 <= m < observed.len() && observed[m] == name;
            let k = lemma_complete_tensor(tensors, layout, profile, m);
            assert(required[k] == name);
        }
    }
    observed.unique_seq_to_set();
    required.lemma_cardinality_of_set();
    vstd::set_lib::lemma_len_subset(observed.to_set(), required.to_set());
    vstd::set_lib::lemma_subset_equality(observed.to_set(), required.to_set());
    assert forall|k: int| 0 <= k < total implies qwen3_inventory::present(
        tensors,
        #[trigger] qwen3_inventory::required_name(roles, k),
    ) by {
        assert(required.to_set().contains(required[k]));
        let m = choose|m: int| 0 <= m < observed.len() && observed[m] == required[k];
        assert(tensors[m].name@ == qwen3_inventory::required_name(roles, k));
    }
}

/// An artifact whose metadata is admitted and whose tensors are complete, with the
/// shapes that the metadata gives, is bound.
pub proof fn law_complete_artifact_is_bound(
    payload: &VerifiedArtifact,
    profile: Qwen3Profile,
    metadata: &Metadata,
    layout: Layout,
    body: Result<Qwen3BodyWeights<'_>, Error>,
)
    requires
        call_ensures(Qwen3BodyWeights::try_from_verified, (payload, profile), body),
        *metadata == payload.spec_observation().metadata,
        call_ensures(Layout::from_metadata, (metadata, profile), Ok::<Layout, Error>(layout)),
        ({
            let stored = metadata@;
            let head = count(stored, "qwen3.attention.key_length");
            complete(
                payload.spec_observation().tensors@,
                profile,
                count(stored, "qwen3.block_count"),
                stored["tokenizer.ggml.tokens"@]->Array_0.values@.len() as int,
                count(stored, "qwen3.embedding_length"),
                count(stored, "qwen3.attention.head_count") * head,
                count(stored, "qwen3.attention.head_count_kv") * head,
                head,
                count(stored, "qwen3.feed_forward_length"),
            )
        }),
    ensures
        body is Ok,
{
    if body is Err {
        let error = body->Err_0;
        assert(qwen3_execution::binding_refused(*payload, profile, error));
        let other = choose|layout: Layout|
            {
                &&& #[trigger] layout.describes(metadata@)
                &&& layout.wf()
                &&& !qwen3_inventory::inventory_admitted(
                    payload.spec_observation().tensors@,
                    layout,
                    qwen3_inventory::profile_roles_spec(profile),
                )
                &&& qwen3_inventory::inventory_refused(
                    payload.spec_observation().tensors@,
                    layout,
                    qwen3_inventory::profile_roles_spec(profile),
                    error,
                )
            };
        lemma_complete_is_admitted(payload.spec_observation().tensors@, other, profile);
    }
}

/// A pass over tokens holds a hidden row, a key row, and a value row for each of them,
/// and every other buffer has the width of the row it holds.
pub proof fn law_allocation_shape(layout: Layout, tokens: usize, shape: Qwen3AllocationShape)
    requires
        call_ensures(
            Layout::allocation_shape,
            (layout, tokens),
            Ok::<Qwen3AllocationShape, Error>(shape),
        ),
    ensures
        shape.tokens == tokens,
        shape.hidden == layout.hidden && shape.heads == layout.heads && shape.kv_heads
            == layout.kv_heads && shape.head_dim == layout.head_dim && shape.q_width
            == layout.q_width && shape.kv_width == layout.kv_width && shape.feed_forward
            == layout.feed_forward,
        shape.hidden_rows == tokens * layout.hidden,
        shape.key_cache == tokens * layout.kv_width && shape.value_cache == tokens
            * layout.kv_width,
{
}

proof fn lemma_workspace_total(shape: Qwen3AllocationShape)
    ensures
        qwen35_execution::total(shape.workspace()) == 4 * shape.hidden_rows + shape.key_cache
            + shape.value_cache + 2 * shape.q_width + 2 * shape.kv_width + 3 * shape.feed_forward
            + 2 * shape.tokens + 2 * shape.hidden + 2 * shape.head_dim,
{
    reveal_with_fuel(qwen35_execution::total, 20);
}

/// The receipt of an embedding executor takes four bytes for every value of its
/// workspace and of the returned row, and its bound is the sum of both.
pub proof fn law_embedding_receipt(
    digest: [u8; 32],
    serialized: u64,
    max_context: usize,
    shape: &Qwen3AllocationShape,
    receipt: Qwen3CpuRequirements,
)
    requires
        call_ensures(
            Qwen3CpuRequirements::embedding,
            (digest, serialized, max_context, shape),
            Ok::<Qwen3CpuRequirements, Error>(receipt),
        ),
    ensures
        receipt.artifact_digest == digest && receipt.serialized_backing_bytes == serialized
            && receipt.max_context == max_context,
        receipt.workspace_upper_bound_bytes == 4 * (4 * shape.hidden_rows + shape.key_cache
            + shape.value_cache + 2 * shape.q_width + 2 * shape.kv_width + 3 * shape.feed_forward
            + 2 * shape.tokens + 2 * shape.hidden + 2 * shape.head_dim),
        receipt.returned_output_bytes == 4 * shape.hidden,
        receipt.logical_f32_upper_bound_bytes == receipt.workspace_upper_bound_bytes
            + receipt.returned_output_bytes,
{
    lemma_workspace_total(*shape);
}

/// An executor's receipt is that of a pass over its whole admitted context, for its own
/// artifact.
pub proof fn law_execution_receipt(
    execution: &Qwen3Execution<'_, '_>,
    receipt: Qwen3CpuRequirements,
)
    requires
        call_ensures(
            Qwen3Execution::cpu_requirements,
            (execution,),
            Ok::<Qwen3CpuRequirements, Error>(receipt),
        ),
    ensures
        ({
            let layout = execution.spec_body().spec_layout();
            let tokens = execution.spec_max_context();
            let observed = execution.spec_body().spec_payload().spec_observation();
            &&& receipt.artifact_digest == observed.digest && receipt.serialized_backing_bytes
                == observed.file_len && receipt.max_context == tokens
            &&& receipt.workspace_upper_bound_bytes == 4 * (4 * (tokens * layout.hidden) + 2 * (
            tokens * layout.kv_width) + 2 * layout.q_width + 2 * layout.kv_width + 3
                * layout.feed_forward + 2 * tokens + 2 * layout.hidden + 2 * layout.head_dim)
            &&& receipt.returned_output_bytes == 4 * layout.hidden
            &&& receipt.logical_f32_upper_bound_bytes == receipt.workspace_upper_bound_bytes
                + receipt.returned_output_bytes
        }),
{
    let layout = execution.spec_body().spec_layout();
    let shape = choose|shape: Qwen3AllocationShape|
        {
            &&& #[trigger] shape.wf(layout)
            &&& shape.tokens == execution.spec_max_context()
            &&& receipt.workspace_upper_bound_bytes == 4 * qwen35_execution::total(
                shape.workspace(),
            )
        };
    lemma_workspace_total(shape);
}

/// An executor is made for a context between one and the artifact's, over the weights it
/// was asked of.
pub proof fn law_execution_context<'weights, 'artifact>(
    weights: &'weights Qwen3Weights<'artifact>,
    max_context: usize,
    execution: Result<Qwen3Execution<'weights, 'artifact>, Error>,
    body: &'weights Qwen3BodyWeights<'artifact>,
    direct: Result<Qwen3Execution<'weights, 'artifact>, Error>,
)
    requires
        call_ensures(
            Qwen3Weights::<'artifact>::execution,
            (weights, max_context),
            execution,
        ),
        call_ensures(
            Qwen3BodyWeights::<'artifact>::execution,
            (body, max_context),
            direct,
        ),
    ensures
        execution is Ok <==> 0 < max_context <= weights.spec_body().spec_layout().context,
        execution matches Ok(execution) ==> execution.spec_body() == weights.spec_body()
            && execution.spec_max_context() == max_context,
        direct is Ok <==> 0 < max_context <= body.spec_layout().context,
        direct matches Ok(direct) ==> direct.spec_body() == *body && direct.spec_max_context()
            == max_context,
{
}

/// The widths that weights report are those of their artifact's geometry.
pub proof fn law_reported_widths(
    weights: &Qwen3Weights<'_>,
    rank: &Qwen3RankWeights<'_>,
    body: &Qwen3BodyWeights<'_>,
    hidden: (usize, usize, usize),
    context: (usize, usize, usize),
)
    requires
        call_ensures(Qwen3Weights::hidden_width, (weights,), hidden.0),
        call_ensures(Qwen3RankWeights::hidden_width, (rank,), hidden.1),
        call_ensures(Qwen3BodyWeights::hidden_width, (body,), hidden.2),
        call_ensures(Qwen3Weights::max_context, (weights,), context.0),
        call_ensures(Qwen3RankWeights::max_context, (rank,), context.1),
        call_ensures(Qwen3BodyWeights::max_context, (body,), context.2),
    ensures
        hidden.0 == weights.spec_body().spec_layout().hidden,
        hidden.1 == rank.spec_body().spec_layout().hidden,
        hidden.2 == body.spec_layout().hidden,
        context.0 == weights.spec_body().spec_layout().context,
        context.1 == rank.spec_body().spec_layout().context,
        context.2 == body.spec_layout().context,
{
}

} // verus!
