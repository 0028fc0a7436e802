//! Laws of the tensor inventories: which roles a block has, how many tensors there are,
//! and how a name is taken apart.

use crate::error::Error;
use crate::gguf::TensorDescriptor;
use crate::laws::execution::{lemma_marked, marked};
use crate::qwen35::Dimensions;
use crate::qwen35_inventory;
use crate::qwen35_inventory::{
    common_block_templates, copy_dims, full_attention_templates, global_templates,
    nextn_extension_templates, recurrent_templates, same_dims, validate_tensor_inventory,
    FullAttentionShapes, RecurrentShapes, TensorTemplate,
};
use crate::qwen3::{Layout, Qwen3Profile};
use crate::qwen3_inventory;
use crate::qwen3_inventory::{
    block_roles, find_role, global_roles, role_for_name, split_block_name, Role, Shape,
};
use crate::text;
use vstd::prelude::*;

verus! {

/// Whether a list of templates names a role.
pub open spec fn lists(templates: Seq<TensorTemplate>, role: Seq<char>) -> bool {
    exists|i: int| 0 <= i < templates.len() && (#[trigger] templates[i]).role@ == role
}

/// The roles of Qwen3.5 blocks and of the tensors outside them, by name and number.
pub proof fn law_block_roles(
    outer: Vec<TensorTemplate>,
    common: Vec<TensorTemplate>,
    full: Vec<TensorTemplate>,
    recurrent: Vec<TensorTemplate>,
    nextn: Vec<TensorTemplate>,
)
    requires
        call_ensures(global_templates, (), outer),
        call_ensures(common_block_templates, (), common),
        call_ensures(full_attention_templates, (), full),
        call_ensures(recurrent_templates, (), recurrent),
        call_ensures(nextn_extension_templates, (), nextn),
    ensures
        outer@.len() == 3 && common@.len() == 5 && full@.len() == 6 && recurrent@.len() == 9
            && nextn@.len() == 4,
        lists(outer@, "token_embd.weight"@),
        lists(outer@, "output_norm.weight"@),
        lists(outer@, "output.weight"@),
        lists(common@, "attn_norm.weight"@),
        lists(common@, "post_attention_norm.weight"@),
        lists(common@, "ffn_gate.weight"@),
        lists(common@, "ffn_up.weight"@),
        lists(common@, "ffn_down.weight"@),
        lists(full@, "attn_q.weight"@),
        lists(full@, "attn_k.weight"@),
        lists(full@, "attn_v.weight"@),
        lists(full@, "attn_output.weight"@),
        lists(full@, "attn_q_norm.weight"@),
        lists(full@, "attn_k_norm.weight"@),
        lists(recurrent@, "attn_qkv.weight"@),
        lists(recurrent@, "attn_gate.weight"@),
        lists(recurrent@, "ssm_a"@),
        lists(recurrent@, "ssm_alpha.weight"@),
        lists(recurrent@, "ssm_beta.weight"@),
        lists(recurrent@, "ssm_conv1d.weight"@),
        lists(recurrent@, "ssm_dt.bias"@),
        lists(recurrent@, "ssm_norm.weight"@),
        lists(recurrent@, "ssm_out.weight"@),
        lists(nextn@, "nextn.eh_proj.weight"@),
        lists(nextn@, "nextn.enorm.weight"@),
        lists(nextn@, "nextn.hnorm.weight"@),
        lists(nextn@, "nextn.shared_head_norm.weight"@),
{
    assert(outer@[0].role@ == "token_embd.weight"@);
    assert(outer@[1].role@ == "output_norm.weight"@);
    assert(outer@[2].role@ == "output.weight"@);
    assert(common@[0].role@ == "attn_norm.weight"@);
    assert(common@[1].role@ == "ffn_down.weight"@);
    assert(common@[2].role@ == "ffn_gate.weight"@);
    assert(common@[3].role@ == "ffn_up.weight"@);
    assert(common@[4].role@ == "post_attention_norm.weight"@);
    assert(full@[0].role@ == "attn_k.weight"@);
    assert(full@[1].role@ == "attn_k_norm.weight"@);
    assert(full@[2].role@ == "attn_output.weight"@);
    assert(full@[3].role@ == "attn_q.weight"@);
    assert(full@[4].role@ == "attn_q_norm.weight"@);
    assert(full@[5].role@ == "attn_v.weight"@);
    assert(recurrent@[0].role@ == "attn_gate.weight"@);
    assert(recurrent@[1].role@ == "attn_qkv.weight"@);
    assert(recurrent@[2].role@ == "ssm_a"@);
    assert(recurrent@[3].role@ == "ssm_alpha.weight"@);
    assert(recurrent@[4].role@ == "ssm_beta.weight"@);
    assert(recurrent@[5].role@ == "ssm_conv1d.weight"@);
    assert(recurrent@[6].role@ == "ssm_dt.bias"@);
    assert(recurrent@[7].role@ == "ssm_norm.weight"@);
    assert(recurrent@[8].role@ == "ssm_out.weight"@);
    assert(nextn@[0].role@ == "nextn.eh_proj.weight"@);
    assert(nextn@[1].role@ == "nextn.enorm.weight"@);
    assert(nextn@[2].role@ == "nextn.hnorm.weight"@);
    assert(nextn@[3].role@ == "nextn.shared_head_norm.weight"@);
}

/// Every interval-th main block attends fully and is counted as such; a full-attention
/// block stores its common and attention roles, a recurrent one its common and recurrent
/// roles, and a block behind the main ones four roles more than full attention.
pub proof fn law_blocks_are_counted(
    dimensions: &Dimensions,
    full: u64,
    recurrent: u64,
    block: u64,
    is_full: bool,
    counted: u64,
)
    requires
        dimensions.full_attention_interval > 0,
        block < u64::MAX,
        call_ensures(Dimensions::full_attention_count, (dimensions,), full),
        call_ensures(Dimensions::recurrent_count, (dimensions,), recurrent),
        call_ensures(Dimensions::full_attention_block, (dimensions, block), is_full),
        call_ensures(
            Dimensions::expected_tensor_count,
            (dimensions,),
            Ok::<u64, Error>(counted),
        ),
    ensures
        full == marked(
            dimensions.full_attention_interval as int,
            dimensions.main_block_count as nat,
        ),
        full + recurrent == dimensions.main_block_count,
        is_full <==> (block + 1) % (dimensions.full_attention_interval as int) == 0,
        counted == 3 + full * (5 + 6) + recurrent * (5 + 9) + dimensions.nextn_block_count * (5 + 6
            + 4),
{
    lemma_marked(
        dimensions.full_attention_interval as int,
        dimensions.main_block_count as nat,
    );
}

/// The projection widths of attention and of recurrence in terms of the dimensions.
pub proof fn law_projection_widths(
    dimensions: &Dimensions,
    full: FullAttentionShapes,
    recurrent: RecurrentShapes,
)
    requires
        call_ensures(
            Dimensions::full_attention_shapes,
            (dimensions,),
            Ok::<FullAttentionShapes, Error>(full),
        ),
        call_ensures(
            Dimensions::recurrent_shapes,
            (dimensions,),
            Ok::<RecurrentShapes, Error>(recurrent),
        ),
    ensures
        full.output == dimensions.heads * dimensions.key_width,
        full.query == full.output + full.output,
        full.key == dimensions.key_value_heads * dimensions.key_width,
        full.value == dimensions.key_value_heads * dimensions.value_width,
        recurrent.conv_width == dimensions.state * dimensions.group_count + dimensions.state
            * dimensions.group_count + dimensions.inner,
        recurrent.head_width == dimensions.inner / dimensions.time_step_rank,
{
}

/// An admitted list of tensors names none twice.
pub proof fn law_no_tensor_twice(
    dimensions: &Dimensions,
    tensors: &[TensorDescriptor],
    i: int,
    j: int,
)
    requires
        call_ensures(
            validate_tensor_inventory,
            (dimensions, tensors),
            Ok::<(), Error>(()),
        ),
        0 <= i < j < tensors@.len(),
    ensures
        tensors@[i].name@ != tensors@[j].name@,
{
    assert(qwen35_inventory::matches_entry(
        qwen35_inventory::rendered(*dimensions, qwen35_inventory::slots(*dimensions)),
        tensors@,
        j,
    ));
    assert(!qwen35_inventory::repeats(tensors@, j));
}

/// Two shapes are the same exactly where they have the same extents in order, and a copy
/// is the same.
pub proof fn law_shapes_compare(left: &[u64], right: &[u64], same: bool, copy: Vec<u64>)
    requires
        call_ensures(same_dims, (left, right), same),
        call_ensures(copy_dims, (left,), copy),
    ensures
        same <==> left@.len() == right@.len() && forall|i: int|
            0 <= i < left@.len() ==> #[trigger] left@[i] == right@[i],
        copy@.len() == left@.len(),
        forall|i: int| 0 <= i < left@.len() ==> #[trigger] copy@[i] == left@[i],
{
    if left@.len() == right@.len() && forall|i: int|
        0 <= i < left@.len() ==> #[trigger] left@[i] == right@[i] {
        assert(left@ =~= right@);
    }
}

/// The dimensions of a Qwen3 shape: first the width of the rows that a matrix is applied
/// to, then the width of the rows that it gives.
pub proof fn law_qwen3_shapes(shape: Shape, layout: Layout, dims: Result<Vec<u64>, Error>)
    requires
        call_ensures(Shape::dimensions, (shape, layout), dims),
    ensures
        dims matches Ok(dims) && match shape {
            Shape::HiddenVocabulary => dims@
                == seq![layout.hidden as u64, layout.vocabulary as u64],
            Shape::Hidden => dims@ == seq![layout.hidden as u64],
            Shape::Head => dims@ == seq![layout.head_dim as u64],
            Shape::HiddenQuery => dims@ == seq![layout.hidden as u64, layout.q_width as u64],
            Shape::HiddenKeyValue => dims@ == seq![layout.hidden as u64, layout.kv_width as u64],
            Shape::QueryHidden => dims@ == seq![layout.q_width as u64, layout.hidden as u64],
            Shape::HiddenFeedForward => dims@ == seq![
                layout.hidden as u64,
                layout.feed_forward as u64,
            ],
            Shape::FeedForwardHidden => dims@ == seq![
                layout.feed_forward as u64,
                layout.hidden as u64,
            ],
            Shape::HiddenRankLabels => dims@ == seq![layout.hidden as u64, 2u64],
        },
{
}

/// Whether a list of roles has one of a name and a shape.
pub open spec fn has_role(roles: Seq<Role>, name: Seq<char>, shape: Shape) -> bool {
    exists|i: int|
        0 <= i < roles.len() && (#[trigger] roles[i]).name@ == name && roles[i].shape == shape
}

/// The roles of Qwen3 blocks, of the tensors outside them, and of the rank profile.
pub proof fn law_qwen3_roles(
    outer: Vec<Role>,
    block: Vec<Role>,
    embedding: Vec<Role>,
    rank: Vec<Role>,
)
    requires
        call_ensures(global_roles, (), outer),
        call_ensures(block_roles, (), block),
        call_ensures(Qwen3Profile::profile_roles, (Qwen3Profile::Embedding,), embedding),
        call_ensures(Qwen3Profile::profile_roles, (Qwen3Profile::Rank,), rank),
    ensures
        outer@.len() == 2 && block@.len() == 11 && embedding@.len() == 0 && rank@.len() == 1,
        has_role(outer@, "token_embd.weight"@, Shape::HiddenVocabulary),
        has_role(outer@, "output_norm.weight"@, Shape::Hidden),
        has_role(rank@, "cls.output.weight"@, Shape::HiddenRankLabels),
        has_role(block@, "attn_norm.weight"@, Shape::Hidden),
        has_role(block@, "ffn_norm.weight"@, Shape::Hidden),
        has_role(block@, "attn_q_norm.weight"@, Shape::Head),
        has_role(block@, "attn_k_norm.weight"@, Shape::Head),
        has_role(block@, "attn_q.weight"@, Shape::HiddenQuery),
        has_role(block@, "attn_k.weight"@, Shape::HiddenKeyValue),
        has_role(block@, "attn_v.weight"@, Shape::HiddenKeyValue),
        has_role(block@, "attn_output.weight"@, Shape::QueryHidden),
        has_role(block@, "ffn_gate.weight"@, Shape::HiddenFeedForward),
        has_role(block@, "ffn_up.weight"@, Shape::HiddenFeedForward),
        has_role(block@, "ffn_down.weight"@, Shape::FeedForwardHidden),
{
    assert(outer@[0].name@ == "token_embd.weight"@);
    assert(outer@[1].name@ == "output_norm.weight"@);
    assert(rank@[0].name@ == "cls.output.weight"@);
    assert(block@[0].name@ == "attn_norm.weight"@);
    assert(block@[1].name@ == "attn_q_norm.weight"@);
    assert(block@[2].name@ == "attn_k_norm.weight"@);
    assert(block@[3].name@ == "ffn_norm.weight"@);
    assert(block@[4].name@ == "attn_q.weight"@);
    assert(block@[5].name@ == "attn_k.weight"@);
    assert(block@[6].name@ == "attn_v.weight"@);
    assert(block@[7].name@ == "attn_output.weight"@);
    assert(block@[8].name@ == "ffn_gate.weight"@);
    assert(block@[9].name@ == "ffn_up.weight"@);
    assert(block@[10].name@ == "ffn_down.weight"@);
}

/// Whether entry `i` of a list is the first role of a name.
pub open spec fn first_role(roles: Seq<Role>, name: Seq<char>, i: int, role: Role) -> bool {
    &&& 0 <= i < roles.len()
    &&& roles[i] == role && role.name@ == name
    &&& forall|j: int| 0 <= j < i ==> (#[trigger] roles[j]).name@ != name
}

proof fn lemma_named(roles: Seq<Role>, name: Seq<char>)
    ensures
        match qwen3_inventory::named_role(roles, name) {
            Some(role) => exists|i: int| #[trigger] first_role(roles, name, i, role),
            None => forall|i: int| 0 <= i < roles.len() ==> (#[trigger] roles[i]).name@ != name,
        },
    decreases roles.len(),
{
    if roles.len() > 0 {
        if roles[0].name@ == name {
            assert(first_role(roles, name, 0, roles[0]));
        } else {
            let rest = roles.drop_first();
            lemma_named(rest, name);
            match qwen3_inventory::named_role(rest, name) {
                Some(role) => {
                    let i = choose|i: int| #[trigger] first_role(rest, name, i, role);
                    assert(roles[i + 1] == role);
                    assert forall|j: int| 0 <= j < i + 1 implies (#[trigger] roles[j]).name@
                        != name by {
                        if j > 0 {
                            assert(rest[j - 1] == roles[j]);
                        }
                    }
                    assert(first_role(roles, name, i + 1, role));
                },
                None => {
                    assert forall|i: int| 0 <= i < roles.len() implies (
                    #[trigger] roles[i]).name@ != name by {
                        if i > 0 {
                            assert(rest[i - 1] == roles[i]);
                        }
                    }
                },
            }
        }
    }
}

/// A role that is found is the first of its name in the list; none is found exactly where
/// no role has the name.
pub proof fn law_roles_are_found(roles: &[Role], name: &str, role: Option<Role>)
    requires
        call_ensures(find_role, (roles, name), role),
    ensures
        role matches Some(role) ==> exists|i: int| #[trigger] first_role(roles@, name@, i, role),
        role is None ==> forall|i: int|
            0 <= i < roles@.len() ==> (#[trigger] roles@[i]).name@ != name@,
{
    lemma_named(roles@, name@);
}

/// The name of a block's tensor is taken apart into the digits of its block and its role.
pub proof fn law_names_are_taken_apart(
    name: &str,
    block: nat,
    role: Seq<char>,
    parts: Option<(&str, &str)>,
)
    requires
        call_ensures(split_block_name, (name,), parts),
        name@ == "blk."@ + text::decimal(block) + "."@ + role,
    ensures
        parts matches Some((number, rest)) && number@ == text::decimal(block) && rest@ == role,
{
    qwen3_inventory::lemma_block_parts(block, role);
}

/// A text that does not begin with the block prefix names no block.
pub proof fn law_other_names(name: &str, parts: Option<(&str, &str)>)
    requires
        call_ensures(split_block_name, (name,), parts),
        name@.len() < 4 || name@[0] != 'b' || name@[1] != 'l' || name@[2] != 'k' || name@[3] != '.',
    ensures
        parts is None,
{
    reveal_strlit("blk.");
    if name@.len() >= 4 {
        assert(name@.take(4)[0] == name@[0] && name@.take(4)[1] == name@[1] && name@.take(4)[2]
            == name@[2] && name@.take(4)[3] == name@[3]);
    }
}

/// A block tensor has its role exactly while its block is stored.
pub proof fn law_block_tensors_have_roles(
    name: &str,
    blocks: usize,
    roles: &[Role],
    profile: Qwen3Profile,
    listed: Vec<Role>,
    block: usize,
    r: int,
    role: Option<Role>,
)
    requires
        roles@ == qwen3_inventory::profile_roles_spec(profile),
        call_ensures(role_for_name, (name, blocks, roles), role),
        call_ensures(block_roles, (), listed),
        0 <= r < listed@.len(),
        name@ == "blk."@ + text::decimal(block as nat) + "."@ + listed@[r].name@,
    ensures
        block < blocks ==> role == Some(listed@[r]),
        block >= blocks ==> role is None,
{
    if block < blocks {
        qwen3_inventory::lemma_block_role(profile, blocks, block, r);
    } else {
        let outer = qwen3_inventory::global_roles_spec();
        reveal_strlit("blk.");
        reveal_strlit("token_embd.weight");
        reveal_strlit("output_norm.weight");
        reveal_strlit("cls.output.weight");
        assert(name@[0] == 'b');
        assert("token_embd.weight"@[0] == 't');
        assert("output_norm.weight"@[0] == 'o');
        assert("cls.output.weight"@[0] == 'c');
        lemma_named(outer, name@);
        lemma_named(roles@, name@);
        assert forall|i: int| 0 <= i < outer.len() implies (#[trigger] outer[i]).name@ != name@ by {
            assert(outer[i].name@[0] != 'b');
        }
        assert forall|i: int| 0 <= i < roles@.len() implies (#[trigger] roles@[i]).name@
            != name@ by {
            assert(roles@[i].name@[0] != 'b');
        }
        qwen3_inventory::lemma_block_parts(block as nat, listed@[r].name@);
        text::lemma_decimal_parses(block);
    }
}

} // verus!
