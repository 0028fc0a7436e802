//! The bounded Qwen3 tensor roles and the strict inventory check.

use crate::error::Error;
use crate::gguf::{GgmlType, TensorDescriptor};
use crate::qwen3::{
    block_name, u64_from, Layout, Qwen3Profile, OUTPUT_NORM, RANK_HEAD, RANK_LABEL_COUNT,
    TOKEN_EMBEDDING,
};
use crate::qwen35_inventory::same_dims;
use crate::text;
use crate::text::{parse_usize, same_text};
use vstd::prelude::*;
use vstd::string::StrSliceExecFns;

verus! {

/// A tensor shape, symbolic in the checked geometry.
#[derive(Clone, Copy, Debug, PartialEq, Eq, Structural)]
pub enum Shape {
    HiddenVocabulary,
    Hidden,
    Head,
    HiddenQuery,
    HiddenKeyValue,
    QueryHidden,
    HiddenFeedForward,
    FeedForwardHidden,
    HiddenRankLabels,
}

/// Which storage types a role admits.
#[derive(Clone, Copy, Debug, PartialEq, Eq, Structural)]
pub enum Storage {
    F32Vector,
    F32OrQ8Matrix,
}

/// One recognized tensor role.
#[derive(Clone, Copy, Debug)]
pub struct Role {
    pub name: &'static str,
    pub shape: Shape,
    pub storage: Storage,
}

/// The number of roles every profile has outside its blocks.
pub const GLOBAL_ROLE_COUNT: usize = 2;

/// The number of roles in each block.
pub const BLOCK_ROLE_COUNT: usize = 11;

impl Shape {
    /// The dimensions of the shape, outermost last.
    pub open spec fn dims(self, layout: Layout) -> Seq<u64> {
        let hidden = layout.hidden as u64;
        match self {
            Shape::HiddenVocabulary => seq![hidden, layout.vocabulary as u64],
            Shape::Hidden => seq![hidden],
            Shape::Head => seq![layout.head_dim as u64],
            Shape::HiddenQuery => seq![hidden, layout.q_width as u64],
            Shape::HiddenKeyValue => seq![hidden, layout.kv_width as u64],
            Shape::QueryHidden => seq![layout.q_width as u64, hidden],
            Shape::HiddenFeedForward => seq![hidden, layout.feed_forward as u64],
            Shape::FeedForwardHidden => seq![layout.feed_forward as u64, hidden],
            Shape::HiddenRankLabels => seq![hidden, 2u64],
        }
    }

    /// Derive the dimensions of the shape.
    pub fn dimensions(self, layout: Layout) -> (dims: Result<Vec<u64>, Error>)
        ensures
            dims matches Ok(dims) && dims@ == self.dims(layout),
    {
        let hidden: u64 = u64_from(layout.hidden)?;
        let vocabulary: u64 = u64_from(layout.vocabulary)?;
        let head: u64 = u64_from(layout.head_dim)?;
        let query: u64 = u64_from(layout.q_width)?;
        let key_value: u64 = u64_from(layout.kv_width)?;
        let feed_forward: u64 = u64_from(layout.feed_forward)?;
        let dims: Vec<u64> = match self {
            Shape::HiddenVocabulary => vec![hidden, vocabulary],
            Shape::Hidden => vec![hidden],
            Shape::Head => vec![head],
            Shape::HiddenQuery => vec![hidden, query],
            Shape::HiddenKeyValue => vec![hidden, key_value],
            Shape::QueryHidden => vec![query, hidden],
            Shape::HiddenFeedForward => vec![hidden, feed_forward],
            Shape::FeedForwardHidden => vec![feed_forward, hidden],
            Shape::HiddenRankLabels => vec![hidden, u64_from(RANK_LABEL_COUNT)?],
        };
        assert(dims@ =~= self.dims(layout));
        Ok(dims)
    }
}

/// A role that is a matrix.
pub open spec fn matrix_role(name: &'static str, shape: Shape) -> Role {
    Role { name, shape, storage: Storage::F32OrQ8Matrix }
}

/// A role that is a normalization vector.
pub open spec fn vector_role(name: &'static str, shape: Shape) -> Role {
    Role { name, shape, storage: Storage::F32Vector }
}

/// The roles every profile has outside its blocks.
pub open spec fn global_roles_spec() -> Seq<Role> {
    seq![
        matrix_role(TOKEN_EMBEDDING, Shape::HiddenVocabulary),
        vector_role(OUTPUT_NORM, Shape::Hidden),
    ]
}

/// The roles of each block.
pub open spec fn block_roles_spec() -> Seq<Role> {
    seq![
        vector_role("attn_norm.weight", Shape::Hidden),
        vector_role("attn_q_norm.weight", Shape::Head),
        vector_role("attn_k_norm.weight", Shape::Head),
        vector_role("ffn_norm.weight", Shape::Hidden),
        matrix_role("attn_q.weight", Shape::HiddenQuery),
        matrix_role("attn_k.weight", Shape::HiddenKeyValue),
        matrix_role("attn_v.weight", Shape::HiddenKeyValue),
        matrix_role("attn_output.weight", Shape::QueryHidden),
        matrix_role("ffn_gate.weight", Shape::HiddenFeedForward),
        matrix_role("ffn_up.weight", Shape::HiddenFeedForward),
        matrix_role("ffn_down.weight", Shape::FeedForwardHidden),
    ]
}

/// The roles that a profile adds.
pub open spec fn profile_roles_spec(profile: Qwen3Profile) -> Seq<Role> {
    match profile {
        Qwen3Profile::Embedding => seq![],
        Qwen3Profile::Rank => seq![matrix_role(RANK_HEAD, Shape::HiddenRankLabels)],
    }
}

fn matrix(name: &'static str, shape: Shape) -> (role: Role)
    ensures
        role == matrix_role(name, shape),
{
    Role { name, shape, storage: Storage::F32OrQ8Matrix }
}

fn vector(name: &'static str, shape: Shape) -> (role: Role)
    ensures
        role == vector_role(name, shape),
{
    Role { name, shape, storage: Storage::F32Vector }
}

/// List the roles every profile has outside its blocks.
pub fn global_roles() -> (roles: Vec<Role>)
    ensures
        roles@ == global_roles_spec(),
{
    let roles: Vec<Role> = vec![
        matrix(TOKEN_EMBEDDING, Shape::HiddenVocabulary),
        vector(OUTPUT_NORM, Shape::Hidden),
    ];
    assert(roles@ =~= global_roles_spec());
    roles
}

/// List the roles of each block.
pub fn block_roles() -> (roles: Vec<Role>)
    ensures
        roles@ == block_roles_spec(),
{
    let roles: Vec<Role> = vec![
        vector("attn_norm.weight", Shape::Hidden),
        vector("attn_q_norm.weight", Shape::Head),
        vector("attn_k_norm.weight", Shape::Head),
        vector("ffn_norm.weight", Shape::Hidden),
        matrix("attn_q.weight", Shape::HiddenQuery),
        matrix("attn_k.weight", Shape::HiddenKeyValue),
        matrix("attn_v.weight", Shape::HiddenKeyValue),
        matrix("attn_output.weight", Shape::QueryHidden),
        matrix("ffn_gate.weight", Shape::HiddenFeedForward),
        matrix("ffn_up.weight", Shape::HiddenFeedForward),
        matrix("ffn_down.weight", Shape::FeedForwardHidden),
    ];
    assert(roles@ =~= block_roles_spec());
    roles
}

impl Qwen3Profile {
    /// List the roles that the profile adds.
    pub fn profile_roles(self) -> (roles: Vec<Role>)
        ensures
            roles@ == profile_roles_spec(self),
    {
        let roles: Vec<Role> = match self {
            Qwen3Profile::Embedding => Vec::new(),
            Qwen3Profile::Rank => vec![matrix(RANK_HEAD, Shape::HiddenRankLabels)],
        };
        assert(roles@ =~= profile_roles_spec(self));
        roles
    }
}

/// The first role of a name.
pub open spec fn named_role(roles: Seq<Role>, name: Seq<char>) -> Option<Role>
    decreases roles.len(),
{
    if roles.len() == 0 {
        None
    } else if roles[0].name@ == name {
        Some(roles[0])
    } else {
        named_role(roles.drop_first(), name)
    }
}

/// Find the first role of a name.
pub fn find_role(roles: &[Role], name: &str) -> (role: Option<Role>)
    ensures
        role == named_role(roles@, name@),
{
    let mut i: usize = 0;
    assert(roles@.skip(0) =~= roles@);
    while i < roles.len()
        invariant
            0 <= i <= roles@.len(),
            named_role(roles@.skip(i as int), name@) == named_role(roles@, name@),
        decreases roles@.len() - i,
    {
        if same_text(roles[i].name, name) {
            return Some(roles[i]);
        }
        assert(roles@.skip(i as int).drop_first() =~= roles@.skip(i + 1));
        i = i + 1;
    }
    None
}

/// Whether a position holds the first dot of a text.
pub open spec fn first_dot(rest: Seq<char>, dot: int) -> bool {
    &&& 0 <= dot < rest.len()
    &&& rest[dot] == '.'
    &&& forall|i: int| 0 <= i < dot ==> #[trigger] rest[i] != '.'
}

/// The block number and the role name of a block tensor name: what follows
/// `blk.`, divided at its first dot.
pub open spec fn block_parts(name: Seq<char>) -> Option<(Seq<char>, Seq<char>)> {
    if name.len() >= 4 && name.take(4) == "blk."@ && exists|dot: int| first_dot(name.skip(4), dot) {
        let dot = choose|dot: int| first_dot(name.skip(4), dot);
        Some((name.skip(4).take(dot), name.skip(4).skip(dot + 1)))
    } else {
        None
    }
}

/// Divide a block tensor name into its block number and its role name.
pub fn split_block_name(name: &str) -> (parts: Option<(&str, &str)>)
    ensures
        match parts {
            Some((block, role)) => block_parts(name@) == Some((block@, role@)),
            None => block_parts(name@) is None,
        },
{
    let length: usize = name.unicode_len();
    if length < 4 || !same_text(name.substring_char(0, 4), "blk.") {
        assert(name@.len() >= 4 ==> name@.subrange(0, 4) =~= name@.take(4));
        return None;
    }
    assert(name@.subrange(0, 4) =~= name@.take(4));
    let ghost rest = name@.skip(4);
    let mut dot: usize = 4;
    while dot < length
        invariant
            4 <= dot <= length,
            length == name@.len(),
            rest == name@.skip(4),
            forall|i: int| 0 <= i < dot - 4 ==> #[trigger] rest[i] != '.',
            name@.len() >= 4,
            name@.take(4) == "blk."@,
        decreases length - dot,
    {
        if name.get_char(dot) == '.' {
            let block = name.substring_char(4, dot);
            let role = name.substring_char(dot + 1, length);
            proof {
                assert(first_dot(rest, dot - 4));
                let chosen = choose|dot: int| first_dot(rest, dot);
                assert(chosen == dot - 4) by {
                    if chosen < dot - 4 {
                        assert(rest[chosen] != '.');
                    }
                    if chosen > dot - 4 {
                        assert(rest[dot - 4] != '.');
                    }
                }
                assert(block@ =~= rest.take(dot - 4));
                assert(role@ =~= rest.skip(dot - 4 + 1));
            }
            return Some((block, role));
        }
        dot = dot + 1;
    }
    None
}

/// The role of a tensor name: a global role, a profile role, or a role of one of
/// the artifact's blocks.
pub open spec fn role_of(name: Seq<char>, blocks: usize, profile_roles: Seq<Role>) -> Option<Role> {
    if let Some(role) = named_role(global_roles_spec(), name) {
        Some(role)
    } else if let Some(role) = named_role(profile_roles, name) {
        Some(role)
    } else if let Some((block, role)) = block_parts(name) {
        match text::parsed_usize(block) {
            Some(block) => if block < blocks {
                named_role(block_roles_spec(), role)
            } else {
                None
            },
            None => None,
        }
    } else {
        None
    }
}

/// Find the role of a tensor name.
pub fn role_for_name(name: &str, blocks: usize, profile_roles: &[Role]) -> (role: Option<Role>)
    ensures
        role == role_of(name@, blocks, profile_roles@),
{
    if let Some(role) = find_role(global_roles().as_slice(), name) {
        return Some(role);
    }
    if let Some(role) = find_role(profile_roles, name) {
        return Some(role);
    }
    let (block, role_name) = split_block_name(name)?;
    let block: usize = parse_usize(block)?;
    if block >= blocks {
        return None;
    }
    find_role(block_roles().as_slice(), role_name)
}

/// Whether an earlier tensor has the name of tensor `i`.
pub open spec fn repeated(tensors: Seq<TensorDescriptor>, i: int) -> bool {
    exists|j: int| 0 <= j < i && (#[trigger] tensors[j]).name@ == tensors[i].name@
}

/// Which rule a storage type breaks, if it breaks one.
pub open spec fn storage_rule(storage: Storage, ggml_type: GgmlType) -> Option<&'static str> {
    match storage {
        Storage::F32Vector => if ggml_type != GgmlType::F32 {
            Some("normalization vectors must use F32")
        } else {
            None
        },
        Storage::F32OrQ8Matrix => if ggml_type != GgmlType::F32 && ggml_type != GgmlType::Q8_0 {
            Some("matrices must use the bounded F32 or Q8_0 executable storage")
        } else {
            None
        },
    }
}

/// Which rule tensor `i` breaks, if it breaks one.
pub open spec fn tensor_rule(
    tensors: Seq<TensorDescriptor>,
    layout: Layout,
    profile_roles: Seq<Role>,
    i: int,
) -> Option<&'static str> {
    match role_of(tensors[i].name@, layout.blocks, profile_roles) {
        None => Some("is outside the bounded profile role inventory"),
        Some(role) => if repeated(tensors, i) {
            Some("must not occur more than once")
        } else if tensors[i].dims@ != role.shape.dims(layout) {
            Some("shape must derive from checked architecture metadata")
        } else {
            storage_rule(role.storage, tensors[i].ggml_type)
        },
    }
}

/// The number of tensors that a profile has.
pub open spec fn inventory_count(layout: Layout, profile_roles: Seq<Role>) -> int {
    layout.blocks * 11 + 2 + profile_roles.len()
}

/// The name of required tensor `k`: the global roles come first, then those of
/// the profile, then those of each block in turn.
pub open spec fn required_name(profile_roles: Seq<Role>, k: int) -> Seq<char> {
    let outer = 2 + profile_roles.len();
    if k < 2 {
        global_roles_spec()[k].name@
    } else if k < outer {
        profile_roles[k - 2].name@
    } else {
        text::block_name_spec(
            ((k - outer) / 11) as nat,
            block_roles_spec()[(k - outer) % 11].name@,
        )
    }
}

/// The rule that required tensor `k` breaks by being absent.
pub open spec fn required_rule(profile_roles: Seq<Role>, k: int) -> &'static str {
    if 2 <= k < 2 + profile_roles.len() {
        "is required by the bounded Qwen3 profile"
    } else {
        "is required by the bounded profile"
    }
}

/// Whether a tensor of a name is present.
pub open spec fn present(tensors: Seq<TensorDescriptor>, name: Seq<char>) -> bool {
    exists|i: int| 0 <= i < tensors.len() && (#[trigger] tensors[i]).name@ == name
}

/// Whether required tensor `k` is the first absent one.
pub open spec fn first_absent(
    tensors: Seq<TensorDescriptor>,
    layout: Layout,
    profile_roles: Seq<Role>,
    k: int,
) -> bool {
    &&& 0 <= k < inventory_count(layout, profile_roles)
    &&& !present(tensors, required_name(profile_roles, k))
    &&& forall|j: int|
        0 <= j < k ==> present(tensors, #[trigger] required_name(profile_roles, j))
}

/// Whether tensor `i` is the first that breaks a rule.
pub open spec fn first_breaking(
    tensors: Seq<TensorDescriptor>,
    layout: Layout,
    profile_roles: Seq<Role>,
    i: int,
) -> bool {
    &&& 0 <= i < tensors.len()
    &&& tensor_rule(tensors, layout, profile_roles, i) is Some
    &&& forall|j: int|
        0 <= j < i ==> #[trigger] tensor_rule(tensors, layout, profile_roles, j) is None
}

/// Whether no tensor breaks a rule.
pub open spec fn none_breaking(
    tensors: Seq<TensorDescriptor>,
    layout: Layout,
    profile_roles: Seq<Role>,
) -> bool {
    forall|i: int|
        0 <= i < tensors.len() ==> #[trigger] tensor_rule(tensors, layout, profile_roles, i) is None
}

/// Whether an error names a tensor and the rule it breaks.
pub open spec fn tensor_error(error: Error, name: Seq<char>, rule: &'static str) -> bool {
    error matches Error::Qwen3Tensor { name: named, rule: broken } && named@ == name && broken
        == rule
}

/// Whether an inventory is admitted: it has as many tensors as the profile, each
/// has a role, its shape and its storage, and each required tensor is present.
pub open spec fn inventory_admitted(
    tensors: Seq<TensorDescriptor>,
    layout: Layout,
    profile_roles: Seq<Role>,
) -> bool {
    &&& tensors.len() == inventory_count(layout, profile_roles)
    &&& none_breaking(tensors, layout, profile_roles)
    &&& forall|k: int|
        0 <= k < inventory_count(layout, profile_roles) ==> present(
            tensors,
            #[trigger] required_name(profile_roles, k),
        )
}

/// Whether an inventory is refused with an error: the first check that fails, in
/// the order count, tensors, required names.
pub open spec fn inventory_refused(
    tensors: Seq<TensorDescriptor>,
    layout: Layout,
    profile_roles: Seq<Role>,
    error: Error,
) -> bool {
    let count = inventory_count(layout, profile_roles);
    if count > usize::MAX {
        error == (Error::Qwen3Execution {
            requested: layout.blocks,
            rule: "tensor inventory count overflowed",
        })
    } else if tensors.len() != count {
        tensor_error(
            error,
            "inventory"@,
            "must have exactly the metadata-derived bounded role count",
        )
    } else {
        ||| exists|i: int| #[trigger]
            first_breaking(tensors, layout, profile_roles, i) && tensor_error(
                error,
                tensors[i].name@,
                tensor_rule(tensors, layout, profile_roles, i)->0,
            )
        ||| {
            &&& none_breaking(tensors, layout, profile_roles)
            &&& exists|k: int| #[trigger]
                first_absent(tensors, layout, profile_roles, k) && tensor_error(
                    error,
                    required_name(profile_roles, k),
                    required_rule(profile_roles, k),
                )
        }
    }
}

/// Find the rule that a tensor breaks.
fn broken_rule(
    tensors: &[TensorDescriptor],
    layout: Layout,
    profile_roles: &[Role],
    i: usize,
) -> (rule: Option<&'static str>)
    requires
        i < tensors@.len(),
    ensures
        rule == tensor_rule(tensors@, layout, profile_roles@, i as int),
{
    let tensor = &tensors[i];
    let role = match role_for_name(tensor.name.as_str(), layout.blocks, profile_roles) {
        Some(role) => role,
        None => {
            return Some("is outside the bounded profile role inventory");
        },
    };
    if names(tensors, i, tensor.name.as_str()) {
        return Some("must not occur more than once");
    }
    let dims: Vec<u64> = match role.shape.dimensions(layout) {
        Ok(dims) => dims,
        Err(_) => Vec::new(),
    };
    if !same_dims(&tensor.dims, dims.as_slice()) {
        return Some("shape must derive from checked architecture metadata");
    }
    match role.storage {
        Storage::F32Vector => {
            if tensor.ggml_type != GgmlType::F32 {
                return Some("normalization vectors must use F32");
            }
        },
        Storage::F32OrQ8Matrix => {
            if tensor.ggml_type != GgmlType::F32 && tensor.ggml_type != GgmlType::Q8_0 {
                return Some("matrices must use the bounded F32 or Q8_0 executable storage");
            }
        },
    }
    None
}

/// Report whether one of the first `length` tensors has a name.
fn names(tensors: &[TensorDescriptor], length: usize, name: &str) -> (named: bool)
    requires
        length <= tensors@.len(),
    ensures
        named == exists|j: int| 0 <= j < length && (#[trigger] tensors@[j]).name@ == name@,
{
    let mut j: usize = 0;
    while j < length
        invariant
            0 <= j <= length <= tensors@.len(),
            forall|m: int| 0 <= m < j ==> (#[trigger] tensors@[m]).name@ != name@,
        decreases length - j,
    {
        if same_text(tensors[j].name.as_str(), name) {
            return true;
        }
        j = j + 1;
    }
    false
}

/// Require one tensor per role, each with its shape and storage.
pub fn validate_inventory(
    tensors: &[TensorDescriptor],
    layout: Layout,
    profile_roles: &[Role],
) -> (checked: Result<(), Error>)
    ensures
        match checked {
            Ok(_) => inventory_admitted(tensors@, layout, profile_roles@),
            Err(error) => {
                &&& !inventory_admitted(tensors@, layout, profile_roles@)
                &&& inventory_refused(tensors@, layout, profile_roles@, error)
            },
        },
{
    let tensor_count: usize = tensors.len();
    let profile_count: usize = profile_roles.len();
    let expected_count: usize = match layout.blocks.checked_mul(BLOCK_ROLE_COUNT) {
        Some(count) => match count.checked_add(GLOBAL_ROLE_COUNT) {
            Some(count) => match count.checked_add(profile_count) {
                Some(count) => count,
                None => {
                    return Err(count_overflowed(layout.blocks));
                },
            },
            None => {
                return Err(count_overflowed(layout.blocks));
            },
        },
        None => {
            return Err(count_overflowed(layout.blocks));
        },
    };
    if tensor_count != expected_count {
        return Err(
            Error::Qwen3Tensor {
                name: "inventory".to_owned(),
                rule: "must have exactly the metadata-derived bounded role count",
            },
        );
    }
    let mut i: usize = 0;
    while i < tensor_count
        invariant
            0 <= i <= tensor_count,
            tensor_count == tensors@.len(),
            tensor_count == inventory_count(layout, profile_roles@),
            forall|j: int|
                0 <= j < i ==> #[trigger] tensor_rule(tensors@, layout, profile_roles@, j) is None,
        decreases tensor_count - i,
    {
        if let Some(rule) = broken_rule(tensors, layout, profile_roles, i) {
            assert(first_breaking(tensors@, layout, profile_roles@, i as int));
            return Err(Error::Qwen3Tensor { name: tensors[i].name.clone(), rule });
        }
        i = i + 1;
    }
    let mut k: usize = 0;
    while k < expected_count
        invariant
            0 <= k <= expected_count,
            expected_count == inventory_count(layout, profile_roles@),
            expected_count == tensors@.len(),
            none_breaking(tensors@, layout, profile_roles@),
            forall|j: int|
                0 <= j < k ==> present(tensors@, #[trigger] required_name(profile_roles@, j)),
        decreases expected_count - k,
    {
        let (name, rule) = requirement(layout, profile_roles, k);
        if !names(tensors, expected_count, name.as_str()) {
            assert(first_absent(tensors@, layout, profile_roles@, k as int));
            return Err(Error::Qwen3Tensor { name, rule });
        }
        k = k + 1;
    }
    Ok(())
}

fn count_overflowed(blocks: usize) -> (error: Error)
    ensures
        error == (Error::Qwen3Execution {
            requested: blocks,
            rule: "tensor inventory count overflowed",
        }),
{
    Error::Qwen3Execution { requested: blocks, rule: "tensor inventory count overflowed" }
}

/// Name a required tensor and the rule that its absence breaks.
fn requirement(layout: Layout, profile_roles: &[Role], k: usize) -> (requirement: (
    String,
    &'static str,
))
    requires
        k < inventory_count(layout, profile_roles@) <= usize::MAX,
    ensures
        requirement.0@ == required_name(profile_roles@, k as int),
        requirement.1 == required_rule(profile_roles@, k as int),
{
    let profile_count: usize = profile_roles.len();
    if k < GLOBAL_ROLE_COUNT {
        (global_roles()[k].name.to_owned(), "is required by the bounded profile")
    } else if k - GLOBAL_ROLE_COUNT < profile_count {
        (
            profile_roles[k - GLOBAL_ROLE_COUNT].name.to_owned(),
            "is required by the bounded Qwen3 profile",
        )
    } else {
        let position: usize = k - GLOBAL_ROLE_COUNT - profile_count;
        let roles = block_roles();
        (
            block_name(position / BLOCK_ROLE_COUNT, roles[position % BLOCK_ROLE_COUNT].name),
            "is required by the bounded profile",
        )
    }
}

/// The length and four characters of a role name: enough to tell the roles apart.
spec fn mark(role: Seq<char>) -> (nat, char, char, char, char) {
    (role.len(), role[0], role[4], role[5], role[6])
}

proof fn lemma_role_marks()
    ensures
        mark("attn_norm.weight"@) == (16nat, 'a', '_', 'n', 'o'),
        mark("attn_q_norm.weight"@) == (18nat, 'a', '_', 'q', '_'),
        mark("attn_k_norm.weight"@) == (18nat, 'a', '_', 'k', '_'),
        mark("ffn_norm.weight"@) == (15nat, 'f', 'n', 'o', 'r'),
        mark("attn_q.weight"@) == (13nat, 'a', '_', 'q', '.'),
        mark("attn_k.weight"@) == (13nat, 'a', '_', 'k', '.'),
        mark("attn_v.weight"@) == (13nat, 'a', '_', 'v', '.'),
        mark("attn_output.weight"@) == (18nat, 'a', '_', 'o', 'u'),
        mark("ffn_gate.weight"@) == (15nat, 'f', 'g', 'a', 't'),
        mark("ffn_up.weight"@) == (13nat, 'f', 'u', 'p', '.'),
        mark("ffn_down.weight"@) == (15nat, 'f', 'd', 'o', 'w'),
        mark(TOKEN_EMBEDDING@) == (17nat, 't', 'n', '_', 'e'),
        mark(OUTPUT_NORM@) == (18nat, 'o', 'u', 't', '_'),
        mark(RANK_HEAD@) == (17nat, 'c', 'o', 'u', 't'),
{
    reveal_strlit("attn_norm.weight");
    reveal_strlit("attn_q_norm.weight");
    reveal_strlit("attn_k_norm.weight");
    reveal_strlit("ffn_norm.weight");
    reveal_strlit("attn_q.weight");
    reveal_strlit("attn_k.weight");
    reveal_strlit("attn_v.weight");
    reveal_strlit("attn_output.weight");
    reveal_strlit("ffn_gate.weight");
    reveal_strlit("ffn_up.weight");
    reveal_strlit("ffn_down.weight");
    reveal_strlit("token_embd.weight");
    reveal_strlit("output_norm.weight");
    reveal_strlit("cls.output.weight");
}

/// Whether no two roles of a list are named alike.
spec fn distinct_roles(roles: Seq<Role>) -> bool {
    forall|i: int, j: int|
        #![trigger roles[i], roles[j]]
        0 <= i < j < roles.len() ==> roles[i].name@ != roles[j].name@
}

proof fn lemma_distinct_block_roles()
    ensures
        distinct_roles(block_roles_spec()),
{
    let roles = block_roles_spec();
    lemma_role_marks();
    assert forall|i: int, j: int|
        #![trigger roles[i], roles[j]]
        0 <= i < j < roles.len() implies roles[i].name@ != roles[j].name@ by {
        if roles[i].name@ == roles[j].name@ {
            assert(mark(roles[i].name@) == mark(roles[j].name@));
        }
    }
}

/// A block tensor name starts with `b`, as no other role name does.
proof fn lemma_block_mark(block: nat, role: Seq<char>)
    ensures
        text::block_name_spec(block, role)[0] == 'b',
{
    reveal_strlit("blk.");
    assert(text::block_name_spec(block, role)[0] == "blk."@[0]);
}

/// The required names of a profile are pairwise different.
pub proof fn lemma_required_distinct(profile: Qwen3Profile, i: int, j: int)
    requires
        0 <= i < j,
    ensures
        required_name(profile_roles_spec(profile), i) != required_name(
            profile_roles_spec(profile),
            j,
        ),
{
    let roles = profile_roles_spec(profile);
    let outer = 2 + roles.len();
    let left = required_name(roles, i);
    let right = required_name(roles, j);
    lemma_role_marks();
    if j < outer {
        if left == right {
            assert(mark(left) == mark(right));
        }
    } else {
        let block_j = ((j - outer) / 11) as nat;
        let role_j = block_roles_spec()[(j - outer) % 11];
        lemma_block_mark(block_j, role_j.name@);
        if i < outer {
            assert(left[0] != 'b') by {
                assert(mark(left).1 == left[0]);
            }
        } else if left == right {
            let block_i = ((i - outer) / 11) as nat;
            let role_i = block_roles_spec()[(i - outer) % 11];
            text::lemma_block_name_injective(block_i, role_i.name@, block_j, role_j.name@);
            lemma_distinct_block_roles();
            let roles = block_roles_spec();
            let a = (i - outer) % 11;
            let b = (j - outer) % 11;
            if a < b {
                assert(roles[a].name@ != roles[b].name@);
            }
            if b < a {
                assert(roles[b].name@ != roles[a].name@);
            }
        }
    }
}

/// An admitted inventory holds no alias: the name of every tensor is a required
/// name, as the profile spells it.
pub proof fn lemma_inventory_exact(
    tensors: Seq<TensorDescriptor>,
    layout: Layout,
    profile: Qwen3Profile,
    i: int,
)
    requires
        inventory_admitted(tensors, layout, profile_roles_spec(profile)),
        0 <= i < tensors.len(),
    ensures
        exists|k: int|
            0 <= k < inventory_count(layout, profile_roles_spec(profile)) && #[trigger] required_name(
                profile_roles_spec(profile),
                k,
            ) == tensors[i].name@,
{
    let roles = profile_roles_spec(profile);
    let count = inventory_count(layout, roles) as nat;
    let required = Seq::new(count, |k: int| required_name(roles, k));
    let observed = Seq::new(tensors.len(), |m: int| tensors[m].name@);
    assert(required.no_duplicates()) by {
        assert forall|a: int, b: int|
            0 <= a < required.len() && 0 <= b < required.len() && a != b implies required[a]
            != required[b] by {
            if a < b {
                lemma_required_distinct(profile, a, b);
            } else {
                lemma_required_distinct(profile, b, a);
            }
        }
    }
    assert(required.to_set().subset_of(observed.to_set())) by {
        assert forall|name: Seq<char>| required.to_set().contains(
            name,
        ) implies observed.to_set().contains(name) by {
            let k = choose|k: int| 0 <= k < required.len() && required[k] == name;
            assert(present(tensors, required_name(roles, k)));
            let m = choose|m: int|
                0 <= m < tensors.len() && (#[trigger] tensors[m]).name@ == required_name(roles, k);
            assert(observed[m] == name);
        }
    }
    required.unique_seq_to_set();
    observed.lemma_cardinality_of_set();
    vstd::set_lib::lemma_len_subset(required.to_set(), observed.to_set());
    vstd::set_lib::lemma_subset_equality(required.to_set(), observed.to_set());
    assert(observed.to_set().contains(observed[i]));
    let k = choose|k: int| 0 <= k < required.len() && required[k] == observed[i];
    assert(required_name(roles, k) == tensors[i].name@);
}

proof fn lemma_named_role(roles: Seq<Role>, i: int)
    requires
        distinct_roles(roles),
        0 <= i < roles.len(),
    ensures
        named_role(roles, roles[i].name@) == Some(roles[i]),
    decreases roles.len(),
{
    if i > 0 {
        assert(roles[0].name@ != roles[i].name@);
        let rest = roles.drop_first();
        assert forall|a: int, b: int|
            #![trigger rest[a], rest[b]]
            0 <= a < b < rest.len() implies rest[a].name@ != rest[b].name@ by {
            assert(rest[a] == roles[a + 1] && rest[b] == roles[b + 1]);
        }
        lemma_named_role(rest, i - 1);
    }
}

proof fn lemma_unnamed_role(roles: Seq<Role>, name: Seq<char>)
    requires
        forall|i: int| 0 <= i < roles.len() ==> (#[trigger] roles[i]).name@ != name,
    ensures
        named_role(roles, name) is None,
    decreases roles.len(),
{
    if roles.len() > 0 {
        let rest = roles.drop_first();
        assert forall|i: int| 0 <= i < rest.len() implies (#[trigger] rest[i]).name@ != name by {
            assert(rest[i] == roles[i + 1]);
        }
        lemma_unnamed_role(rest, name);
    }
}

/// The name of a block's tensor divides into its number and its role.
pub proof fn lemma_block_parts(block: nat, role: Seq<char>)
    ensures
        block_parts(text::block_name_spec(block, role)) == Some((text::decimal(block), role)),
{
    let name = text::block_name_spec(block, role);
    let number = text::decimal(block);
    reveal_strlit("blk.");
    reveal_strlit(".");
    text::lemma_decimal_digits(block);
    let rest = name.skip(4);
    assert(name.take(4) =~= "blk."@);
    assert(rest =~= number + "."@ + role);
    assert(first_dot(rest, number.len() as int));
    let dot = choose|dot: int| first_dot(rest, dot);
    assert(dot == number.len()) by {
        if dot < number.len() {
            assert(rest[dot] == number[dot]);
        }
        if dot > number.len() {
            assert(rest[number.len() as int] != '.');
        }
    }
    assert(rest.take(dot) =~= number);
    assert(rest.skip(dot + 1) =~= role);
}

/// A block tensor is classified by its role name, whatever the profile adds, as
/// long as its block is stored.
pub proof fn lemma_block_role(profile: Qwen3Profile, blocks: usize, block: usize, r: int)
    requires
        block < blocks,
        0 <= r < block_roles_spec().len(),
    ensures
        role_of(
            text::block_name_spec(block as nat, block_roles_spec()[r].name@),
            blocks,
            profile_roles_spec(profile),
        ) == Some(block_roles_spec()[r]),
{
    let role = block_roles_spec()[r];
    let name = text::block_name_spec(block as nat, role.name@);
    lemma_role_marks();
    lemma_block_mark(block as nat, role.name@);
    let global = global_roles_spec();
    let extra = profile_roles_spec(profile);
    assert forall|i: int| 0 <= i < global.len() implies (#[trigger] global[i]).name@ != name by {
        assert(mark(global[i].name@).1 != 'b');
    }
    assert forall|i: int| 0 <= i < extra.len() implies (#[trigger] extra[i]).name@ != name by {
        assert(mark(extra[i].name@).1 != 'b');
    }
    lemma_unnamed_role(global, name);
    lemma_unnamed_role(extra, name);
    lemma_block_parts(block as nat, role.name@);
    text::lemma_decimal_parses(block);
    lemma_distinct_block_roles();
    lemma_named_role(block_roles_spec(), r);
}

/// In an admitted inventory every stored block has every block role exactly as the
/// geometry shapes it, in admitted storage.
pub proof fn lemma_admitted_block(
    tensors: Seq<TensorDescriptor>,
    layout: Layout,
    profile: Qwen3Profile,
    block: usize,
    r: int,
)
    requires
        inventory_admitted(tensors, layout, profile_roles_spec(profile)),
        block < layout.blocks,
        0 <= r < block_roles_spec().len(),
    ensures
        exists|i: int|
            {
                &&& 0 <= i < tensors.len()
                &&& (#[trigger] tensors[i]).name@ == text::block_name_spec(
                    block as nat,
                    block_roles_spec()[r].name@,
                )
                &&& tensors[i].dims@ == block_roles_spec()[r].shape.dims(layout)
                &&& storage_rule(block_roles_spec()[r].storage, tensors[i].ggml_type) is None
            },
{
    let roles = profile_roles_spec(profile);
    let outer = 2 + roles.len();
    let k = outer + 11 * block + r;
    let name = text::block_name_spec(block as nat, block_roles_spec()[r].name@);
    assert((k - outer) / 11 == block && (k - outer) % 11 == r);
    assert(required_name(roles, k) == name);
    assert(present(tensors, required_name(roles, k)));
    let i = choose|i: int| 0 <= i < tensors.len() && (#[trigger] tensors[i]).name@ == name;
    lemma_block_role(profile, layout.blocks, block, r);
    assert(tensor_rule(tensors, layout, roles, i) is None);
}

} // verus!
