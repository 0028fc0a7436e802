//! Bounded Qwen3 causal geometry with strict embedding and rank profiles.

use crate::error::Error;
use crate::float_bits;
use crate::float_bits::{is_finite, is_positive_finite, ONE};
use crate::gguf::{MetaValue, MetaValueType, Metadata};
use crate::text;
use crate::text::same_text;
use vstd::prelude::*;

verus! {

pub const ARCHITECTURE: &'static str = "general.architecture";

pub const BLOCK_COUNT: &'static str = "qwen3.block_count";

pub const CONTEXT_LENGTH: &'static str = "qwen3.context_length";

pub const HIDDEN: &'static str = "qwen3.embedding_length";

pub const FEED_FORWARD: &'static str = "qwen3.feed_forward_length";

pub const HEADS: &'static str = "qwen3.attention.head_count";

pub const KV_HEADS: &'static str = "qwen3.attention.head_count_kv";

pub const KEY_LENGTH: &'static str = "qwen3.attention.key_length";

pub const VALUE_LENGTH: &'static str = "qwen3.attention.value_length";

pub const RMS_EPSILON: &'static str = "qwen3.attention.layer_norm_rms_epsilon";

pub const CAUSAL: &'static str = "qwen3.attention.causal";

pub const ROPE_DIMENSION: &'static str = "qwen3.rope.dimension_count";

pub const ROPE_BASE: &'static str = "qwen3.rope.freq_base";

pub const ROPE_SCALING_TYPE: &'static str = "qwen3.rope.scaling.type";

pub const ROPE_SCALING_FACTOR: &'static str = "qwen3.rope.scaling.factor";

pub const ROPE_SCALING_ATTENTION_FACTOR: &'static str = "qwen3.rope.scaling.attn_factor";

pub const ROPE_LEGACY_LINEAR_SCALE: &'static str = "qwen3.rope.scale_linear";

pub const POOLING_TYPE: &'static str = "qwen3.pooling_type";

pub const TOKENS: &'static str = "tokenizer.ggml.tokens";

pub const TOKEN_EMBEDDING: &'static str = "token_embd.weight";

pub const OUTPUT_NORM: &'static str = "output_norm.weight";

pub const RANK_HEAD: &'static str = "cls.output.weight";

pub const RANK_LABELS_KEY: &'static str = "qwen3.classifier.output_labels";

pub const LAST_POOLING_TYPE: u64 = 3;

pub const RANK_POOLING_TYPE: u64 = 4;

/// The number of labels of the rank head: yes and no.
pub const RANK_LABEL_COUNT: usize = 2;

/// Which bounded profile an artifact is bound to.
#[derive(Clone, Copy, Debug, PartialEq, Eq, Structural)]
pub enum Qwen3Profile {
    Embedding,
    Rank,
}

impl Qwen3Profile {
    /// The pooling type that selects the profile.
    pub open spec fn pooling(self) -> u64 {
        match self {
            Qwen3Profile::Embedding => LAST_POOLING_TYPE,
            Qwen3Profile::Rank => RANK_POOLING_TYPE,
        }
    }

    /// Return the pooling type that selects the profile.
    pub fn pooling_type(self) -> (pooling: u64)
        ensures
            pooling == self.pooling(),
    {
        match self {
            Qwen3Profile::Embedding => LAST_POOLING_TYPE,
            Qwen3Profile::Rank => RANK_POOLING_TYPE,
        }
    }
}

/// A metadata value outside the bounded profile.
pub open spec fn metadata_failure(key: &'static str, rule: &'static str) -> Option<Error> {
    Some(Error::Qwen3Metadata { key, rule })
}

/// Why a string is not the one that the profile requires, if it is not.
pub open spec fn string_failure(
    metadata: Map<Seq<char>, MetaValue>,
    key: &'static str,
    expected: &'static str,
) -> Option<Error> {
    if metadata.dom().contains(key@) && (metadata[key@] matches MetaValue::String(value) && value@
        == expected@) {
        None
    } else {
        metadata_failure(key, "must be the exact bounded profile value")
    }
}

/// Require a string of an exact value.
pub fn require_string(metadata: &Metadata, key: &'static str, expected: &'static str) -> (checked:
    Result<(), Error>)
    ensures
        match checked {
            Ok(_) => string_failure(metadata@, key, expected) is None,
            Err(error) => string_failure(metadata@, key, expected) == Some(error),
        },
{
    match metadata.get(key) {
        Some(MetaValue::String(value)) => {
            if same_text(value.as_str(), expected) {
                return Ok(());
            }
        },
        _ => {},
    }
    Err(Error::Qwen3Metadata { key, rule: "must be the exact bounded profile value" })
}

/// Whether a `u32` is stored under a key.
pub open spec fn has_u32(metadata: Map<Seq<char>, MetaValue>, key: &'static str) -> bool {
    metadata.dom().contains(key@) && metadata[key@] is U32
}

/// The `u32` stored under a key.
pub open spec fn u32_of(metadata: Map<Seq<char>, MetaValue>, key: &'static str) -> int {
    metadata[key@]->U32_0 as int
}

/// Read a required `u32`.
pub fn require_u32(metadata: &Metadata, key: &'static str, rule: &'static str) -> (value: Result<
    u64,
    Error,
>)
    ensures
        match value {
            Ok(value) => {
                &&& has_u32(metadata@, key)
                &&& value == u32_of(metadata@, key)
                &&& value <= u32::MAX
            },
            Err(error) => {
                &&& !has_u32(metadata@, key)
                &&& Some(error) == metadata_failure(key, rule)
            },
        },
{
    match metadata.get(key) {
        Some(MetaValue::U32(value)) => Ok(*value as u64),
        _ => Err(Error::Qwen3Metadata { key, rule }),
    }
}

/// Whether an `f32` is stored under a key.
pub open spec fn has_f32(metadata: Map<Seq<char>, MetaValue>, key: &'static str) -> bool {
    metadata.dom().contains(key@) && metadata[key@] is F32
}

/// The bit pattern of the `f32` stored under a key.
pub open spec fn f32_of(metadata: Map<Seq<char>, MetaValue>, key: &'static str) -> u32 {
    metadata[key@]->F32_0
}

/// Read the bit pattern of a required `f32`.
pub fn require_f32(metadata: &Metadata, key: &'static str) -> (bits: Result<u32, Error>)
    ensures
        match bits {
            Ok(bits) => has_f32(metadata@, key) && bits == f32_of(metadata@, key),
            Err(error) => {
                &&& !has_f32(metadata@, key)
                &&& Some(error) == metadata_failure(key, "must be F32")
            },
        },
{
    match metadata.get(key) {
        Some(MetaValue::F32(bits)) => Ok(*bits),
        _ => Err(Error::Qwen3Metadata { key, rule: "must be F32" }),
    }
}

/// Why a positive count cannot be read, if it cannot.
pub open spec fn positive_failure(
    metadata: Map<Seq<char>, MetaValue>,
    key: &'static str,
) -> Option<Error> {
    if !has_u32(metadata, key) {
        metadata_failure(key, "must be U32")
    } else if u32_of(metadata, key) == 0 {
        metadata_failure(key, "must be a positive usize")
    } else {
        None
    }
}

/// Read a positive count.
pub fn positive(metadata: &Metadata, key: &'static str) -> (value: Result<usize, Error>)
    ensures
        match value {
            Ok(value) => {
                &&& positive_failure(metadata@, key) is None
                &&& value == u32_of(metadata@, key)
                &&& value > 0
            },
            Err(error) => positive_failure(metadata@, key) == Some(error),
        },
{
    let value: u64 = require_u32(metadata, key, "must be U32")?;
    if value == 0 {
        return Err(Error::Qwen3Metadata { key, rule: "must be a positive usize" });
    }
    Ok(value as usize)
}

/// Why the vocabulary cannot be read, if it cannot.
pub open spec fn vocabulary_failure(metadata: Map<Seq<char>, MetaValue>) -> Option<Error> {
    if metadata.dom().contains(TOKENS@) && (metadata[TOKENS@] matches MetaValue::Array(tokens)
        && tokens.element_type == MetaValueType::String) {
        if vocabulary_of(metadata) == 0 {
            metadata_failure(TOKENS, "must be a nonempty string array")
        } else {
            None
        }
    } else {
        metadata_failure(TOKENS, "must be a string array")
    }
}

/// The number of vocabulary entries.
pub open spec fn vocabulary_of(metadata: Map<Seq<char>, MetaValue>) -> int {
    metadata[TOKENS@]->Array_0.values@.len() as int
}

/// Count the vocabulary entries.
pub fn vocabulary(metadata: &Metadata) -> (count: Result<usize, Error>)
    ensures
        match count {
            Ok(count) => {
                &&& vocabulary_failure(metadata@) is None
                &&& count == vocabulary_of(metadata@)
                &&& count > 0
            },
            Err(error) => vocabulary_failure(metadata@) == Some(error),
        },
{
    match metadata.get(TOKENS) {
        Some(MetaValue::Array(tokens)) => {
            if tokens.element_type == MetaValueType::String {
                if tokens.values.len() == 0 {
                    return Err(
                        Error::Qwen3Metadata {
                            key: TOKENS,
                            rule: "must be a nonempty string array",
                        },
                    );
                }
                return Ok(tokens.values.len());
            }
        },
        _ => {},
    }
    Err(Error::Qwen3Metadata { key: TOKENS, rule: "must be a string array" })
}

/// Why an optional finite `f32` cannot be read, if it cannot.
pub open spec fn optional_finite_failure(
    metadata: Map<Seq<char>, MetaValue>,
    key: &'static str,
) -> Option<Error> {
    if !metadata.dom().contains(key@) || (metadata[key@] matches MetaValue::F32(bits)
        && float_bits::finite(bits)) {
        None
    } else {
        metadata_failure(key, "must be finite F32 when present")
    }
}

/// The bit pattern of an optional `f32`.
pub open spec fn optional_f32_of(
    metadata: Map<Seq<char>, MetaValue>,
    key: &'static str,
) -> Option<u32> {
    if metadata.dom().contains(key@) {
        Some(f32_of(metadata, key))
    } else {
        None
    }
}

/// Read the bit pattern of an optional finite `f32`.
pub fn optional_finite_f32(metadata: &Metadata, key: &'static str) -> (bits: Result<
    Option<u32>,
    Error,
>)
    ensures
        match bits {
            Ok(bits) => {
                &&& optional_finite_failure(metadata@, key) is None
                &&& bits == optional_f32_of(metadata@, key)
            },
            Err(error) => optional_finite_failure(metadata@, key) == Some(error),
        },
{
    match metadata.get(key) {
        None => Ok(None),
        Some(MetaValue::F32(bits)) => {
            if is_finite(*bits) {
                Ok(Some(*bits))
            } else {
                Err(Error::Qwen3Metadata { key, rule: "must be finite F32 when present" })
            }
        },
        _ => Err(Error::Qwen3Metadata { key, rule: "must be finite F32 when present" }),
    }
}

/// Whether a scaling kind is stored as a text.
pub open spec fn scaling_is(metadata: Map<Seq<char>, MetaValue>, kind: Seq<char>) -> bool {
    &&& metadata.dom().contains(ROPE_SCALING_TYPE@)
    &&& metadata[ROPE_SCALING_TYPE@] matches MetaValue::String(value)
    &&& value@ == kind
}

/// The bit pattern of the linear factor: the current key wins over the legacy one.
pub open spec fn linear_factor(metadata: Map<Seq<char>, MetaValue>) -> u32 {
    match optional_f32_of(metadata, ROPE_SCALING_FACTOR) {
        Some(bits) => bits,
        None => match optional_f32_of(metadata, ROPE_LEGACY_LINEAR_SCALE) {
            Some(bits) => bits,
            None => 0,
        },
    }
}

/// Why rotary scaling is not neutral, if it is not. A kind of `none` makes the
/// linear factor ineffective; an attention factor always has to be one.
pub open spec fn scaling_failure(metadata: Map<Seq<char>, MetaValue>) -> Option<Error> {
    if metadata.dom().contains(ROPE_SCALING_TYPE@) && !scaling_is(metadata, "linear"@)
        && !scaling_is(metadata, "none"@) {
        metadata_failure(
            ROPE_SCALING_TYPE,
            "must be absent, linear, or source-neutral none scaling",
        )
    } else if let Some(error) = optional_finite_failure(metadata, ROPE_SCALING_FACTOR) {
        Some(error)
    } else if let Some(error) = optional_finite_failure(metadata, ROPE_LEGACY_LINEAR_SCALE) {
        Some(error)
    } else if !scaling_is(metadata, "none"@) && linear_factor(metadata) != 0 && linear_factor(
        metadata,
    ) != ONE {
        metadata_failure(
            if optional_f32_of(metadata, ROPE_SCALING_FACTOR) is Some {
                ROPE_SCALING_FACTOR
            } else {
                ROPE_LEGACY_LINEAR_SCALE
            },
            "must resolve to source-neutral linear factor 0 or 1",
        )
    } else if let Some(error) = optional_finite_failure(metadata, ROPE_SCALING_ATTENTION_FACTOR) {
        Some(error)
    } else if optional_f32_of(metadata, ROPE_SCALING_ATTENTION_FACTOR) matches Some(bits) && bits
        != ONE {
        metadata_failure(
            ROPE_SCALING_ATTENTION_FACTOR,
            "must be absent or exact neutral attention factor 1",
        )
    } else {
        None
    }
}

/// Require neutral rotary scaling.
pub fn require_neutral_rope_scaling(metadata: &Metadata) -> (checked: Result<(), Error>)
    ensures
        match checked {
            Ok(_) => scaling_failure(metadata@) is None,
            Err(error) => scaling_failure(metadata@) == Some(error),
        },
{
    let scaling_none: bool = match metadata.get(ROPE_SCALING_TYPE) {
        None => false,
        Some(MetaValue::String(value)) => {
            let none = same_text(value.as_str(), "none");
            if !none && !same_text(value.as_str(), "linear") {
                return Err(
                    Error::Qwen3Metadata {
                        key: ROPE_SCALING_TYPE,
                        rule: "must be absent, linear, or source-neutral none scaling",
                    },
                );
            }
            none
        },
        _ => {
            return Err(
                Error::Qwen3Metadata {
                    key: ROPE_SCALING_TYPE,
                    rule: "must be absent, linear, or source-neutral none scaling",
                },
            );
        },
    };
    let current: Option<u32> = optional_finite_f32(metadata, ROPE_SCALING_FACTOR)?;
    let legacy: Option<u32> = optional_finite_f32(metadata, ROPE_LEGACY_LINEAR_SCALE)?;
    if !scaling_none {
        let (key, factor): (&'static str, u32) = match current {
            Some(factor) => (ROPE_SCALING_FACTOR, factor),
            None => (
                ROPE_LEGACY_LINEAR_SCALE,
                match legacy {
                    Some(factor) => factor,
                    None => 0,
                },
            ),
        };
        if factor != 0 && factor != ONE {
            return Err(
                Error::Qwen3Metadata {
                    key,
                    rule: "must resolve to source-neutral linear factor 0 or 1",
                },
            );
        }
    }
    if let Some(attention) = optional_finite_f32(metadata, ROPE_SCALING_ATTENTION_FACTOR)? {
        if attention != ONE {
            return Err(
                Error::Qwen3Metadata {
                    key: ROPE_SCALING_ATTENTION_FACTOR,
                    rule: "must be absent or exact neutral attention factor 1",
                },
            );
        }
    }
    Ok(())
}

/// Multiply two extents, refusing overflow.
pub fn product(left: usize, right: usize) -> (product: Result<usize, Error>)
    ensures
        match product {
            Ok(product) => product == left * right,
            Err(error) => left * right > usize::MAX && Some(error) == overflow_failure(left),
        },
{
    match left.checked_mul(right) {
        Some(product) => Ok(product),
        None => Err(
            Error::Qwen3Execution {
                requested: left,
                rule: "execution geometry multiplication overflowed",
            },
        ),
    }
}

/// An overflowed product.
pub open spec fn overflow_failure(left: usize) -> Option<Error> {
    Some(
        Error::Qwen3Execution {
            requested: left,
            rule: "execution geometry multiplication overflowed",
        },
    )
}

/// Convert a host extent to a stored extent.
pub fn u64_from(value: usize) -> (stored: Result<u64, Error>)
    ensures
        stored == Ok::<u64, Error>(value as u64),
{
    match u64::try_from(value) {
        Ok(stored) => Ok(stored),
        Err(_) => Err(
            Error::Qwen3Execution {
                requested: value,
                rule: "execution geometry exceeds u64",
            },
        ),
    }
}

/// Name the tensor of `role` in block `block`.
pub fn block_name(block: usize, role: &str) -> (name: String)
    ensures
        name@ == text::block_name_spec(block as nat, role@),
{
    text::numbered_name(block as u64, role)
}

/// The geometry of one bounded artifact; epsilon and the rotary base are kept as
/// `f32` bit patterns.
#[derive(Clone, Copy, Debug, PartialEq, Eq, Structural)]
pub struct Layout {
    pub blocks: usize,
    pub context: usize,
    pub hidden: usize,
    pub feed_forward: usize,
    pub heads: usize,
    pub kv_heads: usize,
    pub head_dim: usize,
    pub kv_width: usize,
    pub q_width: usize,
    pub vocabulary: usize,
    pub epsilon: u32,
    pub rope_base: u32,
}

/// Why the profile values of metadata are refused, if they are.
pub open spec fn profile_failure(
    metadata: Map<Seq<char>, MetaValue>,
    profile: Qwen3Profile,
) -> Option<Error> {
    if let Some(error) = string_failure(metadata, ARCHITECTURE, "qwen3") {
        Some(error)
    } else if !has_u32(metadata, POOLING_TYPE) {
        metadata_failure(POOLING_TYPE, "profile pooling type")
    } else if u32_of(metadata, POOLING_TYPE) != profile.pooling() {
        metadata_failure(POOLING_TYPE, "must select the requested bounded profile pooling type")
    } else if metadata.dom().contains(CAUSAL@) && metadata[CAUSAL@] == MetaValue::Bool(false) {
        metadata_failure(CAUSAL, "explicit false is outside the bounded causal profile")
    } else if metadata.dom().contains(CAUSAL@) && !(metadata[CAUSAL@] is Bool) {
        metadata_failure(CAUSAL, "must be boolean when present")
    } else {
        scaling_failure(metadata)
    }
}

/// Why a count cannot be read, if one cannot.
pub open spec fn counts_failure(metadata: Map<Seq<char>, MetaValue>) -> Option<Error> {
    if let Some(error) = positive_failure(metadata, BLOCK_COUNT) {
        Some(error)
    } else if let Some(error) = positive_failure(metadata, CONTEXT_LENGTH) {
        Some(error)
    } else if let Some(error) = positive_failure(metadata, HIDDEN) {
        Some(error)
    } else if let Some(error) = positive_failure(metadata, FEED_FORWARD) {
        Some(error)
    } else if let Some(error) = positive_failure(metadata, HEADS) {
        Some(error)
    } else if let Some(error) = positive_failure(metadata, KV_HEADS) {
        Some(error)
    } else if let Some(error) = positive_failure(metadata, KEY_LENGTH) {
        Some(error)
    } else if let Some(error) = positive_failure(metadata, VALUE_LENGTH) {
        Some(error)
    } else if let Some(error) = positive_failure(metadata, ROPE_DIMENSION) {
        Some(error)
    } else if !has_f32(metadata, RMS_EPSILON) {
        metadata_failure(RMS_EPSILON, "must be F32")
    } else if !has_f32(metadata, ROPE_BASE) {
        metadata_failure(ROPE_BASE, "must be F32")
    } else {
        None
    }
}

/// Why the relations between the counts are refused, if they are.
pub open spec fn relations_failure(metadata: Map<Seq<char>, MetaValue>) -> Option<Error> {
    let heads = u32_of(metadata, HEADS);
    let kv_heads = u32_of(metadata, KV_HEADS);
    let head_dim = u32_of(metadata, KEY_LENGTH);
    let rope_dim = u32_of(metadata, ROPE_DIMENSION);
    if heads % kv_heads != 0 {
        metadata_failure(HEADS, "must divide evenly by Q/KV head count")
    } else if u32_of(metadata, VALUE_LENGTH) != head_dim {
        metadata_failure(VALUE_LENGTH, "must equal the key/head width in this bounded path")
    } else if rope_dim != head_dim || rope_dim % 2 != 0 {
        metadata_failure(
            ROPE_DIMENSION,
            "must equal the full even key/head width in this bounded path",
        )
    } else if !float_bits::positive_finite(f32_of(metadata, RMS_EPSILON))
        || !float_bits::positive_finite(f32_of(metadata, ROPE_BASE)) {
        metadata_failure(RMS_EPSILON, "epsilon and RoPE base must be finite positive values")
    } else if heads * head_dim > usize::MAX {
        overflow_failure(heads as usize)
    } else if kv_heads * head_dim > usize::MAX {
        overflow_failure(kv_heads as usize)
    } else {
        vocabulary_failure(metadata)
    }
}

/// Why metadata is outside a bounded profile, if it is: the first check that
/// fails, in reading order.
pub open spec fn layout_failure(
    metadata: Map<Seq<char>, MetaValue>,
    profile: Qwen3Profile,
) -> Option<Error> {
    if let Some(error) = profile_failure(metadata, profile) {
        Some(error)
    } else if let Some(error) = counts_failure(metadata) {
        Some(error)
    } else {
        relations_failure(metadata)
    }
}

impl Layout {
    /// Whether the geometry is that of an admitted artifact.
    pub open spec fn wf(self) -> bool {
        &&& self.blocks > 0 && self.context > 0 && self.hidden > 0 && self.feed_forward > 0
        &&& 0 < self.kv_heads && 0 < self.heads && self.heads % self.kv_heads == 0
        &&& self.head_dim > 0 && self.head_dim % 2 == 0
        &&& self.q_width == self.heads * self.head_dim
        &&& self.kv_width == self.kv_heads * self.head_dim
        &&& self.vocabulary > 0
        &&& float_bits::positive_finite(self.epsilon)
        &&& float_bits::positive_finite(self.rope_base)
    }

    /// Whether the geometry carries the values of metadata.
    pub open spec fn describes(self, metadata: Map<Seq<char>, MetaValue>) -> bool {
        &&& self.blocks == u32_of(metadata, BLOCK_COUNT)
        &&& self.context == u32_of(metadata, CONTEXT_LENGTH)
        &&& self.hidden == u32_of(metadata, HIDDEN)
        &&& self.feed_forward == u32_of(metadata, FEED_FORWARD)
        &&& self.heads == u32_of(metadata, HEADS)
        &&& self.kv_heads == u32_of(metadata, KV_HEADS)
        &&& self.head_dim == u32_of(metadata, KEY_LENGTH)
        &&& self.vocabulary == vocabulary_of(metadata)
        &&& self.epsilon == f32_of(metadata, RMS_EPSILON)
        &&& self.rope_base == f32_of(metadata, ROPE_BASE)
    }

    /// Derive the geometry of metadata under a bounded profile.
    pub fn from_metadata(metadata: &Metadata, profile: Qwen3Profile) -> (layout: Result<
        Layout,
        Error,
    >)
        ensures
            match layout {
                Ok(layout) => {
                    &&& layout_failure(metadata@, profile) is None
                    &&& layout.describes(metadata@)
                    &&& layout.wf()
                },
                Err(error) => layout_failure(metadata@, profile) == Some(error),
            },
    {
        require_profile(metadata, profile)?;
        let blocks: usize = positive(metadata, BLOCK_COUNT)?;
        let context: usize = positive(metadata, CONTEXT_LENGTH)?;
        let hidden: usize = positive(metadata, HIDDEN)?;
        let feed_forward: usize = positive(metadata, FEED_FORWARD)?;
        let heads: usize = positive(metadata, HEADS)?;
        let kv_heads: usize = positive(metadata, KV_HEADS)?;
        let head_dim: usize = positive(metadata, KEY_LENGTH)?;
        let value_dim: usize = positive(metadata, VALUE_LENGTH)?;
        let rope_dim: usize = positive(metadata, ROPE_DIMENSION)?;
        let epsilon: u32 = require_f32(metadata, RMS_EPSILON)?;
        let rope_base: u32 = require_f32(metadata, ROPE_BASE)?;
        if heads % kv_heads != 0 {
            return Err(
                Error::Qwen3Metadata { key: HEADS, rule: "must divide evenly by Q/KV head count" },
            );
        }
        if value_dim != head_dim {
            return Err(
                Error::Qwen3Metadata {
                    key: VALUE_LENGTH,
                    rule: "must equal the key/head width in this bounded path",
                },
            );
        }
        if rope_dim != head_dim || rope_dim % 2 != 0 {
            return Err(
                Error::Qwen3Metadata {
                    key: ROPE_DIMENSION,
                    rule: "must equal the full even key/head width in this bounded path",
                },
            );
        }
        if !is_positive_finite(epsilon) || !is_positive_finite(rope_base) {
            return Err(
                Error::Qwen3Metadata {
                    key: RMS_EPSILON,
                    rule: "epsilon and RoPE base must be finite positive values",
                },
            );
        }
        let q_width: usize = product(heads, head_dim)?;
        let kv_width: usize = product(kv_heads, head_dim)?;
        let vocabulary: usize = vocabulary(metadata)?;
        Ok(
            Layout {
                blocks,
                context,
                hidden,
                feed_forward,
                heads,
                kv_heads,
                head_dim,
                kv_width,
                q_width,
                vocabulary,
                epsilon,
                rope_base,
            },
        )
    }
}

fn require_profile(metadata: &Metadata, profile: Qwen3Profile) -> (checked: Result<(), Error>)
    ensures
        match checked {
            Ok(_) => profile_failure(metadata@, profile) is None,
            Err(error) => profile_failure(metadata@, profile) == Some(error),
        },
{
    require_string(metadata, ARCHITECTURE, "qwen3")?;
    let pooling: u64 = require_u32(metadata, POOLING_TYPE, "profile pooling type")?;
    if pooling != profile.pooling_type() {
        return Err(
            Error::Qwen3Metadata {
                key: POOLING_TYPE,
                rule: "must select the requested bounded profile pooling type",
            },
        );
    }
    match metadata.get(CAUSAL) {
        None => {},
        Some(MetaValue::Bool(causal)) => {
            if !*causal {
                return Err(
                    Error::Qwen3Metadata {
                        key: CAUSAL,
                        rule: "explicit false is outside the bounded causal profile",
                    },
                );
            }
        },
        _ => {
            return Err(
                Error::Qwen3Metadata { key: CAUSAL, rule: "must be boolean when present" },
            );
        },
    }
    require_neutral_rope_scaling(metadata)
}

} // verus!
