//! Bounded token-to-logits execution geometry for a verified Qwen3.5 payload.
//!
//! Metadata admission for execution, the derived layout, the named workspace
//! allocations, and the transactional session that publishes private state only
//! after a whole step succeeded. Values that only a floating-point kernel can
//! compute are carried as IEEE 754 bit patterns and enter as arguments.

use crate::allocation::reserve;
use crate::error::Error;
use crate::float_bits;
use crate::float_bits::{is_finite, is_positive_finite, is_zero, ONE};
use crate::gguf::{GgmlType, MetaValue, MetaValueType, Metadata, VerifiedArtifact, VerifiedTensor};
use crate::payload;
use crate::payload::{find_parameter, read_words};
use crate::qwen35;
use crate::qwen35::{
    recurrent_layernorm_rms_epsilon, required_u32, Qwen35ExecutionDimensions,
    Qwen35StructuralProfile, LAYERNORM_RMS_EPSILON_KEY,
};
use crate::qwen35_mrope::TextMrope;
use crate::text;
use crate::text::same_text;
use vstd::prelude::*;

verus! {

pub const CONTEXT_LENGTH_KEY: &'static str = "qwen35.context_length";

pub const ROPE_SECTIONS_KEY: &'static str = "qwen35.rope.dimension_sections";

pub const ROPE_FREQ_BASE_KEY: &'static str = "qwen35.rope.freq_base";

pub const ROPE_SCALING_TYPE_KEY: &'static str = "qwen35.rope.scaling.type";

pub const ROPE_SCALING_FACTOR_KEY: &'static str = "qwen35.rope.scaling.factor";

pub const ROPE_SCALING_ATTENTION_FACTOR_KEY: &'static str = "qwen35.rope.scaling.attn_factor";

pub const ROPE_LEGACY_LINEAR_SCALE_KEY: &'static str = "qwen35.rope.scale_linear";

pub const ROPE_DIMENSION_COUNT_KEY: &'static str = "qwen35.rope.dimension_count";

pub const ATTENTION_SCALE_KEY: &'static str = "qwen35.attention.scale";

pub const ATTENTION_CAUSAL_KEY: &'static str = "qwen35.attention.causal";

pub const TOKEN_EMBEDDING: &'static str = "token_embd.weight";

pub const OUTPUT_NORM: &'static str = "output_norm.weight";

pub const OUTPUT: &'static str = "output.weight";

/// The bit pattern of the default rotary base, ten thousand.
pub const DEFAULT_ROPE_BASE: u32 = 0x461c_4000;

/// The largest admitted context: one more than the largest signed text position.
pub const MAX_TEXT_CONTEXT: usize = 0x8000_0000;

/// Select which token-logit rows a bounded execution retains.
#[derive(Clone, Copy, Debug, PartialEq, Eq, Structural)]
#[non_exhaustive]
pub enum Qwen35LogitSelection {
    /// Retain one vocabulary-logit row for every supplied token.
    AllTokens,
    /// Execute every supplied token but retain only the final vocabulary-logit row.
    LastToken,
}

/// A metadata key of the wrong type.
pub open spec fn type_failure(
    metadata: Map<Seq<char>, MetaValue>,
    key: &'static str,
    expected: &'static str,
) -> Option<Error> {
    Some(Error::MetadataType { key, expected, actual: metadata[key@].spec_value_type() })
}

/// Why an optional `f32` cannot be read, if it cannot.
pub open spec fn optional_f32_failure(
    metadata: Map<Seq<char>, MetaValue>,
    key: &'static str,
) -> Option<Error> {
    if metadata.dom().contains(key@) && !(metadata[key@] is F32) {
        type_failure(metadata, key, "f32")
    } else {
        None
    }
}

/// The bit pattern of an optional `f32`.
pub open spec fn optional_f32_value(
    metadata: Map<Seq<char>, MetaValue>,
    key: &'static str,
) -> Option<u32> {
    if metadata.dom().contains(key@) {
        Some(metadata[key@]->F32_0)
    } else {
        None
    }
}

/// Read the bit pattern of an optional `f32`.
pub fn optional_f32_meta(metadata: &Metadata, key: &'static str) -> (bits: Result<
    Option<u32>,
    Error,
>)
    ensures
        match bits {
            Ok(bits) => {
                &&& optional_f32_failure(metadata@, key) is None
                &&& bits == optional_f32_value(metadata@, key)
            },
            Err(error) => optional_f32_failure(metadata@, key) == Some(error),
        },
{
    match metadata.get(key) {
        None => Ok(None),
        Some(MetaValue::F32(bits)) => Ok(Some(*bits)),
        Some(value) => Err(
            Error::MetadataType { key, expected: "f32", actual: value.value_type() },
        ),
    }
}

/// Why an optional `u32` cannot be read, if it cannot.
pub open spec fn optional_u32_failure(
    metadata: Map<Seq<char>, MetaValue>,
    key: &'static str,
) -> Option<Error> {
    if metadata.dom().contains(key@) && !(metadata[key@] is U32) {
        type_failure(metadata, key, "u32")
    } else {
        None
    }
}

/// An optional `u32`.
pub open spec fn optional_u32_value(
    metadata: Map<Seq<char>, MetaValue>,
    key: &'static str,
) -> Option<u32> {
    if metadata.dom().contains(key@) {
        Some(metadata[key@]->U32_0)
    } else {
        None
    }
}

/// Read an optional `u32`.
pub fn optional_u32_meta(metadata: &Metadata, key: &'static str) -> (value: Result<
    Option<u32>,
    Error,
>)
    ensures
        match value {
            Ok(value) => {
                &&& optional_u32_failure(metadata@, key) is None
                &&& value == optional_u32_value(metadata@, key)
            },
            Err(error) => optional_u32_failure(metadata@, key) == Some(error),
        },
{
    match metadata.get(key) {
        None => Ok(None),
        Some(MetaValue::U32(value)) => Ok(Some(*value)),
        Some(value) => Err(
            Error::MetadataType { key, expected: "u32", actual: value.value_type() },
        ),
    }
}

/// Why an optional `bool` cannot be read, if it cannot.
pub open spec fn optional_bool_failure(
    metadata: Map<Seq<char>, MetaValue>,
    key: &'static str,
) -> Option<Error> {
    if metadata.dom().contains(key@) && !(metadata[key@] is Bool) {
        type_failure(metadata, key, "bool")
    } else {
        None
    }
}

/// An optional `bool`.
pub open spec fn optional_bool_value(
    metadata: Map<Seq<char>, MetaValue>,
    key: &'static str,
) -> Option<bool> {
    if metadata.dom().contains(key@) {
        Some(metadata[key@]->Bool_0)
    } else {
        None
    }
}

/// Read an optional `bool`.
pub fn optional_bool_meta(metadata: &Metadata, key: &'static str) -> (value: Result<
    Option<bool>,
    Error,
>)
    ensures
        match value {
            Ok(value) => {
                &&& optional_bool_failure(metadata@, key) is None
                &&& value == optional_bool_value(metadata@, key)
            },
            Err(error) => optional_bool_failure(metadata@, key) == Some(error),
        },
{
    match metadata.get(key) {
        None => Ok(None),
        Some(MetaValue::Bool(value)) => Ok(Some(*value)),
        Some(value) => Err(
            Error::MetadataType { key, expected: "bool", actual: value.value_type() },
        ),
    }
}

/// Why an optional string cannot be read, if it cannot.
pub open spec fn optional_string_failure(
    metadata: Map<Seq<char>, MetaValue>,
    key: &'static str,
) -> Option<Error> {
    if metadata.dom().contains(key@) && !(metadata[key@] is String) {
        type_failure(metadata, key, "string")
    } else {
        None
    }
}

/// The characters of an optional string, or those of a default.
pub open spec fn string_value_or(
    metadata: Map<Seq<char>, MetaValue>,
    key: &'static str,
    default: Seq<char>,
) -> Seq<char> {
    if metadata.dom().contains(key@) {
        metadata[key@]->String_0@
    } else {
        default
    }
}

/// Read an optional string.
pub fn optional_string_meta<'a>(metadata: &'a Metadata, key: &'static str) -> (value: Result<
    Option<&'a str>,
    Error,
>)
    ensures
        match value {
            Ok(value) => {
                &&& optional_string_failure(metadata@, key) is None
                &&& value is Some == metadata@.dom().contains(key@)
                &&& value matches Some(text) ==> text@ == metadata@[key@]->String_0@
            },
            Err(error) => optional_string_failure(metadata@, key) == Some(error),
        },
{
    match metadata.get(key) {
        None => Ok(None),
        Some(MetaValue::String(value)) => Ok(Some(value.as_str())),
        Some(value) => Err(
            Error::MetadataType { key, expected: "string", actual: value.value_type() },
        ),
    }
}

/// Why the four rotary sections cannot be read, if they cannot.
pub open spec fn rope_sections_failure(
    metadata: Map<Seq<char>, MetaValue>,
    key: &'static str,
) -> Option<Error> {
    if !metadata.dom().contains(key@) {
        Some(Error::MissingMetadata { key })
    } else if !(metadata[key@] is Array) {
        type_failure(metadata, key, "array<i32>")
    } else {
        let array = metadata[key@]->Array_0;
        if array.element_type != MetaValueType::I32 {
            qwen35::relation_failure(key, "must declare i32 array elements")
        } else if array.values@.len() != 4 {
            qwen35::relation_failure(key, "must contain exactly four sections")
        } else if !(array.values@[0] is I32 && array.values@[1] is I32 && array.values@[2] is I32
            && array.values@[3] is I32) {
            qwen35::relation_failure(key, "must contain only i32 values")
        } else {
            None
        }
    }
}

/// Rotary section `i`.
pub open spec fn rope_section(
    metadata: Map<Seq<char>, MetaValue>,
    key: &'static str,
    i: int,
) -> i32 {
    metadata[key@]->Array_0.values@[i]->I32_0
}

/// Read the four rotary sections.
pub fn rope_sections(metadata: &Metadata, key: &'static str) -> (sections: Result<[i32; 4], Error>)
    ensures
        match sections {
            Ok(sections) => {
                &&& rope_sections_failure(metadata@, key) is None
                &&& forall|i: int|
                    0 <= i < 4 ==> #[trigger] sections@[i] == rope_section(metadata@, key, i)
            },
            Err(error) => rope_sections_failure(metadata@, key) == Some(error),
        },
{
    let array = match metadata.get(key) {
        None => {
            return Err(Error::MissingMetadata { key });
        },
        Some(MetaValue::Array(array)) => array,
        Some(value) => {
            return Err(
                Error::MetadataType { key, expected: "array<i32>", actual: value.value_type() },
            );
        },
    };
    if array.element_type != MetaValueType::I32 {
        return Err(Error::MetadataRelation { key, rule: "must declare i32 array elements" });
    }
    if array.values.len() != 4 {
        return Err(Error::MetadataRelation { key, rule: "must contain exactly four sections" });
    }
    match (&array.values[0], &array.values[1], &array.values[2], &array.values[3]) {
        (
            MetaValue::I32(first),
            MetaValue::I32(second),
            MetaValue::I32(third),
            MetaValue::I32(fourth),
        ) => Ok([*first, *second, *third, *fourth]),
        _ => Err(Error::MetadataRelation { key, rule: "must contain only i32 values" }),
    }
}

/// The execution geometry of one artifact under a caller-bounded context.
///
/// The normalization epsilon and the rotary base are kept as `f32` bit patterns.
#[derive(Clone, Copy, Debug)]
pub struct Layout {
    pub hidden: usize,
    pub feed_forward: usize,
    pub heads: usize,
    pub kv_heads: usize,
    pub key: usize,
    pub n_rot: usize,
    pub kv_width: usize,
    pub query_width: usize,
    pub vocabulary: usize,
    pub main_blocks: usize,
    pub full_interval: usize,
    pub max_context: usize,
    pub epsilon: u32,
    pub rope_base: u32,
    pub rope_sections: [usize; 4],
}

/// The first execution request or width check that fails, if one does.
pub open spec fn context_failure(
    metadata: Map<Seq<char>, MetaValue>,
    dimensions: Qwen35ExecutionDimensions,
    max_context: usize,
) -> Option<Error> {
    if max_context == 0 {
        Some(
            Error::ExecutionContext {
                requested: max_context,
                rule: "caller context must be non-zero",
            },
        )
    } else if let Some(error) = qwen35::u32_failure(metadata, CONTEXT_LENGTH_KEY) {
        Some(error)
    } else if max_context > qwen35::u32_value(metadata, CONTEXT_LENGTH_KEY) {
        Some(
            Error::ExecutionContext {
                requested: max_context,
                rule: "caller context must not exceed artifact context_length",
            },
        )
    } else if max_context > MAX_TEXT_CONTEXT {
        Some(
            Error::ExecutionContext {
                requested: max_context,
                rule: "caller context must fit the source signed text-position domain",
            },
        )
    } else if dimensions.hidden > usize::MAX {
        Some(Error::ArithmeticOverflow { context: "execution hidden width" })
    } else if dimensions.feed_forward > usize::MAX {
        Some(Error::ArithmeticOverflow { context: "execution feed-forward width" })
    } else if dimensions.heads > usize::MAX {
        Some(Error::ArithmeticOverflow { context: "execution head count" })
    } else if dimensions.key_value_heads > usize::MAX {
        Some(Error::ArithmeticOverflow { context: "execution key-value head count" })
    } else if dimensions.key_width > usize::MAX {
        Some(Error::ArithmeticOverflow { context: "execution key width" })
    } else {
        None
    }
}

/// The rotary width: the declared one, or the key width.
pub open spec fn rotary_width(
    metadata: Map<Seq<char>, MetaValue>,
    dimensions: Qwen35ExecutionDimensions,
) -> int {
    match optional_u32_value(metadata, ROPE_DIMENSION_COUNT_KEY) {
        Some(width) => width as int,
        None => dimensions.key_width as int,
    }
}

/// The first attention check that fails, if one does.
pub open spec fn attention_failure(
    metadata: Map<Seq<char>, MetaValue>,
    dimensions: Qwen35ExecutionDimensions,
) -> Option<Error> {
    let n_rot = rotary_width(metadata, dimensions);
    if let Some(error) = optional_u32_failure(metadata, ROPE_DIMENSION_COUNT_KEY) {
        Some(error)
    } else if n_rot == 0 || n_rot > dimensions.key_width || n_rot % 2 != 0 {
        qwen35::relation_failure(
            ROPE_DIMENSION_COUNT_KEY,
            "must be nonzero, even, and no wider than key width",
        )
    } else if let Some(error) = optional_f32_failure(metadata, ATTENTION_SCALE_KEY) {
        Some(error)
    } else if optional_f32_value(metadata, ATTENTION_SCALE_KEY) matches Some(scale)
        && !float_bits::zero(scale) {
        qwen35::relation_failure(
            ATTENTION_SCALE_KEY,
            "only the source default 1/sqrt(key width) attention scale is implemented",
        )
    } else if let Some(error) = optional_bool_failure(metadata, ATTENTION_CAUSAL_KEY) {
        Some(error)
    } else if optional_bool_value(metadata, ATTENTION_CAUSAL_KEY) == Some(false) {
        qwen35::relation_failure(
            ATTENTION_CAUSAL_KEY,
            "only causal full attention is implemented",
        )
    } else if dimensions.vocabulary > usize::MAX {
        Some(Error::ArithmeticOverflow { context: "execution vocabulary" })
    } else if dimensions.main_block_count > usize::MAX {
        Some(Error::ArithmeticOverflow { context: "execution main block count" })
    } else if dimensions.full_attention_interval > usize::MAX {
        Some(Error::ArithmeticOverflow { context: "execution full-attention interval" })
    } else if dimensions.full_attention_interval == 0 || dimensions.heads == 0
        || dimensions.key_value_heads == 0 || dimensions.key_width == 0 || dimensions.heads
        % dimensions.key_value_heads != 0 {
        qwen35::relation_failure(
            "qwen35.attention.head_count",
            "execution requires nonzero divisible heads and a nonzero key width",
        )
    } else {
        None
    }
}

/// The sum of the four rotary sections.
pub open spec fn section_pairs(metadata: Map<Seq<char>, MetaValue>) -> int {
    rope_section(metadata, ROPE_SECTIONS_KEY, 0) + rope_section(metadata, ROPE_SECTIONS_KEY, 1)
        + rope_section(metadata, ROPE_SECTIONS_KEY, 2) + rope_section(
        metadata,
        ROPE_SECTIONS_KEY,
        3,
    )
}

/// The first rotary-section check that fails, if one does.
pub open spec fn sections_failure(
    metadata: Map<Seq<char>, MetaValue>,
    dimensions: Qwen35ExecutionDimensions,
) -> Option<Error> {
    if let Some(error) = rope_sections_failure(metadata, ROPE_SECTIONS_KEY) {
        Some(error)
    } else if exists|i: int|
        0 <= i < 4 && #[trigger] rope_section(metadata, ROPE_SECTIONS_KEY, i) < 0 {
        qwen35::relation_failure(ROPE_SECTIONS_KEY, "must not contain negative sections")
    } else if section_pairs(metadata) > usize::MAX {
        Some(Error::ArithmeticOverflow { context: "MRoPE section pairs" })
    } else if section_pairs(metadata) > dimensions.key_width || (rope_section(
        metadata,
        ROPE_SECTIONS_KEY,
        0,
    ) == 0 && rope_section(metadata, ROPE_SECTIONS_KEY, 1) == 0 && rope_section(
        metadata,
        ROPE_SECTIONS_KEY,
        2,
    ) == 0) {
        qwen35::relation_failure(
            ROPE_SECTIONS_KEY,
            "must contain four sections no wider than the key width, with one text axis",
        )
    } else {
        None
    }
}

/// The bit pattern of the rotary base.
pub open spec fn rope_base_bits(metadata: Map<Seq<char>, MetaValue>) -> u32 {
    match optional_f32_value(metadata, ROPE_FREQ_BASE_KEY) {
        Some(bits) => bits,
        None => DEFAULT_ROPE_BASE,
    }
}

/// The declared kind of rotary scaling; linear unless stated.
pub open spec fn scaling_kind(metadata: Map<Seq<char>, MetaValue>) -> Seq<char> {
    string_value_or(metadata, ROPE_SCALING_TYPE_KEY, "linear"@)
}

/// The bit pattern of the stored scaling factor: the current key wins over the
/// legacy one, and zero stands for unset.
pub open spec fn raw_scaling_bits(metadata: Map<Seq<char>, MetaValue>) -> u32 {
    match optional_f32_value(metadata, ROPE_SCALING_FACTOR_KEY) {
        Some(bits) => bits,
        None => match optional_f32_value(metadata, ROPE_LEGACY_LINEAR_SCALE_KEY) {
            Some(bits) => bits,
            None => 0,
        },
    }
}

/// The key that the stored scaling factor is read from.
pub open spec fn scaling_key(metadata: Map<Seq<char>, MetaValue>) -> &'static str {
    if optional_f32_value(metadata, ROPE_SCALING_FACTOR_KEY) is Some {
        ROPE_SCALING_FACTOR_KEY
    } else {
        ROPE_LEGACY_LINEAR_SCALE_KEY
    }
}

/// The bit pattern of the effective scaling factor: one where scaling is off or unset.
pub open spec fn scaling_bits(metadata: Map<Seq<char>, MetaValue>) -> u32 {
    if scaling_kind(metadata) == "none"@ || float_bits::zero(raw_scaling_bits(metadata)) {
        ONE
    } else {
        raw_scaling_bits(metadata)
    }
}

/// The bit pattern of the attention scaling factor; one unless stated.
pub open spec fn attention_factor_bits(metadata: Map<Seq<char>, MetaValue>) -> u32 {
    match optional_f32_value(metadata, ROPE_SCALING_ATTENTION_FACTOR_KEY) {
        Some(bits) => bits,
        None => ONE,
    }
}

/// The first rotary-base or scaling check that fails, if one does.
pub open spec fn scaling_failure(metadata: Map<Seq<char>, MetaValue>) -> Option<Error> {
    if let Some(error) = optional_f32_failure(metadata, ROPE_FREQ_BASE_KEY) {
        Some(error)
    } else if !float_bits::positive_finite(rope_base_bits(metadata)) {
        qwen35::relation_failure(
            ROPE_FREQ_BASE_KEY,
            "must be finite and positive for execution",
        )
    } else if let Some(error) = optional_string_failure(metadata, ROPE_SCALING_TYPE_KEY) {
        Some(error)
    } else if scaling_kind(metadata) != "linear"@ && scaling_kind(metadata) != "none"@ {
        qwen35::relation_failure(
            ROPE_SCALING_TYPE_KEY,
            "only source-defined linear or none RoPE scaling is implemented",
        )
    } else if let Some(error) = optional_f32_failure(metadata, ROPE_SCALING_FACTOR_KEY) {
        Some(error)
    } else if optional_f32_value(metadata, ROPE_SCALING_FACTOR_KEY) is None
        && optional_f32_failure(metadata, ROPE_LEGACY_LINEAR_SCALE_KEY) is Some {
        optional_f32_failure(metadata, ROPE_LEGACY_LINEAR_SCALE_KEY)
    } else if let Some(error) = optional_f32_failure(
        metadata,
        ROPE_SCALING_ATTENTION_FACTOR_KEY,
    ) {
        Some(error)
    } else if !float_bits::positive_finite(scaling_bits(metadata)) {
        qwen35::relation_failure(
            scaling_key(metadata),
            "present scaling factors must be finite and positive",
        )
    } else if !float_bits::positive_finite(attention_factor_bits(metadata)) {
        qwen35::relation_failure(
            ROPE_SCALING_ATTENTION_FACTOR_KEY,
            "present scaling factors must be finite and positive",
        )
    } else if scaling_bits(metadata) != ONE {
        qwen35::relation_failure(
            scaling_key(metadata),
            "only source-defined effective unscaled RoPE is implemented",
        )
    } else if attention_factor_bits(metadata) != ONE {
        qwen35::relation_failure(
            ROPE_SCALING_ATTENTION_FACTOR_KEY,
            "only source-defined effective unscaled RoPE is implemented",
        )
    } else {
        None
    }
}

/// Why an artifact cannot execute under a caller context, if it cannot: the
/// first check that fails, in reading order.
pub open spec fn layout_failure(
    metadata: Map<Seq<char>, MetaValue>,
    dimensions: Qwen35ExecutionDimensions,
    max_context: usize,
) -> Option<Error> {
    if let Some(error) = context_failure(metadata, dimensions, max_context) {
        Some(error)
    } else if let Some(error) = attention_failure(metadata, dimensions) {
        Some(error)
    } else if let Some(error) = sections_failure(metadata, dimensions) {
        Some(error)
    } else if let Some(error) = scaling_failure(metadata) {
        Some(error)
    } else if dimensions.key_value_heads * dimensions.key_width > usize::MAX {
        Some(Error::ArithmeticOverflow { context: "execution KV width" })
    } else if dimensions.heads * dimensions.key_width > usize::MAX {
        Some(Error::ArithmeticOverflow { context: "execution query width" })
    } else {
        qwen35::epsilon_failure(metadata)
    }
}

impl Layout {
    /// Whether the layout is that of an admitted artifact.
    pub open spec fn wf(self) -> bool {
        &&& self.heads > 0 && self.kv_heads > 0 && self.key > 0 && self.full_interval > 0
        &&& self.heads % self.kv_heads == 0
        &&& self.kv_width == self.kv_heads * self.key
        &&& self.query_width == self.heads * self.key
        &&& 0 < self.n_rot <= self.key && self.n_rot % 2 == 0
        &&& 0 < self.max_context <= MAX_TEXT_CONTEXT
        &&& 0 < self.rope_sections@[0] + self.rope_sections@[1] + self.rope_sections@[2]
            + self.rope_sections@[3] <= self.key
        &&& float_bits::positive_finite(self.epsilon)
        &&& float_bits::positive_finite(self.rope_base)
    }

    /// Whether the layout carries the values of an artifact and a caller context.
    pub open spec fn describes(
        self,
        metadata: Map<Seq<char>, MetaValue>,
        dimensions: Qwen35ExecutionDimensions,
        max_context: usize,
    ) -> bool {
        &&& self.hidden == dimensions.hidden
        &&& self.feed_forward == dimensions.feed_forward
        &&& self.heads == dimensions.heads
        &&& self.kv_heads == dimensions.key_value_heads
        &&& self.key == dimensions.key_width
        &&& self.n_rot == rotary_width(metadata, dimensions)
        &&& self.kv_width == dimensions.key_value_heads * dimensions.key_width
        &&& self.query_width == dimensions.heads * dimensions.key_width
        &&& self.vocabulary == dimensions.vocabulary
        &&& self.main_blocks == dimensions.main_block_count
        &&& self.full_interval == dimensions.full_attention_interval
        &&& self.max_context == max_context
        &&& metadata[LAYERNORM_RMS_EPSILON_KEY@] == MetaValue::F32(self.epsilon)
        &&& self.rope_base == rope_base_bits(metadata)
        &&& forall|i: int|
            0 <= i < 4 ==> #[trigger] self.rope_sections@[i] == rope_section(
                metadata,
                ROPE_SECTIONS_KEY,
                i,
            )
    }

    /// Derive the execution layout of an admitted artifact under a caller context.
    pub fn from_metadata(
        profile: &Qwen35StructuralProfile<'_>,
        max_context: usize,
    ) -> (layout: Result<Layout, Error>)
        ensures
            ({
                let metadata = profile.artifact().metadata@;
                let dimensions = profile.spec_dimensions().execution_dimensions_spec();
                match layout {
                    Ok(layout) => {
                        &&& layout_failure(metadata, dimensions, max_context) is None
                        &&& layout.describes(metadata, dimensions, max_context)
                        &&& layout.wf()
                    },
                    Err(error) => layout_failure(metadata, dimensions, max_context) == Some(error),
                }
            }),
    {
        let dimensions = profile.execution_dimensions();
        layout_from_metadata(&profile.observed().metadata, dimensions, max_context)
    }
}

/// Derive the execution layout of metadata and structural dimensions.
pub fn layout_from_metadata(
    metadata: &Metadata,
    dimensions: Qwen35ExecutionDimensions,
    max_context: usize,
) -> (layout: Result<Layout, Error>)
    ensures
        match layout {
            Ok(layout) => {
                &&& layout_failure(metadata@, dimensions, max_context) is None
                &&& layout.describes(metadata@, dimensions, max_context)
                &&& layout.wf()
            },
            Err(error) => layout_failure(metadata@, dimensions, max_context) == Some(error),
        },
{
    if max_context == 0 {
        return Err(
            Error::ExecutionContext {
                requested: max_context,
                rule: "caller context must be non-zero",
            },
        );
    }
    let context: u64 = required_u32(metadata, CONTEXT_LENGTH_KEY)?;
    if max_context as u64 > context {
        return Err(
            Error::ExecutionContext {
                requested: max_context,
                rule: "caller context must not exceed artifact context_length",
            },
        );
    }
    if max_context > MAX_TEXT_CONTEXT {
        return Err(
            Error::ExecutionContext {
                requested: max_context,
                rule: "caller context must fit the source signed text-position domain",
            },
        );
    }
    let hidden: usize = host_width(dimensions.hidden, "execution hidden width")?;
    let feed_forward: usize = host_width(
        dimensions.feed_forward,
        "execution feed-forward width",
    )?;
    let heads: usize = host_width(dimensions.heads, "execution head count")?;
    let kv_heads: usize = host_width(
        dimensions.key_value_heads,
        "execution key-value head count",
    )?;
    let key: usize = host_width(dimensions.key_width, "execution key width")?;
    let n_rot: usize = match optional_u32_meta(metadata, ROPE_DIMENSION_COUNT_KEY)? {
        Some(width) => width as usize,
        None => key,
    };
    if n_rot == 0 || n_rot > key || n_rot % 2 != 0 {
        return Err(
            Error::MetadataRelation {
                key: ROPE_DIMENSION_COUNT_KEY,
                rule: "must be nonzero, even, and no wider than key width",
            },
        );
    }
    if let Some(scale) = optional_f32_meta(metadata, ATTENTION_SCALE_KEY)? {
        if !is_zero(scale) {
            return Err(
                Error::MetadataRelation {
                    key: ATTENTION_SCALE_KEY,
                    rule:
                        "only the source default 1/sqrt(key width) attention scale is implemented",
                },
            );
        }
    }
    if let Some(causal) = optional_bool_meta(metadata, ATTENTION_CAUSAL_KEY)? {
        if !causal {
            return Err(
                Error::MetadataRelation {
                    key: ATTENTION_CAUSAL_KEY,
                    rule: "only causal full attention is implemented",
                },
            );
        }
    }
    let vocabulary: usize = host_width(dimensions.vocabulary, "execution vocabulary")?;
    let main_blocks: usize = host_width(
        dimensions.main_block_count,
        "execution main block count",
    )?;
    let full_interval: usize = host_width(
        dimensions.full_attention_interval,
        "execution full-attention interval",
    )?;
    if full_interval == 0 || heads == 0 || kv_heads == 0 || key == 0 || heads % kv_heads != 0 {
        return Err(
            Error::MetadataRelation {
                key: "qwen35.attention.head_count",
                rule: "execution requires nonzero divisible heads and a nonzero key width",
            },
        );
    }
    let rope_sections = admitted_sections(metadata, key)?;
    let rope_base: u32 = admitted_rope_base(metadata)?;
    let kv_width: usize = match kv_heads.checked_mul(key) {
        Some(width) => width,
        None => {
            return Err(Error::ArithmeticOverflow { context: "execution KV width" });
        },
    };
    let query_width: usize = match heads.checked_mul(key) {
        Some(width) => width,
        None => {
            return Err(Error::ArithmeticOverflow { context: "execution query width" });
        },
    };
    let epsilon: u32 = recurrent_layernorm_rms_epsilon(metadata)?;
    Ok(
        Layout {
            hidden,
            feed_forward,
            heads,
            kv_heads,
            key,
            n_rot,
            kv_width,
            query_width,
            vocabulary,
            main_blocks,
            full_interval,
            max_context,
            epsilon,
            rope_base,
            rope_sections,
        },
    )
}

/// Convert a stored width to a host width.
pub fn host_width(value: u64, context: &'static str) -> (width: Result<usize, Error>)
    ensures
        match width {
            Ok(width) => width == value,
            Err(error) => value > usize::MAX && error == (Error::ArithmeticOverflow { context }),
        },
{
    match usize::try_from(value) {
        Ok(width) => Ok(width),
        Err(_) => Err(Error::ArithmeticOverflow { context }),
    }
}

fn admitted_sections(metadata: &Metadata, key: usize) -> (sections: Result<[usize; 4], Error>)
    ensures
        forall|dimensions: Qwen35ExecutionDimensions|
            dimensions.key_width == key ==> match sections {
                Ok(sections) => {
                    &&& #[trigger] sections_failure(metadata@, dimensions) is None
                    &&& forall|i: int|
                        0 <= i < 4 ==> #[trigger] sections@[i] == rope_section(
                            metadata@,
                            ROPE_SECTIONS_KEY,
                            i,
                        )
                    &&& 0 < sections@[0] + sections@[1] + sections@[2] + sections@[3] <= key
                },
                Err(error) => sections_failure(metadata@, dimensions) == Some(error),
            },
{
    let sections = rope_sections(metadata, ROPE_SECTIONS_KEY)?;
    assert(forall|i: int|
        0 <= i < 4 ==> rope_section(metadata@, ROPE_SECTIONS_KEY, i) == #[trigger] sections@[i]);
    assert(rope_section(metadata@, ROPE_SECTIONS_KEY, 0) == sections@[0]);
    assert(rope_section(metadata@, ROPE_SECTIONS_KEY, 1) == sections@[1]);
    assert(rope_section(metadata@, ROPE_SECTIONS_KEY, 2) == sections@[2]);
    assert(rope_section(metadata@, ROPE_SECTIONS_KEY, 3) == sections@[3]);
    if sections[0] < 0 || sections[1] < 0 || sections[2] < 0 || sections[3] < 0 {
        return Err(
            Error::MetadataRelation {
                key: ROPE_SECTIONS_KEY,
                rule: "must not contain negative sections",
            },
        );
    }
    let converted: [usize; 4] = [
        sections[0] as usize,
        sections[1] as usize,
        sections[2] as usize,
        sections[3] as usize,
    ];
    let pairs: usize = match sum_four(converted[0], converted[1], converted[2], converted[3]) {
        Some(pairs) => pairs,
        None => {
            return Err(Error::ArithmeticOverflow { context: "MRoPE section pairs" });
        },
    };
    if pairs > key || (sections[0] == 0 && sections[1] == 0 && sections[2] == 0) {
        return Err(
            Error::MetadataRelation {
                key: ROPE_SECTIONS_KEY,
                rule: "must contain four sections no wider than the key width, with one text axis",
            },
        );
    }
    Ok(converted)
}

fn sum_four(first: usize, second: usize, third: usize, fourth: usize) -> (sum: Option<usize>)
    ensures
        match sum {
            Some(sum) => sum == first + second + third + fourth,
            None => first + second + third + fourth > usize::MAX,
        },
{
    match first.checked_add(second) {
        None => None,
        Some(sum) => match sum.checked_add(third) {
            None => None,
            Some(sum) => sum.checked_add(fourth),
        },
    }
}

fn admitted_rope_base(metadata: &Metadata) -> (base: Result<u32, Error>)
    ensures
        match base {
            Ok(base) => {
                &&& scaling_failure(metadata@) is None
                &&& base == rope_base_bits(metadata@)
            },
            Err(error) => scaling_failure(metadata@) == Some(error),
        },
{
    let rope_base: u32 = match optional_f32_meta(metadata, ROPE_FREQ_BASE_KEY)? {
        Some(bits) => bits,
        None => DEFAULT_ROPE_BASE,
    };
    if !is_positive_finite(rope_base) {
        return Err(
            Error::MetadataRelation {
                key: ROPE_FREQ_BASE_KEY,
                rule: "must be finite and positive for execution",
            },
        );
    }
    let scaling = match optional_string_meta(metadata, ROPE_SCALING_TYPE_KEY)? {
        Some(scaling) => scaling,
        None => "linear",
    };
    let unscaled = same_text(scaling, "none");
    if !unscaled && !same_text(scaling, "linear") {
        return Err(
            Error::MetadataRelation {
                key: ROPE_SCALING_TYPE_KEY,
                rule: "only source-defined linear or none RoPE scaling is implemented",
            },
        );
    }
    let current: Option<u32> = optional_f32_meta(metadata, ROPE_SCALING_FACTOR_KEY)?;
    let factor_key = if current.is_some() {
        ROPE_SCALING_FACTOR_KEY
    } else {
        ROPE_LEGACY_LINEAR_SCALE_KEY
    };
    let raw_factor: u32 = match current {
        Some(bits) => bits,
        None => match optional_f32_meta(metadata, ROPE_LEGACY_LINEAR_SCALE_KEY)? {
            Some(bits) => bits,
            None => 0,
        },
    };
    // `none` resets the frequency scale, so a stored factor has no effect there.
    let factor: u32 = if unscaled || is_zero(raw_factor) {
        ONE
    } else {
        raw_factor
    };
    let attention_factor: u32 = match optional_f32_meta(
        metadata,
        ROPE_SCALING_ATTENTION_FACTOR_KEY,
    )? {
        Some(bits) => bits,
        None => ONE,
    };
    if !is_positive_finite(factor) {
        return Err(
            Error::MetadataRelation {
                key: factor_key,
                rule: "present scaling factors must be finite and positive",
            },
        );
    }
    if !is_positive_finite(attention_factor) {
        return Err(
            Error::MetadataRelation {
                key: ROPE_SCALING_ATTENTION_FACTOR_KEY,
                rule: "present scaling factors must be finite and positive",
            },
        );
    }
    if factor != ONE {
        return Err(
            Error::MetadataRelation {
                key: factor_key,
                rule: "only source-defined effective unscaled RoPE is implemented",
            },
        );
    }
    if attention_factor != ONE {
        return Err(
            Error::MetadataRelation {
                key: ROPE_SCALING_ATTENTION_FACTOR_KEY,
                rule: "only source-defined effective unscaled RoPE is implemented",
            },
        );
    }
    Ok(rope_base)
}

impl Layout {
    /// Report whether two layouts are the same.
    pub fn same(self, other: Layout) -> (same: bool)
        ensures
            same == (self == other),
    {
        let widths: bool = self.hidden == other.hidden && self.feed_forward == other.feed_forward
            && self.kv_width == other.kv_width && self.query_width == other.query_width
            && self.vocabulary == other.vocabulary && self.n_rot == other.n_rot;
        let heads: bool = self.heads == other.heads && self.kv_heads == other.kv_heads && self.key
            == other.key;
        let blocks: bool = self.main_blocks == other.main_blocks && self.full_interval
            == other.full_interval && self.max_context == other.max_context;
        let values: bool = self.epsilon == other.epsilon && self.rope_base == other.rope_base;
        let sections: bool = self.rope_sections[0] == other.rope_sections[0]
            && self.rope_sections[1] == other.rope_sections[1] && self.rope_sections[2]
            == other.rope_sections[2] && self.rope_sections[3] == other.rope_sections[3];
        assert(sections == (self.rope_sections == other.rope_sections)) by {
            if sections {
                assert(self.rope_sections =~= other.rope_sections);
            }
        }
        widths && heads && blocks && values && sections
    }

    /// Return the caller-bounded context.
    pub fn max_context(self) -> (context: usize)
        ensures
            context == self.max_context,
    {
        self.max_context
    }

    /// Return the bit pattern of the normalization epsilon.
    pub fn epsilon(self) -> (bits: u32)
        ensures
            bits == self.epsilon,
    {
        self.epsilon
    }

    /// Whether main block `block` uses full attention.
    pub open spec fn full(self, block: int) -> bool {
        (block + 1) % (self.full_interval as int) == 0
    }

    /// The number of full-attention blocks.
    pub open spec fn full_layers(self) -> int {
        self.main_blocks as int / self.full_interval as int
    }

    /// Count the full-attention blocks.
    pub fn full_layer_count(self) -> (count: usize)
        requires
            self.full_interval > 0,
        ensures
            count == self.full_layers(),
    {
        self.main_blocks / self.full_interval
    }

    /// Count the recurrent blocks.
    pub fn recurrent_layer_count(self) -> (count: Result<usize, Error>)
        requires
            self.full_interval > 0,
        ensures
            count == Ok::<usize, Error>((self.main_blocks - self.full_layers()) as usize),
            0 <= self.full_layers() <= self.main_blocks,
    {
        assert(0 <= self.full_layers() <= self.main_blocks) by (nonlinear_arith)
            requires
                self.full_interval > 0,
                self.full_layers() == self.main_blocks as int / self.full_interval as int,
        ;
        match self.main_blocks.checked_sub(self.full_layer_count()) {
            Some(count) => Ok(count),
            None => Err(Error::ArithmeticOverflow { context: "recurrent execution layer count" }),
        }
    }

    /// Report whether block `block` uses full attention.
    pub fn is_full(self, block: usize) -> (full: bool)
        requires
            block < usize::MAX,
            self.full_interval > 0,
        ensures
            full == self.full(block as int),
    {
        (block + 1).is_multiple_of(self.full_interval)
    }

    /// Report whether `block` is an admitted full-attention main block.
    pub fn is_admitted_full_block(self, block: usize) -> (admitted: bool)
        requires
            self.full_interval > 0,
        ensures
            admitted == (block < self.main_blocks && self.full(block as int)),
    {
        block < self.main_blocks && self.is_full(block)
    }

    /// Return the text rotary parameters.
    pub fn text_mrope(self) -> (mrope: TextMrope)
        ensures
            mrope.rotary_width == self.n_rot,
            mrope.rope_base == self.rope_base,
            mrope.sections@ == self.rope_sections@,
    {
        TextMrope::new(self.n_rot, self.rope_base, self.rope_sections)
    }
}

/// The sum of a list of extents.
pub open spec fn total(elements: Seq<usize>) -> int
    decreases elements.len(),
{
    if elements.len() == 0 {
        0
    } else {
        total(elements.drop_last()) + elements.last()
    }
}

/// A longer list of extents does not sum to less.
pub proof fn lemma_total_prefix(elements: Seq<usize>, count: int)
    requires
        0 <= count <= elements.len(),
    ensures
        0 <= total(elements.take(count)) <= total(elements),
    decreases elements.len(),
{
    if count == elements.len() {
        assert(elements.take(count) =~= elements);
        if elements.len() > 0 {
            lemma_total_prefix(elements.drop_last(), elements.len() - 1);
            assert(elements.drop_last().take(elements.len() - 1) =~= elements.drop_last());
        }
    } else {
        lemma_total_prefix(elements.drop_last(), count);
        assert(elements.drop_last().take(count) =~= elements.take(count));
    }
}

/// Add two extents, refusing overflow.
pub fn checked_add(left: usize, right: usize, context: &'static str) -> (sum: Result<usize, Error>)
    ensures
        match sum {
            Ok(sum) => sum == left + right,
            Err(error) => {
                &&& left + right > usize::MAX
                &&& error == (Error::ArithmeticOverflow { context })
            },
        },
{
    match left.checked_add(right) {
        Some(sum) => Ok(sum),
        None => Err(Error::ArithmeticOverflow { context }),
    }
}

/// Add a list of extents, refusing overflow.
pub fn sum_elements(elements: &[usize], context: &'static str) -> (sum: Result<usize, Error>)
    ensures
        match sum {
            Ok(sum) => sum == total(elements@),
            Err(error) => {
                &&& total(elements@) > usize::MAX
                &&& error == (Error::ArithmeticOverflow { context })
            },
        },
{
    let mut sum: usize = 0;
    let mut i: usize = 0;
    assert(elements@.take(0) =~= Seq::<usize>::empty());
    while i < elements.len()
        invariant
            0 <= i <= elements.len(),
            sum == total(elements@.take(i as int)),
        decreases elements.len() - i,
    {
        let ghost longer = elements@.take(i + 1);
        proof {
            assert(longer.drop_last() =~= elements@.take(i as int));
            lemma_total_prefix(elements@, i + 1);
        }
        sum = checked_add(sum, elements[i], context)?;
        i = i + 1;
    }
    assert(elements@.take(i as int) =~= elements@);
    Ok(sum)
}

/// The number of elements of a stored tensor, unless it cannot be represented.
pub open spec fn tensor_elements(dimensions: Seq<u64>) -> Result<usize, Error>
    decreases dimensions.len(),
{
    if dimensions.len() == 0 {
        Ok(1)
    } else {
        match tensor_elements(dimensions.drop_last()) {
            Err(error) => Err(error),
            Ok(elements) => if dimensions.last() > usize::MAX {
                Err(Error::ArithmeticOverflow { context: "F32 tensor dimension" })
            } else if elements * dimensions.last() > usize::MAX {
                Err(Error::ArithmeticOverflow { context: "F32 tensor values" })
            } else {
                Ok((elements * dimensions.last()) as usize)
            },
        }
    }
}

proof fn lemma_tensor_elements_prefix(dimensions: Seq<u64>, count: int)
    requires
        0 <= count <= dimensions.len(),
        tensor_elements(dimensions.take(count)) is Err,
    ensures
        tensor_elements(dimensions) == tensor_elements(dimensions.take(count)),
    decreases dimensions.len(),
{
    if count == dimensions.len() {
        assert(dimensions.take(count) =~= dimensions);
    } else {
        assert(dimensions.drop_last().take(count) =~= dimensions.take(count));
        lemma_tensor_elements_prefix(dimensions.drop_last(), count);
    }
}

/// Count the elements of a stored tensor.
pub fn f32_tensor_elements(dimensions: &[u64]) -> (elements: Result<usize, Error>)
    ensures
        elements == tensor_elements(dimensions@),
{
    let mut elements: usize = 1;
    let mut i: usize = 0;
    assert(dimensions@.take(0) =~= Seq::<u64>::empty());
    while i < dimensions.len()
        invariant
            0 <= i <= dimensions.len(),
            tensor_elements(dimensions@.take(i as int)) == Ok::<usize, Error>(elements),
        decreases dimensions.len() - i,
    {
        let ghost longer = dimensions@.take(i + 1);
        proof {
            assert(longer.drop_last() =~= dimensions@.take(i as int));
            assert(longer.last() == dimensions@[i as int]);
            if tensor_elements(longer) is Err {
                lemma_tensor_elements_prefix(dimensions@, i + 1);
            }
        }
        let dimension: usize = host_width(dimensions[i], "F32 tensor dimension")?;
        elements =
        match elements.checked_mul(dimension) {
            Some(elements) => elements,
            None => {
                return Err(Error::ArithmeticOverflow { context: "F32 tensor values" });
            },
        };
        i = i + 1;
    }
    assert(dimensions@.take(i as int) =~= dimensions@);
    Ok(elements)
}

/// Require a derived extent to match its admitted plan.
pub fn ensure_execution_plan(
    target: &'static str,
    derived: usize,
    planned: usize,
) -> (checked: Result<(), Error>)
    ensures
        match checked {
            Ok(_) => derived == planned,
            Err(error) => {
                &&& derived != planned
                &&& error == (Error::ExecutionAllocationPlan { target, planned, derived })
            },
        },
{
    if derived != planned {
        Err(Error::ExecutionAllocationPlan { target, planned, derived })
    } else {
        Ok(())
    }
}

/// Name the tensor of `role` in block `block`.
pub fn block_name(block: usize, role: &str) -> (name: String)
    ensures
        name@ == text::block_name_spec(block as nat, role@),
{
    text::numbered_name(block as u64, role)
}

/// Require one value, given by its bit pattern, to be finite.
pub fn finite_one(bits: u32, stage: &'static str, index: usize) -> (checked: Result<(), Error>)
    ensures
        match checked {
            Ok(_) => float_bits::finite(bits),
            Err(error) => {
                &&& !float_bits::finite(bits)
                &&& error == (Error::ExecutionArithmetic { stage, index })
            },
        },
{
    if is_finite(bits) {
        Ok(())
    } else {
        Err(Error::ExecutionArithmetic { stage, index })
    }
}

/// Whether every value, given by its bit pattern, is finite.
pub open spec fn all_finite(bits: Seq<u32>) -> bool {
    forall|i: int| 0 <= i < bits.len() ==> float_bits::finite(#[trigger] bits[i])
}

/// Whether the value at `index` is the first that is not finite.
pub open spec fn first_nonfinite(bits: Seq<u32>, index: int) -> bool {
    &&& 0 <= index < bits.len()
    &&& !float_bits::finite(bits[index])
    &&& all_finite(bits.take(index))
}

/// Require every value, given by its bit pattern, to be finite; refuse the first that is not.
pub fn finite(values: &[u32], stage: &'static str) -> (checked: Result<(), Error>)
    ensures
        match checked {
            Ok(_) => all_finite(values@),
            Err(error) => error matches Error::ExecutionArithmetic { stage: at, index } && at
                == stage && first_nonfinite(values@, index as int),
        },
{
    let mut i: usize = 0;
    while i < values.len()
        invariant
            0 <= i <= values.len(),
            forall|j: int| 0 <= j < i ==> float_bits::finite(#[trigger] values@[j]),
        decreases values.len() - i,
    {
        finite_one(values[i], stage, i)?;
        i = i + 1;
    }
    Ok(())
}

/// A checked page-aware attention plan for one token: its scratch extent is the
/// attention kernel's own.
#[derive(Clone, Copy, Debug, PartialEq, Eq, Structural)]
pub struct PagedDecodePlan {
    pub attention_tokens: usize,
    pub heads: usize,
    pub kv_heads: usize,
    pub key_width: usize,
    pub workspace_elements: usize,
}

/// Count the output elements of a row-wise normalization.
pub fn rms_norm_output_elements(rows: usize, width: usize) -> (elements: Result<usize, Error>)
    ensures
        match elements {
            Ok(elements) => elements == rows * width,
            Err(error) => {
                &&& rows * width > usize::MAX
                &&& error == (Error::ArithmeticOverflow { context: "row normalization output" })
            },
        },
{
    match rows.checked_mul(width) {
        Some(elements) => Ok(elements),
        None => Err(Error::ArithmeticOverflow { context: "row normalization output" }),
    }
}

/// Named host allocations of one full-attention step.
#[derive(Clone, Copy, Debug, PartialEq, Eq, Structural)]
pub struct FullAttentionWorkspaceAllocations {
    pub attention_norm: usize,
    pub normalized_input: usize,
    pub query_gate_projection: usize,
    pub key_projection: usize,
    pub value_projection: usize,
    pub query_norm: usize,
    pub key_norm: usize,
    pub split_query: usize,
    pub split_gate: usize,
    pub normalized_query: usize,
    pub normalized_key: usize,
    pub merged_output: usize,
    pub paged_decode: PagedDecodePlan,
    pub output_projection: usize,
    pub workspace_elements: usize,
}

impl FullAttentionWorkspaceAllocations {
    /// The extents that stay live through a whole full-attention step.
    pub open spec fn live(layout: Layout) -> int {
        2 * layout.hidden + 6 * layout.query_width + 3 * layout.kv_width + 2 * layout.key
    }

    /// The first extent of a full-attention step that overflows, if one does.
    pub open spec fn failure(layout: Layout, paged_decode: PagedDecodePlan) -> Option<Error> {
        if 2 * layout.query_width > usize::MAX {
            Some(Error::ArithmeticOverflow { context: "full-attention Q/gate projection" })
        } else if Self::live(layout) > usize::MAX {
            Some(Error::ArithmeticOverflow { context: "full-attention core workspace" })
        } else if Self::live(layout) + paged_decode.workspace_elements > usize::MAX {
            Some(Error::ArithmeticOverflow { context: "full-attention score phase" })
        } else if Self::live(layout) + layout.hidden > usize::MAX {
            Some(Error::ArithmeticOverflow { context: "full-attention output projection phase" })
        } else {
            None
        }
    }

    /// The named extents of a full-attention step. The score phase and the output
    /// projection never run together, so the workspace is the larger of the two.
    pub open spec fn planned(layout: Layout, paged_decode: PagedDecodePlan) -> Self {
        FullAttentionWorkspaceAllocations {
            attention_norm: layout.hidden,
            normalized_input: layout.hidden,
            query_gate_projection: (2 * layout.query_width) as usize,
            key_projection: layout.kv_width,
            value_projection: layout.kv_width,
            query_norm: layout.key,
            key_norm: layout.key,
            split_query: layout.query_width,
            split_gate: layout.query_width,
            normalized_query: layout.query_width,
            normalized_key: layout.kv_width,
            merged_output: layout.query_width,
            paged_decode,
            output_projection: layout.hidden,
            workspace_elements: (Self::live(layout) + if paged_decode.workspace_elements
                > layout.hidden {
                paged_decode.workspace_elements
            } else {
                layout.hidden
            }) as usize,
        }
    }

    /// Name and check every allocation of one full-attention step.
    pub fn try_from_layout(
        layout: Layout,
        paged_decode: PagedDecodePlan,
    ) -> (allocations: Result<FullAttentionWorkspaceAllocations, Error>)
        requires
            layout.wf(),
        ensures
            match allocations {
                Ok(allocations) => {
                    &&& Self::failure(layout, paged_decode) is None
                    &&& allocations == Self::planned(layout, paged_decode)
                },
                Err(error) => Self::failure(layout, paged_decode) == Some(error),
            },
    {
        let hidden_dims: [u64; 1] = [layout.hidden as u64];
        let key_dims: [u64; 1] = [layout.key as u64];
        proof {
            lemma_one_dimension(hidden_dims@);
            lemma_one_dimension(key_dims@);
            assert(1 * layout.hidden == layout.hidden);
        }
        let attention_norm: usize = f32_tensor_elements(&hidden_dims)?;
        let normalized_input: usize = rms_norm_output_elements(1, layout.hidden)?;
        let query_gate_projection: usize = match layout.query_width.checked_mul(2) {
            Some(width) => width,
            None => {
                return Err(
                    Error::ArithmeticOverflow { context: "full-attention Q/gate projection" },
                );
            },
        };
        let key_projection: usize = layout.kv_width;
        let value_projection: usize = layout.kv_width;
        let query_norm: usize = f32_tensor_elements(&key_dims)?;
        let key_norm: usize = f32_tensor_elements(&key_dims)?;
        let split_query: usize = layout.query_width;
        let split_gate: usize = layout.query_width;
        let normalized_query: usize = rms_norm_output_elements(layout.heads, layout.key)?;
        let normalized_key: usize = rms_norm_output_elements(layout.kv_heads, layout.key)?;
        let merged_output: usize = layout.query_width;
        let output_projection: usize = layout.hidden;
        let named: [usize; 12] = [
            attention_norm,
            normalized_input,
            query_gate_projection,
            key_projection,
            value_projection,
            query_norm,
            key_norm,
            split_query,
            split_gate,
            normalized_query,
            normalized_key,
            merged_output,
        ];
        proof {
            lemma_total_twelve(named@);
        }
        let live: usize = sum_elements(&named, "full-attention core workspace")?;
        let attention_phase: usize = checked_add(
            live,
            paged_decode.workspace_elements,
            "full-attention score phase",
        )?;
        let output_phase: usize = checked_add(
            live,
            output_projection,
            "full-attention output projection phase",
        )?;
        Ok(
            FullAttentionWorkspaceAllocations {
                attention_norm,
                normalized_input,
                query_gate_projection,
                key_projection,
                value_projection,
                query_norm,
                key_norm,
                split_query,
                split_gate,
                normalized_query,
                normalized_key,
                merged_output,
                paged_decode,
                output_projection,
                workspace_elements: if attention_phase > output_phase {
                    attention_phase
                } else {
                    output_phase
                },
            },
        )
    }
}

proof fn lemma_one_dimension(dimensions: Seq<u64>)
    requires
        dimensions.len() == 1,
        dimensions[0] <= usize::MAX,
    ensures
        tensor_elements(dimensions) == Ok::<usize, Error>(dimensions[0] as usize),
{
    reveal_with_fuel(tensor_elements, 2);
    assert(1 * dimensions[0] == dimensions[0]);
}

proof fn lemma_total_twelve(elements: Seq<usize>)
    requires
        elements.len() == 12,
    ensures
        total(elements) == elements[0] + elements[1] + elements[2] + elements[3] + elements[4]
            + elements[5] + elements[6] + elements[7] + elements[8] + elements[9] + elements[10]
            + elements[11],
{
    reveal_with_fuel(total, 13);
}

/// Named host allocations of one feed-forward layer.
#[derive(Clone, Copy, Debug, PartialEq, Eq, Structural)]
pub struct FeedForwardWorkspaceAllocations {
    pub gate_projection: usize,
    pub up_projection: usize,
    pub activated_gate: usize,
    pub fused_activation: usize,
    pub down_projection: usize,
}

impl FeedForwardWorkspaceAllocations {
    /// The named extents of a feed-forward layer.
    pub open spec fn planned(layout: Layout) -> Self {
        FeedForwardWorkspaceAllocations {
            gate_projection: layout.feed_forward,
            up_projection: layout.feed_forward,
            activated_gate: layout.feed_forward,
            fused_activation: layout.feed_forward,
            down_projection: layout.hidden,
        }
    }

    /// The sum of the named extents.
    pub open spec fn elements(self) -> int {
        self.gate_projection + self.up_projection + self.activated_gate + self.fused_activation
            + self.down_projection
    }

    /// Name every allocation of one feed-forward layer.
    pub fn from_layout(layout: Layout) -> (allocations: FeedForwardWorkspaceAllocations)
        ensures
            allocations == Self::planned(layout),
    {
        FeedForwardWorkspaceAllocations {
            gate_projection: layout.feed_forward,
            up_projection: layout.feed_forward,
            activated_gate: layout.feed_forward,
            fused_activation: layout.feed_forward,
            down_projection: layout.hidden,
        }
    }

    /// Add the named extents.
    pub fn total_elements(self) -> (elements: Result<usize, Error>)
        ensures
            match elements {
                Ok(elements) => elements == self.elements(),
                Err(error) => {
                    &&& self.elements() > usize::MAX
                    &&& error == (Error::ArithmeticOverflow { context: "feed-forward workspace" })
                },
            },
    {
        let named: [usize; 5] = [
            self.gate_projection,
            self.up_projection,
            self.activated_gate,
            self.fused_activation,
            self.down_projection,
        ];
        proof {
            reveal_with_fuel(total, 6);
        }
        sum_elements(&named, "feed-forward workspace")
    }
}

/// Named host allocations that finish one layer after its attention.
#[derive(Clone, Copy, Debug, PartialEq, Eq, Structural)]
pub struct LayerFinishWorkspaceAllocations {
    pub attention_output: usize,
    pub post_attention_norm: usize,
    pub normalized_hidden: usize,
    pub feed_forward: FeedForwardWorkspaceAllocations,
}

impl LayerFinishWorkspaceAllocations {
    /// The named extents that finish a layer.
    pub open spec fn planned(layout: Layout) -> Self {
        LayerFinishWorkspaceAllocations {
            attention_output: layout.hidden,
            post_attention_norm: layout.hidden,
            normalized_hidden: layout.hidden,
            feed_forward: FeedForwardWorkspaceAllocations::planned(layout),
        }
    }

    /// The sum of the named extents.
    pub open spec fn elements(self) -> int {
        self.attention_output + self.post_attention_norm + self.normalized_hidden
            + self.feed_forward.elements()
    }

    /// Name every allocation that finishes one layer.
    pub fn try_from_layout(layout: Layout) -> (allocations: Result<
        LayerFinishWorkspaceAllocations,
        Error,
    >)
        ensures
            allocations == Ok::<LayerFinishWorkspaceAllocations, Error>(Self::planned(layout)),
    {
        let hidden_dims: [u64; 1] = [layout.hidden as u64];
        proof {
            lemma_one_dimension(hidden_dims@);
            assert(1 * layout.hidden == layout.hidden);
        }
        Ok(
            LayerFinishWorkspaceAllocations {
                attention_output: layout.hidden,
                post_attention_norm: f32_tensor_elements(&hidden_dims)?,
                normalized_hidden: rms_norm_output_elements(1, layout.hidden)?,
                feed_forward: FeedForwardWorkspaceAllocations::from_layout(layout),
            },
        )
    }

    /// Add the named extents.
    pub fn total_elements(self) -> (elements: Result<usize, Error>)
        ensures
            match elements {
                Ok(elements) => elements == self.elements(),
                Err(error) => {
                    &&& self.elements() > usize::MAX
                    &&& error == (Error::ArithmeticOverflow {
                        context: if self.feed_forward.elements() > usize::MAX {
                            "feed-forward workspace"
                        } else {
                            "post-attention feed-forward phase"
                        },
                    })
                },
            },
    {
        let feed_forward: usize = self.feed_forward.total_elements()?;
        let named: [usize; 4] = [
            self.attention_output,
            self.post_attention_norm,
            self.normalized_hidden,
            feed_forward,
        ];
        proof {
            reveal_with_fuel(total, 5);
        }
        sum_elements(&named, "post-attention feed-forward phase")
    }
}

/// Named host allocations of one vocabulary projection.
#[derive(Clone, Copy, Debug, PartialEq, Eq, Structural)]
pub struct LmHeadWorkspaceAllocations {
    pub output_norm: usize,
    pub normalized_hidden: usize,
    pub vocabulary_projection: usize,
}

impl LmHeadWorkspaceAllocations {
    /// The named extents of a vocabulary projection.
    pub open spec fn planned(layout: Layout) -> Self {
        LmHeadWorkspaceAllocations {
            output_norm: layout.hidden,
            normalized_hidden: layout.hidden,
            vocabulary_projection: layout.vocabulary,
        }
    }

    /// The sum of the named extents.
    pub open spec fn elements(self) -> int {
        self.output_norm + self.normalized_hidden + self.vocabulary_projection
    }

    /// Name every allocation of one vocabulary projection.
    pub fn try_from_layout(layout: Layout) -> (allocations: Result<
        LmHeadWorkspaceAllocations,
        Error,
    >)
        ensures
            allocations == Ok::<LmHeadWorkspaceAllocations, Error>(Self::planned(layout)),
    {
        let hidden_dims: [u64; 1] = [layout.hidden as u64];
        proof {
            lemma_one_dimension(hidden_dims@);
            assert(1 * layout.hidden == layout.hidden);
        }
        Ok(
            LmHeadWorkspaceAllocations {
                output_norm: f32_tensor_elements(&hidden_dims)?,
                normalized_hidden: rms_norm_output_elements(1, layout.hidden)?,
                vocabulary_projection: layout.vocabulary,
            },
        )
    }

    /// Add the named extents.
    pub fn total_elements(self) -> (elements: Result<usize, Error>)
        ensures
            match elements {
                Ok(elements) => elements == self.elements(),
                Err(error) => {
                    &&& self.elements() > usize::MAX
                    &&& error == (Error::ArithmeticOverflow { context: "LM-head workspace" })
                },
            },
    {
        let named: [usize; 3] = [
            self.output_norm,
            self.normalized_hidden,
            self.vocabulary_projection,
        ];
        proof {
            reveal_with_fuel(total, 4);
        }
        sum_elements(&named, "LM-head workspace")
    }
}

/// Count the workspace elements of one full-attention step.
pub fn full_attention_workspace_elements(
    layout: Layout,
    paged_decode: PagedDecodePlan,
) -> (elements: Result<usize, Error>)
    requires
        layout.wf(),
    ensures
        match elements {
            Ok(elements) => {
                &&& FullAttentionWorkspaceAllocations::failure(layout, paged_decode) is None
                &&& elements == FullAttentionWorkspaceAllocations::planned(
                    layout,
                    paged_decode,
                ).workspace_elements
            },
            Err(error) => FullAttentionWorkspaceAllocations::failure(layout, paged_decode) == Some(
                error,
            ),
        },
{
    let allocations = FullAttentionWorkspaceAllocations::try_from_layout(layout, paged_decode)?;
    Ok(allocations.workspace_elements)
}

/// Count the workspace elements that finish one layer.
pub fn layer_finish_workspace_elements(layout: Layout) -> (elements: Result<usize, Error>)
    ensures
        match elements {
            Ok(elements) => elements == LayerFinishWorkspaceAllocations::planned(
                layout,
            ).elements(),
            Err(error) => {
                &&& LayerFinishWorkspaceAllocations::planned(layout).elements() > usize::MAX
                &&& error == (Error::ArithmeticOverflow {
                    context: if FeedForwardWorkspaceAllocations::planned(layout).elements()
                        > usize::MAX {
                        "feed-forward workspace"
                    } else {
                        "post-attention feed-forward phase"
                    },
                })
            },
        },
{
    LayerFinishWorkspaceAllocations::try_from_layout(layout)?.total_elements()
}

/// Count the workspace elements of one token embedding.
pub fn embedding_workspace_elements(layout: Layout) -> (elements: usize)
    ensures
        elements == layout.hidden,
{
    layout.hidden
}

/// Count the workspace elements of one vocabulary projection.
pub fn lm_head_workspace_elements(layout: Layout) -> (elements: Result<usize, Error>)
    ensures
        match elements {
            Ok(elements) => elements == LmHeadWorkspaceAllocations::planned(layout).elements(),
            Err(error) => {
                &&& LmHeadWorkspaceAllocations::planned(layout).elements() > usize::MAX
                &&& error == (Error::ArithmeticOverflow { context: "LM-head workspace" })
            },
        },
{
    LmHeadWorkspaceAllocations::try_from_layout(layout)?.total_elements()
}

impl Qwen35LogitSelection {
    /// The number of logit rows that a step over `tokens` tokens retains.
    pub open spec fn rows(self, tokens: int) -> int {
        match self {
            Qwen35LogitSelection::AllTokens => tokens,
            Qwen35LogitSelection::LastToken => 1,
        }
    }

    /// Whether the logit row of token `token` of `tokens` is retained.
    pub open spec fn retains(self, token: int, tokens: int) -> bool {
        self == Qwen35LogitSelection::AllTokens || token + 1 == tokens
    }
}

/// Count the logits that a step returns.
pub fn returned_logits_elements(
    layout: Layout,
    token_count: usize,
    selection: Qwen35LogitSelection,
) -> (elements: Result<usize, Error>)
    ensures
        match elements {
            Ok(elements) => elements == selection.rows(token_count as int) * layout.vocabulary,
            Err(error) => {
                &&& selection.rows(token_count as int) * layout.vocabulary > usize::MAX
                &&& error == (Error::ArithmeticOverflow { context: "returned logits allocation" })
            },
        },
{
    let rows: usize = match selection {
        Qwen35LogitSelection::AllTokens => token_count,
        Qwen35LogitSelection::LastToken => 1,
    };
    match rows.checked_mul(layout.vocabulary) {
        Some(elements) => Ok(elements),
        None => Err(Error::ArithmeticOverflow { context: "returned logits allocation" }),
    }
}

/// Whether values are the words of an `f32` tensor of a known shape.
pub open spec fn parameter_words(
    artifact: VerifiedArtifact,
    name: Seq<char>,
    dims: Seq<u64>,
    values: Seq<u32>,
) -> bool {
    exists|tensor: VerifiedTensor<'_>|
        {
            &&& #[trigger] payload::found(artifact, name, tensor)
            &&& tensor.descriptor.ggml_type == GgmlType::F32
            &&& tensor.descriptor.dims@ == dims
            &&& payload::words_of(tensor.bytes@, values)
        }
}

/// Whether reading an execution parameter is refused with an error.
pub open spec fn read_refused(
    artifact: VerifiedArtifact,
    name: Seq<char>,
    dims: Seq<u64>,
    planned: usize,
    error: Error,
) -> bool {
    ||| payload::parameter_refused(artifact, name, dims, error)
    ||| exists|tensor: VerifiedTensor<'_>| #[trigger]
        payload::found(artifact, name, tensor) && tensor.descriptor.ggml_type == GgmlType::F32
            && tensor.descriptor.dims@ == dims && match tensor_elements(dims) {
            Err(failure) => error == failure,
            Ok(values) => if values != planned {
                error == (Error::ExecutionAllocationPlan {
                    target: "F32 parameter",
                    planned,
                    derived: values,
                })
            } else {
                ||| payload::words_refused(tensor, values, "F32 tensor bytes", error)
                ||| {
                    &&& tensor.bytes@.len() == 4 * values > 0
                    &&& error.execution_allocation("F32 parameter", values)
                }
                ||| exists|words: Seq<u32>| #[trigger]
                    payload::words_of(tensor.bytes@, words) && words.len() == values
                        && (error matches Error::ExecutionArithmetic { stage, index } && stage
                        == "F32 parameter" && first_nonfinite(words, index as int))
            },
        }
}

/// Read an execution parameter: a finite `f32` tensor of a known shape.
pub fn read_f32(
    artifact: &VerifiedArtifact,
    name: &str,
    expected_dims: &[u64],
    planned_values: usize,
) -> (values: Result<Vec<u32>, Error>)
    ensures
        match values {
            Ok(values) => {
                &&& values@.len() == planned_values
                &&& tensor_elements(expected_dims@) == Ok::<usize, Error>(planned_values)
                &&& all_finite(values@)
                &&& parameter_words(*artifact, name@, expected_dims@, values@)
            },
            Err(error) => read_refused(
                *artifact,
                name@,
                expected_dims@,
                planned_values,
                error,
            ),
        },
{
    let tensor = find_parameter(artifact, name, expected_dims)?;
    let values: usize = f32_tensor_elements(expected_dims)?;
    ensure_execution_plan("F32 parameter", values, planned_values)?;
    let words = read_words(tensor, values, "F32 tensor bytes", "F32 parameter")?;
    finite(&words, "F32 parameter")?;
    Ok(words)
}

/// Why a query-gate projection cannot be split, if it cannot: the first head that
/// does not fit refuses.
pub open spec fn split_failure(length: int, heads: int, key: int) -> Option<Error> {
    let width = 2 * key;
    if heads <= 0 {
        None
    } else if width > usize::MAX {
        Some(Error::ArithmeticOverflow { context: "Q/gate head width" })
    } else if heads * width <= length {
        None
    } else {
        let start = length / width * width;
        if start + key > usize::MAX {
            Some(Error::ArithmeticOverflow { context: "Q/gate split" })
        } else if start + width > usize::MAX {
            Some(Error::ArithmeticOverflow { context: "Q/gate end" })
        } else {
            Some(
                Error::ExecutionContext {
                    requested: if start + key > length {
                        start as usize
                    } else {
                        (start + key) as usize
                    },
                    rule: "Q/gate projection must be interleaved per head",
                },
            )
        }
    }
}

/// Whether a query and a gate are the halves of each head of a projection.
pub open spec fn splits<T>(
    projection: Seq<T>,
    heads: int,
    key: int,
    query: Seq<T>,
    gate: Seq<T>,
) -> bool {
    &&& query.len() == heads * key
    &&& gate.len() == heads * key
    &&& forall|head: int, i: int|
        #![trigger query[head * key + i]]
        #![trigger gate[head * key + i]]
        0 <= head < heads && 0 <= i < key ==> {
            &&& query[head * key + i] == projection[head * (2 * key) + i]
            &&& gate[head * key + i] == projection[head * (2 * key) + key + i]
        }
}

/// Copy the elements `start..end` of a list to the end of another.
pub fn extend_window<T: Copy>(output: &mut Vec<T>, values: &[T], start: usize, end: usize)
    requires
        start <= end <= values@.len(),
    ensures
        final(output)@ == old(output)@ + values@.subrange(start as int, end as int),
{
    let ghost before = output@;
    let mut i: usize = start;
    assert(output@ =~= before + values@.subrange(start as int, start as int));
    while i < end
        invariant
            start <= i <= end <= values@.len(),
            output@ == before + values@.subrange(start as int, i as int),
        decreases end - i,
    {
        output.push(values[i]);
        i = i + 1;
        assert(output@ =~= before + values@.subrange(start as int, i as int));
    }
}

/// Split an interleaved query-gate projection into its query and gate halves.
pub fn split_query_gate<T: Copy>(
    projection: &[T],
    heads: usize,
    key: usize,
    planned: usize,
) -> (split: Result<(Vec<T>, Vec<T>), Error>)
    ensures
        match split {
            Ok((query, gate)) => {
                &&& split_failure(projection@.len() as int, heads as int, key as int) is None
                &&& splits(projection@, heads as int, key as int, query@, gate@)
            },
            Err(error) => {
                ||| split_failure(projection@.len() as int, heads as int, key as int) == Some(
                    error,
                )
                ||| planned > 0 && error.execution_allocation("full-attention query", planned)
                ||| planned > 0 && error.execution_allocation("full-attention gate", planned)
            },
        },
{
    let query: Vec<T> = reserve("full-attention query", planned)?;
    let gate: Vec<T> = reserve("full-attention gate", planned)?;
    split_into(projection, heads, key, query, gate)
}

/// Split an interleaved query-gate projection into two empty lists.
pub fn split_into<T: Copy>(
    projection: &[T],
    heads: usize,
    key: usize,
    query: Vec<T>,
    gate: Vec<T>,
) -> (split: Result<(Vec<T>, Vec<T>), Error>)
    requires
        query@.len() == 0,
        gate@.len() == 0,
    ensures
        match split {
            Ok((query, gate)) => {
                &&& split_failure(projection@.len() as int, heads as int, key as int) is None
                &&& splits(projection@, heads as int, key as int, query@, gate@)
            },
            Err(error) => split_failure(projection@.len() as int, heads as int, key as int)
                == Some(error),
        },
{
    let mut query: Vec<T> = query;
    let mut gate: Vec<T> = gate;
    let length: usize = projection.len();
    let mut head: usize = 0;
    while head < heads
        invariant
            0 <= head <= heads,
            length == projection@.len(),
            head > 0 ==> 2 * key <= usize::MAX,
            head * (2 * key) <= length,
            splits(projection@, head as int, key as int, query@, gate@),
        decreases heads - head,
    {
        let width: usize = match key.checked_mul(2) {
            Some(width) => width,
            None => {
                return Err(Error::ArithmeticOverflow { context: "Q/gate head width" });
            },
        };
        proof {
            lemma_split_step(length as int, heads as int, head as int, key as int);
        }
        let start: usize = head * width;
        let middle: usize = match start.checked_add(key) {
            Some(middle) => middle,
            None => {
                return Err(Error::ArithmeticOverflow { context: "Q/gate split" });
            },
        };
        let end: usize = match middle.checked_add(key) {
            Some(end) => end,
            None => {
                return Err(Error::ArithmeticOverflow { context: "Q/gate end" });
            },
        };
        if middle > length {
            return Err(
                Error::ExecutionContext {
                    requested: start,
                    rule: "Q/gate projection must be interleaved per head",
                },
            );
        }
        if end > length {
            return Err(
                Error::ExecutionContext {
                    requested: middle,
                    rule: "Q/gate projection must be interleaved per head",
                },
            );
        }
        let ghost before = (query@, gate@);
        extend_window(&mut query, projection, start, middle);
        extend_window(&mut gate, projection, middle, end);
        proof {
            lemma_split_head(projection@, head as int, key as int, before, query@, gate@);
        }
        head = head + 1;
    }
    Ok((query, gate))
}

proof fn lemma_split_step(length: int, heads: int, head: int, key: int)
    requires
        0 <= head < heads,
        0 <= key,
        0 <= head * (2 * key) <= length,
    ensures
        head * (2 * key) + 2 * key == (head + 1) * (2 * key),
        (head + 1) * (2 * key) <= heads * (2 * key),
        (head + 1) * (2 * key) > length ==> length / (2 * key) == head && heads * (2 * key)
            > length,
{
    let width = 2 * key;
    assert((head + 1) * width == head * width + width) by (nonlinear_arith);
    assert((head + 1) * width <= heads * width) by (nonlinear_arith)
        requires
            head + 1 <= heads,
            0 <= width,
    ;
    if (head + 1) * width > length {
        vstd::arithmetic::div_mod::lemma_fundamental_div_mod_converse(
            length,
            width,
            head,
            length - head * width,
        );
    }
}

proof fn lemma_split_head<T>(
    projection: Seq<T>,
    head: int,
    key: int,
    before: (Seq<T>, Seq<T>),
    query: Seq<T>,
    gate: Seq<T>,
)
    requires
        0 <= head,
        0 <= key,
        (head + 1) * (2 * key) <= projection.len(),
        splits(projection, head, key, before.0, before.1),
        query == before.0 + projection.subrange(head * (2 * key), head * (2 * key) + key),
        gate == before.1 + projection.subrange(
            head * (2 * key) + key,
            head * (2 * key) + 2 * key,
        ),
        head * (2 * key) + 2 * key == (head + 1) * (2 * key),
    ensures
        splits(projection, head + 1, key, query, gate),
{
    assert((head + 1) * key == head * key + key) by (nonlinear_arith);
    assert(0 <= head * (2 * key)) by (nonlinear_arith)
        requires
            0 <= head,
            0 <= key,
    ;
    assert forall|h: int, i: int|
        #![trigger query[h * key + i]]
        #![trigger gate[h * key + i]]
        0 <= h < head + 1 && 0 <= i < key implies {
        &&& query[h * key + i] == projection[h * (2 * key) + i]
        &&& gate[h * key + i] == projection[h * (2 * key) + key + i]
    } by {
        assert(0 <= h * key) by (nonlinear_arith)
            requires
                0 <= h,
                0 <= key,
        ;
        if h < head {
            assert((h + 1) * key <= head * key) by (nonlinear_arith)
                requires
                    h + 1 <= head,
                    0 <= key,
            ;
            assert((h + 1) * key == h * key + key) by (nonlinear_arith);
            assert(query[h * key + i] == before.0[h * key + i]);
            assert(gate[h * key + i] == before.1[h * key + i]);
        }
    }
}

} // verus!
