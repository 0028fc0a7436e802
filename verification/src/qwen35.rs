//! Qwen3.5 GGUF structural preflight.
//!
//! The tensor-role inventory and the cross-field relations of a hybrid
//! Qwen3.5 artifact: which metadata it carries, how its dimensions relate, and
//! exactly which tensors, of which shapes, it stores.

use crate::error::Error;
use crate::float_bits;
use crate::float_bits::is_positive_finite;
use crate::gguf::{MetaValue, MetaValueType, Metadata, ObservedArtifact};
use crate::qwen35_inventory;
use crate::qwen35_inventory::validate_tensor_inventory;
use crate::text::same_text;
use vstd::prelude::*;

verus! {

pub const ARCHITECTURE_KEY: &'static str = "general.architecture";

pub const ARCHITECTURE_VALUE: &'static str = "qwen35";

pub const BLOCK_COUNT_KEY: &'static str = "qwen35.block_count";

pub const NEXTN_PREDICT_LAYERS_KEY: &'static str = "qwen35.nextn_predict_layers";

pub const FULL_ATTENTION_INTERVAL_KEY: &'static str = "qwen35.full_attention_interval";

pub const EMBEDDING_LENGTH_KEY: &'static str = "qwen35.embedding_length";

pub const FEED_FORWARD_LENGTH_KEY: &'static str = "qwen35.feed_forward_length";

pub const HEAD_COUNT_KEY: &'static str = "qwen35.attention.head_count";

pub const KEY_VALUE_HEAD_COUNT_KEY: &'static str = "qwen35.attention.head_count_kv";

pub const KEY_LENGTH_KEY: &'static str = "qwen35.attention.key_length";

pub const RECURRENT_LAYERS_KEY: &'static str = "qwen35.attention.recurrent_layers";

pub const VALUE_LENGTH_KEY: &'static str = "qwen35.attention.value_length";

pub const LAYERNORM_RMS_EPSILON_KEY: &'static str = "qwen35.attention.layer_norm_rms_epsilon";

pub const SSM_CONV_KERNEL_KEY: &'static str = "qwen35.ssm.conv_kernel";

pub const SSM_INNER_SIZE_KEY: &'static str = "qwen35.ssm.inner_size";

pub const SSM_STATE_SIZE_KEY: &'static str = "qwen35.ssm.state_size";

pub const SSM_TIME_STEP_RANK_KEY: &'static str = "qwen35.ssm.time_step_rank";

pub const SSM_GROUP_COUNT_KEY: &'static str = "qwen35.ssm.group_count";

pub const TOKENS_KEY: &'static str = "tokenizer.ggml.tokens";

pub const TOKEN_EMBEDDING_TENSOR: &'static str = "token_embd.weight";

pub const OUTPUT_NORM_TENSOR: &'static str = "output_norm.weight";

pub const OUTPUT_TENSOR: &'static str = "output.weight";

pub const ATTN_GATE_ROLE: &'static str = "attn_gate.weight";

pub const ATTN_K_ROLE: &'static str = "attn_k.weight";

pub const ATTN_K_NORM_ROLE: &'static str = "attn_k_norm.weight";

pub const ATTN_NORM_ROLE: &'static str = "attn_norm.weight";

pub const ATTN_OUTPUT_ROLE: &'static str = "attn_output.weight";

pub const ATTN_Q_ROLE: &'static str = "attn_q.weight";

pub const ATTN_QKV_ROLE: &'static str = "attn_qkv.weight";

pub const ATTN_Q_NORM_ROLE: &'static str = "attn_q_norm.weight";

pub const ATTN_V_ROLE: &'static str = "attn_v.weight";

pub const FFN_DOWN_ROLE: &'static str = "ffn_down.weight";

pub const FFN_GATE_ROLE: &'static str = "ffn_gate.weight";

pub const FFN_UP_ROLE: &'static str = "ffn_up.weight";

pub const NEXTN_EH_PROJ_ROLE: &'static str = "nextn.eh_proj.weight";

pub const NEXTN_ENORM_ROLE: &'static str = "nextn.enorm.weight";

pub const NEXTN_HNORM_ROLE: &'static str = "nextn.hnorm.weight";

pub const NEXTN_SHARED_HEAD_NORM_ROLE: &'static str = "nextn.shared_head_norm.weight";

pub const POST_ATTENTION_NORM_ROLE: &'static str = "post_attention_norm.weight";

pub const SSM_A_ROLE: &'static str = "ssm_a";

pub const SSM_ALPHA_ROLE: &'static str = "ssm_alpha.weight";

pub const SSM_BETA_ROLE: &'static str = "ssm_beta.weight";

pub const SSM_CONV1D_ROLE: &'static str = "ssm_conv1d.weight";

pub const SSM_DT_ROLE: &'static str = "ssm_dt.bias";

pub const SSM_NORM_ROLE: &'static str = "ssm_norm.weight";

pub const SSM_OUT_ROLE: &'static str = "ssm_out.weight";

pub const MAX_NEXTN_LAYERS: u64 = 1;

pub const Q_PROJECTION_MULTIPLIER: u64 = 2;

/// A failed structural relation.
pub open spec fn relation_failure(key: &'static str, rule: &'static str) -> Option<Error> {
    Some(Error::MetadataRelation { key, rule })
}

/// Why a required `u32` value cannot be read, if it cannot.
pub open spec fn u32_failure(
    metadata: Map<Seq<char>, MetaValue>,
    key: &'static str,
) -> Option<Error> {
    if !metadata.dom().contains(key@) {
        Some(Error::MissingMetadata { key })
    } else if !(metadata[key@] is U32) {
        Some(
            Error::MetadataType {
                key,
                expected: "u32",
                actual: metadata[key@].spec_value_type(),
            },
        )
    } else {
        None
    }
}

/// The `u32` value stored under a key.
pub open spec fn u32_value(metadata: Map<Seq<char>, MetaValue>, key: &'static str) -> u64 {
    metadata[key@]->U32_0 as u64
}

/// Why the architecture is not Qwen3.5, if it is not.
pub open spec fn architecture_failure(metadata: Map<Seq<char>, MetaValue>) -> Option<Error> {
    if !metadata.dom().contains(ARCHITECTURE_KEY@) {
        Some(Error::MissingMetadata { key: ARCHITECTURE_KEY })
    } else {
        match metadata[ARCHITECTURE_KEY@] {
            MetaValue::String(architecture) => if architecture@ == ARCHITECTURE_VALUE@ {
                None
            } else {
                relation_failure(ARCHITECTURE_KEY, "general.architecture must be qwen35")
            },
            other => Some(
                Error::MetadataType {
                    key: ARCHITECTURE_KEY,
                    expected: "string",
                    actual: other.spec_value_type(),
                },
            ),
        }
    }
}

/// Why the token vocabulary cannot be read, if it cannot.
pub open spec fn vocabulary_failure(metadata: Map<Seq<char>, MetaValue>) -> Option<Error> {
    if !metadata.dom().contains(TOKENS_KEY@) {
        Some(Error::MissingMetadata { key: TOKENS_KEY })
    } else {
        match metadata[TOKENS_KEY@] {
            MetaValue::Array(tokens) => if tokens.element_type != MetaValueType::String {
                relation_failure(
                    TOKENS_KEY,
                    "tokenizer.ggml.tokens must declare string array elements",
                )
            } else if exists|i: int|
                0 <= i < tokens.values@.len() && #[trigger] tokens.values@[i].spec_value_type()
                    != MetaValueType::String {
                relation_failure(
                    TOKENS_KEY,
                    "tokenizer.ggml.tokens values must all be strings",
                )
            } else {
                None
            },
            other => Some(
                Error::MetadataType {
                    key: TOKENS_KEY,
                    expected: "array<string>",
                    actual: other.spec_value_type(),
                },
            ),
        }
    }
}

/// The number of tokens in the vocabulary.
pub open spec fn vocabulary_len(metadata: Map<Seq<char>, MetaValue>) -> u64 {
    metadata[TOKENS_KEY@]->Array_0.values@.len() as u64
}

/// The checked structural dimensions of one artifact.
#[derive(Clone, Copy, Debug, PartialEq, Eq, Structural)]
pub struct Dimensions {
    pub hidden: u64,
    pub feed_forward: u64,
    pub heads: u64,
    pub key_value_heads: u64,
    pub key_width: u64,
    pub value_width: u64,
    pub conv_kernel: u64,
    pub inner: u64,
    pub state: u64,
    pub time_step_rank: u64,
    pub group_count: u64,
    pub vocabulary: u64,
    pub stored_block_count: u64,
    pub main_block_count: u64,
    pub nextn_block_count: u64,
    pub full_attention_interval: u64,
}

/// The dimensions that complete metadata describes.
pub open spec fn dimensions_of(metadata: Map<Seq<char>, MetaValue>) -> Dimensions {
    Dimensions {
        hidden: u32_value(metadata, EMBEDDING_LENGTH_KEY),
        feed_forward: u32_value(metadata, FEED_FORWARD_LENGTH_KEY),
        heads: u32_value(metadata, HEAD_COUNT_KEY),
        key_value_heads: u32_value(metadata, KEY_VALUE_HEAD_COUNT_KEY),
        key_width: u32_value(metadata, KEY_LENGTH_KEY),
        value_width: u32_value(metadata, VALUE_LENGTH_KEY),
        conv_kernel: u32_value(metadata, SSM_CONV_KERNEL_KEY),
        inner: u32_value(metadata, SSM_INNER_SIZE_KEY),
        state: u32_value(metadata, SSM_STATE_SIZE_KEY),
        time_step_rank: u32_value(metadata, SSM_TIME_STEP_RANK_KEY),
        group_count: u32_value(metadata, SSM_GROUP_COUNT_KEY),
        vocabulary: vocabulary_len(metadata),
        stored_block_count: u32_value(metadata, BLOCK_COUNT_KEY),
        main_block_count: (u32_value(metadata, BLOCK_COUNT_KEY) - u32_value(
            metadata,
            NEXTN_PREDICT_LAYERS_KEY,
        )) as u64,
        nextn_block_count: u32_value(metadata, NEXTN_PREDICT_LAYERS_KEY),
        full_attention_interval: u32_value(metadata, FULL_ATTENTION_INTERVAL_KEY),
    }
}

/// Why the block structure is outside the domain, if it is.
pub open spec fn block_structure_failure(metadata: Map<Seq<char>, MetaValue>) -> Option<Error> {
    if let Some(error) = architecture_failure(metadata) {
        Some(error)
    } else if metadata.dom().contains(RECURRENT_LAYERS_KEY@) {
        relation_failure(
            RECURRENT_LAYERS_KEY,
            "attention.recurrent_layers is outside the interval-derived structural domain",
        )
    } else if let Some(error) = u32_failure(metadata, BLOCK_COUNT_KEY) {
        Some(error)
    } else if let Some(error) = u32_failure(metadata, NEXTN_PREDICT_LAYERS_KEY) {
        Some(error)
    } else if u32_value(metadata, NEXTN_PREDICT_LAYERS_KEY) > MAX_NEXTN_LAYERS {
        relation_failure(
            NEXTN_PREDICT_LAYERS_KEY,
            "the bounded structural domain permits only zero or one NextN block",
        )
    } else if u32_value(metadata, BLOCK_COUNT_KEY) < u32_value(
        metadata,
        NEXTN_PREDICT_LAYERS_KEY,
    ) {
        relation_failure(BLOCK_COUNT_KEY, "block_count must be at least nextn_predict_layers")
    } else if u32_value(metadata, BLOCK_COUNT_KEY) == u32_value(
        metadata,
        NEXTN_PREDICT_LAYERS_KEY,
    ) {
        relation_failure(BLOCK_COUNT_KEY, "at least one main decoder block is required")
    } else if let Some(error) = u32_failure(metadata, FULL_ATTENTION_INTERVAL_KEY) {
        Some(error)
    } else if u32_value(metadata, FULL_ATTENTION_INTERVAL_KEY) == 0 {
        relation_failure(FULL_ATTENTION_INTERVAL_KEY, "full_attention_interval must be non-zero")
    } else {
        None
    }
}

/// Why a dimension cannot be read, if one cannot.
pub open spec fn dimension_read_failure(metadata: Map<Seq<char>, MetaValue>) -> Option<Error> {
    if let Some(error) = u32_failure(metadata, EMBEDDING_LENGTH_KEY) {
        Some(error)
    } else if let Some(error) = u32_failure(metadata, FEED_FORWARD_LENGTH_KEY) {
        Some(error)
    } else if let Some(error) = u32_failure(metadata, HEAD_COUNT_KEY) {
        Some(error)
    } else if let Some(error) = u32_failure(metadata, KEY_VALUE_HEAD_COUNT_KEY) {
        Some(error)
    } else if let Some(error) = u32_failure(metadata, KEY_LENGTH_KEY) {
        Some(error)
    } else if let Some(error) = u32_failure(metadata, VALUE_LENGTH_KEY) {
        Some(error)
    } else if let Some(error) = u32_failure(metadata, SSM_CONV_KERNEL_KEY) {
        Some(error)
    } else if let Some(error) = u32_failure(metadata, SSM_INNER_SIZE_KEY) {
        Some(error)
    } else if let Some(error) = u32_failure(metadata, SSM_STATE_SIZE_KEY) {
        Some(error)
    } else if let Some(error) = u32_failure(metadata, SSM_TIME_STEP_RANK_KEY) {
        Some(error)
    } else if let Some(error) = u32_failure(metadata, SSM_GROUP_COUNT_KEY) {
        Some(error)
    } else {
        vocabulary_failure(metadata)
    }
}

/// Why metadata is outside the structural domain, if it is: the first check
/// that fails, in reading order.
pub open spec fn metadata_failure(metadata: Map<Seq<char>, MetaValue>) -> Option<Error> {
    if let Some(error) = block_structure_failure(metadata) {
        Some(error)
    } else if let Some(error) = dimension_read_failure(metadata) {
        Some(error)
    } else {
        dimensions_of(metadata).relations_failure()
    }
}

impl Dimensions {
    /// The first structural relation that these dimensions violate, if any.
    pub open spec fn relations_failure(self) -> Option<Error> {
        if self.hidden == 0 {
            relation_failure(EMBEDDING_LENGTH_KEY, "must be non-zero")
        } else if self.feed_forward == 0 {
            relation_failure(FEED_FORWARD_LENGTH_KEY, "must be non-zero")
        } else if self.heads == 0 {
            relation_failure(HEAD_COUNT_KEY, "must be non-zero")
        } else if self.key_value_heads == 0 {
            relation_failure(KEY_VALUE_HEAD_COUNT_KEY, "must be non-zero")
        } else if self.key_width == 0 {
            relation_failure(KEY_LENGTH_KEY, "must be non-zero")
        } else if self.value_width == 0 {
            relation_failure(VALUE_LENGTH_KEY, "must be non-zero")
        } else if self.conv_kernel == 0 {
            relation_failure(SSM_CONV_KERNEL_KEY, "must be non-zero")
        } else if self.inner == 0 {
            relation_failure(SSM_INNER_SIZE_KEY, "must be non-zero")
        } else if self.state == 0 {
            relation_failure(SSM_STATE_SIZE_KEY, "must be non-zero")
        } else if self.time_step_rank == 0 {
            relation_failure(SSM_TIME_STEP_RANK_KEY, "must be non-zero")
        } else if self.group_count == 0 {
            relation_failure(SSM_GROUP_COUNT_KEY, "must be non-zero")
        } else if self.vocabulary == 0 {
            relation_failure(TOKENS_KEY, "must be non-zero")
        } else if self.key_value_heads > self.heads {
            relation_failure(
                KEY_VALUE_HEAD_COUNT_KEY,
                "attention.head_count_kv must not exceed attention.head_count",
            )
        } else if self.heads % self.key_value_heads != 0 {
            relation_failure(
                KEY_VALUE_HEAD_COUNT_KEY,
                "attention.head_count must be divisible by attention.head_count_kv",
            )
        } else if self.key_width != self.value_width {
            relation_failure(
                VALUE_LENGTH_KEY,
                "attention.value_length must equal attention.key_length for Qwen3.5 NextN",
            )
        } else if self.inner % self.time_step_rank != 0 {
            relation_failure(
                SSM_INNER_SIZE_KEY,
                "ssm.inner_size must be divisible by ssm.time_step_rank",
            )
        } else if self.inner / self.time_step_rank != self.state {
            relation_failure(
                SSM_STATE_SIZE_KEY,
                "ssm.state_size must equal ssm.inner_size / ssm.time_step_rank",
            )
        } else if self.time_step_rank % self.group_count != 0 {
            relation_failure(
                SSM_TIME_STEP_RANK_KEY,
                "ssm.time_step_rank must be divisible by ssm.group_count",
            )
        } else {
            None
        }
    }

    /// Whether the dimensions satisfy every structural relation.
    pub open spec fn relations_hold(self) -> bool {
        &&& self.hidden > 0 && self.feed_forward > 0 && self.vocabulary > 0
        &&& 0 < self.key_value_heads <= self.heads
        &&& self.heads % self.key_value_heads == 0
        &&& 0 < self.key_width == self.value_width
        &&& self.conv_kernel > 0 && self.inner > 0 && self.group_count > 0
        &&& self.time_step_rank > 0 && self.inner % self.time_step_rank == 0
        &&& 0 < self.state == self.inner / self.time_step_rank
        &&& self.time_step_rank % self.group_count == 0
    }

    /// Whether the dimensions are those of an admitted artifact.
    pub open spec fn wf(self) -> bool {
        &&& self.relations_hold()
        &&& self.full_attention_interval > 0
        &&& self.nextn_block_count <= MAX_NEXTN_LAYERS
        &&& self.main_block_count > 0
        &&& self.stored_block_count == self.main_block_count + self.nextn_block_count
        &&& self.stored_block_count <= u32::MAX
    }

    /// Derive the dimensions from metadata.
    pub fn from_metadata(metadata: &Metadata) -> (dimensions: Result<Dimensions, Error>)
        ensures
            match dimensions {
                Ok(dimensions) => {
                    &&& metadata_failure(metadata@) is None
                    &&& dimensions == dimensions_of(metadata@)
                    &&& dimensions.wf()
                },
                Err(error) => metadata_failure(metadata@) == Some(error),
            },
    {
        require_architecture(metadata)?;
        if metadata.contains_key(RECURRENT_LAYERS_KEY) {
            return Err(
                Error::MetadataRelation {
                    key: RECURRENT_LAYERS_KEY,
                    rule:
                        "attention.recurrent_layers is outside the interval-derived structural domain",
                },
            );
        }
        let stored_block_count: u64 = required_u32(metadata, BLOCK_COUNT_KEY)?;
        let nextn_block_count: u64 = required_u32(metadata, NEXTN_PREDICT_LAYERS_KEY)?;
        if nextn_block_count > MAX_NEXTN_LAYERS {
            return Err(
                Error::MetadataRelation {
                    key: NEXTN_PREDICT_LAYERS_KEY,
                    rule: "the bounded structural domain permits only zero or one NextN block",
                },
            );
        }
        let main_block_count: u64 = match stored_block_count.checked_sub(nextn_block_count) {
            Some(count) => count,
            None => {
                return Err(
                    Error::MetadataRelation {
                        key: BLOCK_COUNT_KEY,
                        rule: "block_count must be at least nextn_predict_layers",
                    },
                );
            },
        };
        if main_block_count == 0 {
            return Err(
                Error::MetadataRelation {
                    key: BLOCK_COUNT_KEY,
                    rule: "at least one main decoder block is required",
                },
            );
        }
        let full_attention_interval: u64 = required_u32(metadata, FULL_ATTENTION_INTERVAL_KEY)?;
        if full_attention_interval == 0 {
            return Err(
                Error::MetadataRelation {
                    key: FULL_ATTENTION_INTERVAL_KEY,
                    rule: "full_attention_interval must be non-zero",
                },
            );
        }
        let dimensions = Dimensions {
            hidden: required_u32(metadata, EMBEDDING_LENGTH_KEY)?,
            feed_forward: required_u32(metadata, FEED_FORWARD_LENGTH_KEY)?,
            heads: required_u32(metadata, HEAD_COUNT_KEY)?,
            key_value_heads: required_u32(metadata, KEY_VALUE_HEAD_COUNT_KEY)?,
            key_width: required_u32(metadata, KEY_LENGTH_KEY)?,
            value_width: required_u32(metadata, VALUE_LENGTH_KEY)?,
            conv_kernel: required_u32(metadata, SSM_CONV_KERNEL_KEY)?,
            inner: required_u32(metadata, SSM_INNER_SIZE_KEY)?,
            state: required_u32(metadata, SSM_STATE_SIZE_KEY)?,
            time_step_rank: required_u32(metadata, SSM_TIME_STEP_RANK_KEY)?,
            group_count: required_u32(metadata, SSM_GROUP_COUNT_KEY)?,
            vocabulary: required_vocabulary(metadata)?,
            stored_block_count,
            main_block_count,
            nextn_block_count,
            full_attention_interval,
        };
        dimensions.validate_relations()?;
        Ok(dimensions)
    }

    /// Check every structural relation, in a fixed order.
    pub fn validate_relations(&self) -> (checked: Result<(), Error>)
        ensures
            match checked {
                Ok(_) => self.relations_failure() is None && self.relations_hold(),
                Err(error) => self.relations_failure() == Some(error) && !self.relations_hold(),
            },
    {
        require_nonzero(EMBEDDING_LENGTH_KEY, self.hidden)?;
        require_nonzero(FEED_FORWARD_LENGTH_KEY, self.feed_forward)?;
        require_nonzero(HEAD_COUNT_KEY, self.heads)?;
        require_nonzero(KEY_VALUE_HEAD_COUNT_KEY, self.key_value_heads)?;
        require_nonzero(KEY_LENGTH_KEY, self.key_width)?;
        require_nonzero(VALUE_LENGTH_KEY, self.value_width)?;
        require_nonzero(SSM_CONV_KERNEL_KEY, self.conv_kernel)?;
        require_nonzero(SSM_INNER_SIZE_KEY, self.inner)?;
        require_nonzero(SSM_STATE_SIZE_KEY, self.state)?;
        require_nonzero(SSM_TIME_STEP_RANK_KEY, self.time_step_rank)?;
        require_nonzero(SSM_GROUP_COUNT_KEY, self.group_count)?;
        require_nonzero(TOKENS_KEY, self.vocabulary)?;
        if self.key_value_heads > self.heads {
            return Err(
                Error::MetadataRelation {
                    key: KEY_VALUE_HEAD_COUNT_KEY,
                    rule: "attention.head_count_kv must not exceed attention.head_count",
                },
            );
        }
        if !self.heads.is_multiple_of(self.key_value_heads) {
            return Err(
                Error::MetadataRelation {
                    key: KEY_VALUE_HEAD_COUNT_KEY,
                    rule: "attention.head_count must be divisible by attention.head_count_kv",
                },
            );
        }
        if self.key_width != self.value_width {
            return Err(
                Error::MetadataRelation {
                    key: VALUE_LENGTH_KEY,
                    rule: "attention.value_length must equal attention.key_length for Qwen3.5 NextN",
                },
            );
        }
        if !self.inner.is_multiple_of(self.time_step_rank) {
            return Err(
                Error::MetadataRelation {
                    key: SSM_INNER_SIZE_KEY,
                    rule: "ssm.inner_size must be divisible by ssm.time_step_rank",
                },
            );
        }
        if self.inner / self.time_step_rank != self.state {
            return Err(
                Error::MetadataRelation {
                    key: SSM_STATE_SIZE_KEY,
                    rule: "ssm.state_size must equal ssm.inner_size / ssm.time_step_rank",
                },
            );
        }
        if !self.time_step_rank.is_multiple_of(self.group_count) {
            return Err(
                Error::MetadataRelation {
                    key: SSM_TIME_STEP_RANK_KEY,
                    rule: "ssm.time_step_rank must be divisible by ssm.group_count",
                },
            );
        }
        Ok(())
    }
}

fn require_nonzero(key: &'static str, value: u64) -> (checked: Result<(), Error>)
    ensures
        match checked {
            Ok(_) => value != 0,
            Err(error) => value == 0 && Some(error) == relation_failure(key, "must be non-zero"),
        },
{
    if value == 0 {
        Err(Error::MetadataRelation { key, rule: "must be non-zero" })
    } else {
        Ok(())
    }
}

/// Require the Qwen3.5 architecture.
pub fn require_architecture(metadata: &Metadata) -> (checked: Result<(), Error>)
    ensures
        match checked {
            Ok(_) => architecture_failure(metadata@) is None,
            Err(error) => architecture_failure(metadata@) == Some(error),
        },
{
    match metadata.get(ARCHITECTURE_KEY) {
        None => Err(Error::MissingMetadata { key: ARCHITECTURE_KEY }),
        Some(MetaValue::String(architecture)) => {
            if same_text(architecture.as_str(), ARCHITECTURE_VALUE) {
                Ok(())
            } else {
                Err(
                    Error::MetadataRelation {
                        key: ARCHITECTURE_KEY,
                        rule: "general.architecture must be qwen35",
                    },
                )
            }
        },
        Some(value) => Err(
            Error::MetadataType {
                key: ARCHITECTURE_KEY,
                expected: "string",
                actual: value.value_type(),
            },
        ),
    }
}

/// Read a required `u32` value.
pub fn required_u32(metadata: &Metadata, key: &'static str) -> (value: Result<u64, Error>)
    ensures
        match value {
            Ok(value) => {
                &&& u32_failure(metadata@, key) is None
                &&& value == u32_value(metadata@, key)
                &&& value <= u32::MAX
            },
            Err(error) => u32_failure(metadata@, key) == Some(error),
        },
{
    match metadata.get(key) {
        None => Err(Error::MissingMetadata { key }),
        Some(MetaValue::U32(value)) => Ok(*value as u64),
        Some(value) => Err(
            Error::MetadataType { key, expected: "u32", actual: value.value_type() },
        ),
    }
}

/// Read the number of tokens of a vocabulary of strings.
pub fn required_vocabulary(metadata: &Metadata) -> (vocabulary: Result<u64, Error>)
    ensures
        match vocabulary {
            Ok(vocabulary) => {
                &&& vocabulary_failure(metadata@) is None
                &&& vocabulary == vocabulary_len(metadata@)
            },
            Err(error) => vocabulary_failure(metadata@) == Some(error),
        },
{
    match metadata.get(TOKENS_KEY) {
        None => Err(Error::MissingMetadata { key: TOKENS_KEY }),
        Some(MetaValue::Array(tokens)) => {
            if tokens.element_type != MetaValueType::String {
                return Err(
                    Error::MetadataRelation {
                        key: TOKENS_KEY,
                        rule: "tokenizer.ggml.tokens must declare string array elements",
                    },
                );
            }
            let mut i: usize = 0;
            while i < tokens.values.len()
                invariant
                    0 <= i <= tokens.values.len(),
                    metadata@.dom().contains(TOKENS_KEY@),
                    metadata@[TOKENS_KEY@] == MetaValue::Array(*tokens),
                    tokens.element_type == MetaValueType::String,
                    forall|j: int|
                        0 <= j < i ==> #[trigger] tokens.values@[j].spec_value_type()
                            == MetaValueType::String,
                decreases tokens.values.len() - i,
            {
                if tokens.values[i].value_type() != MetaValueType::String {
                    assert(tokens.values@[i as int].spec_value_type() != MetaValueType::String);
                    return Err(
                        Error::MetadataRelation {
                            key: TOKENS_KEY,
                            rule: "tokenizer.ggml.tokens values must all be strings",
                        },
                    );
                }
                i = i + 1;
            }
            Ok(tokens.values.len() as u64)
        },
        Some(value) => Err(
            Error::MetadataType {
                key: TOKENS_KEY,
                expected: "array<string>",
                actual: value.value_type(),
            },
        ),
    }
}

/// Recurrent dimensions retained after the metadata parse.
#[derive(Clone, Copy, Debug, PartialEq, Eq, Structural)]
pub struct Qwen35RecurrentLayout {
    pub hidden: u64,
    pub conv_kernel: u64,
    pub inner: u64,
    pub state: u64,
    pub time_step_rank: u64,
    pub group_count: u64,
    pub main_block_count: u64,
    pub full_attention_interval: u64,
}

/// Checked structural dimensions reused by payload-bound execution.
#[derive(Clone, Copy, Debug, PartialEq, Eq, Structural)]
pub struct Qwen35ExecutionDimensions {
    pub hidden: u64,
    pub feed_forward: u64,
    pub heads: u64,
    pub key_value_heads: u64,
    pub key_width: u64,
    pub vocabulary: u64,
    pub main_block_count: u64,
    pub full_attention_interval: u64,
}

impl Dimensions {
    /// The dimensions that recurrent blocks read.
    pub open spec fn recurrent_layout_spec(self) -> Qwen35RecurrentLayout {
        Qwen35RecurrentLayout {
            hidden: self.hidden,
            conv_kernel: self.conv_kernel,
            inner: self.inner,
            state: self.state,
            time_step_rank: self.time_step_rank,
            group_count: self.group_count,
            main_block_count: self.main_block_count,
            full_attention_interval: self.full_attention_interval,
        }
    }

    /// The dimensions that payload-bound execution reads.
    pub open spec fn execution_dimensions_spec(self) -> Qwen35ExecutionDimensions {
        Qwen35ExecutionDimensions {
            hidden: self.hidden,
            feed_forward: self.feed_forward,
            heads: self.heads,
            key_value_heads: self.key_value_heads,
            key_width: self.key_width,
            vocabulary: self.vocabulary,
            main_block_count: self.main_block_count,
            full_attention_interval: self.full_attention_interval,
        }
    }

    /// Return the dimensions that recurrent blocks read.
    pub fn recurrent_layout(&self) -> (layout: Qwen35RecurrentLayout)
        ensures
            layout == self.recurrent_layout_spec(),
    {
        Qwen35RecurrentLayout {
            hidden: self.hidden,
            conv_kernel: self.conv_kernel,
            inner: self.inner,
            state: self.state,
            time_step_rank: self.time_step_rank,
            group_count: self.group_count,
            main_block_count: self.main_block_count,
            full_attention_interval: self.full_attention_interval,
        }
    }

    /// Return the dimensions that payload-bound execution reads.
    pub fn execution_dimensions(&self) -> (dimensions: Qwen35ExecutionDimensions)
        ensures
            dimensions == self.execution_dimensions_spec(),
    {
        Qwen35ExecutionDimensions {
            hidden: self.hidden,
            feed_forward: self.feed_forward,
            heads: self.heads,
            key_value_heads: self.key_value_heads,
            key_width: self.key_width,
            vocabulary: self.vocabulary,
            main_block_count: self.main_block_count,
            full_attention_interval: self.full_attention_interval,
        }
    }
}

/// A Qwen3.5 tensor topology bound to one observation.
///
/// A profile exists only for an observation whose metadata and tensor
/// descriptors match the structural domain. It is neither artifact provenance
/// nor an execution, quality, or residency claim. An explicit
/// `attention.recurrent_layers` override is outside the interval-derived domain
/// and is refused rather than silently ignored.
#[derive(Debug)]
pub struct Qwen35StructuralProfile<'artifact> {
    observed: &'artifact ObservedArtifact,
    dimensions: Dimensions,
}

/// Whether an observation matches the structural domain.
pub open spec fn structure_admitted(observed: ObservedArtifact) -> bool {
    &&& metadata_failure(observed.metadata@) is None
    &&& qwen35_inventory::inventory_admitted(
        dimensions_of(observed.metadata@),
        observed.tensors@,
    )
}

/// Whether an observation is refused with an error: metadata is checked before tensors.
pub open spec fn structure_refused(observed: ObservedArtifact, error: Error) -> bool {
    match metadata_failure(observed.metadata@) {
        Some(failure) => error == failure,
        None => qwen35_inventory::inventory_refused(
            dimensions_of(observed.metadata@),
            observed.tensors@,
            error,
        ),
    }
}

impl<'artifact> Qwen35StructuralProfile<'artifact> {
    /// The observation that passed the preflight.
    pub closed spec fn artifact(self) -> ObservedArtifact {
        *self.observed
    }

    /// The dimensions of the observation.
    pub open spec fn spec_dimensions(self) -> Dimensions {
        dimensions_of(self.artifact().metadata@)
    }

    #[verifier::type_invariant]
    spec fn admitted(self) -> bool {
        &&& structure_admitted(*self.observed)
        &&& self.dimensions == dimensions_of(self.observed.metadata@)
        &&& self.dimensions.wf()
    }

    /// Construct a structural profile from an observation.
    pub fn try_from_observed(observed: &'artifact ObservedArtifact) -> (profile: Result<
        Qwen35StructuralProfile<'artifact>,
        Error,
    >)
        ensures
            match profile {
                Ok(profile) => {
                    &&& structure_admitted(*observed)
                    &&& profile.artifact() == *observed
                    &&& profile.spec_dimensions().wf()
                },
                Err(error) => !structure_admitted(*observed) && structure_refused(
                    *observed,
                    error,
                ),
            },
    {
        let dimensions = Dimensions::from_metadata(&observed.metadata)?;
        validate_tensor_inventory(&dimensions, &observed.tensors)?;
        Ok(Qwen35StructuralProfile { observed, dimensions })
    }

    /// Borrow the exact observation that passed this preflight.
    pub fn observed(&self) -> (observed: &'artifact ObservedArtifact)
        ensures
            *observed == self.artifact(),
    {
        self.observed
    }

    /// Return the number of stored `blk.N` groups, including an optional `NextN` block.
    pub fn stored_block_count(&self) -> (count: u64)
        ensures
            count == self.spec_dimensions().stored_block_count,
    {
        proof {
            use_type_invariant(self);
        }
        self.dimensions.stored_block_count
    }

    /// Return the number of main decoder block groups, excluding `NextN`.
    pub fn main_block_count(&self) -> (count: u64)
        ensures
            count == self.spec_dimensions().main_block_count,
    {
        proof {
            use_type_invariant(self);
        }
        self.dimensions.main_block_count
    }

    /// Return the number of terminal `NextN` block groups.
    pub fn nextn_block_count(&self) -> (count: u64)
        ensures
            count == self.spec_dimensions().nextn_block_count,
    {
        proof {
            use_type_invariant(self);
        }
        self.dimensions.nextn_block_count
    }

    /// Return the dimensions that recurrent blocks read.
    pub fn recurrent_layout(&self) -> (layout: Qwen35RecurrentLayout)
        ensures
            layout == self.spec_dimensions().recurrent_layout_spec(),
    {
        proof {
            use_type_invariant(self);
        }
        self.dimensions.recurrent_layout()
    }

    /// Return the dimensions that payload-bound execution reads.
    pub fn execution_dimensions(&self) -> (dimensions: Qwen35ExecutionDimensions)
        ensures
            dimensions == self.spec_dimensions().execution_dimensions_spec(),
    {
        proof {
            use_type_invariant(self);
        }
        self.dimensions.execution_dimensions()
    }
}

/// Why a required `f32` value cannot be read, if it cannot.
pub open spec fn f32_failure(
    metadata: Map<Seq<char>, MetaValue>,
    key: &'static str,
) -> Option<Error> {
    if !metadata.dom().contains(key@) {
        Some(Error::MissingMetadata { key })
    } else if !(metadata[key@] is F32) {
        Some(
            Error::MetadataType {
                key,
                expected: "f32",
                actual: metadata[key@].spec_value_type(),
            },
        )
    } else {
        None
    }
}

/// Read the bit pattern of a required `f32` value.
pub fn required_f32(metadata: &Metadata, key: &'static str) -> (bits: Result<u32, Error>)
    ensures
        match bits {
            Ok(bits) => f32_failure(metadata@, key) is None && metadata@[key@] == MetaValue::F32(
                bits,
            ),
            Err(error) => f32_failure(metadata@, key) == Some(error),
        },
{
    match metadata.get(key) {
        None => Err(Error::MissingMetadata { key }),
        Some(MetaValue::F32(bits)) => Ok(*bits),
        Some(value) => Err(
            Error::MetadataType { key, expected: "f32", actual: value.value_type() },
        ),
    }
}

/// Why the recurrent normalization epsilon is unusable, if it is.
pub open spec fn epsilon_failure(metadata: Map<Seq<char>, MetaValue>) -> Option<Error> {
    if let Some(error) = f32_failure(metadata, LAYERNORM_RMS_EPSILON_KEY) {
        Some(error)
    } else if !float_bits::positive_finite(metadata[LAYERNORM_RMS_EPSILON_KEY@]->F32_0) {
        relation_failure(
            LAYERNORM_RMS_EPSILON_KEY,
            "attention.layer_norm_rms_epsilon must be finite and positive for recurrent execution",
        )
    } else {
        None
    }
}

/// Read the bit pattern of the recurrent normalization epsilon.
pub fn recurrent_layernorm_rms_epsilon(metadata: &Metadata) -> (bits: Result<u32, Error>)
    ensures
        match bits {
            Ok(bits) => {
                &&& epsilon_failure(metadata@) is None
                &&& metadata@[LAYERNORM_RMS_EPSILON_KEY@] == MetaValue::F32(bits)
            },
            Err(error) => epsilon_failure(metadata@) == Some(error),
        },
{
    let bits: u32 = required_f32(metadata, LAYERNORM_RMS_EPSILON_KEY)?;
    if !is_positive_finite(bits) {
        return Err(
            Error::MetadataRelation {
                key: LAYERNORM_RMS_EPSILON_KEY,
                rule:
                    "attention.layer_norm_rms_epsilon must be finite and positive for recurrent execution",
            },
        );
    }
    Ok(bits)
}

/// Terminal `NextN` blocks are outside the main model: artifacts that differ in them
/// alone have the same execution dimensions and the same recurrent layout.
pub proof fn lemma_nextn_outside_main_model(with: Dimensions, without: Dimensions)
    requires
        with == (Dimensions {
            stored_block_count: with.stored_block_count,
            nextn_block_count: with.nextn_block_count,
            ..without
        }),
    ensures
        with.execution_dimensions_spec() == without.execution_dimensions_spec(),
        with.recurrent_layout_spec() == without.recurrent_layout_spec(),
{
}

} // verus!
