//! Laws of metadata: what a table gives back, and which values the readers take.

use crate::allocation::{execution_room, projection_room, qwen3_room, recurrent_room, reserve};
use crate::error::Error;
use crate::gguf::{MetaValue, MetaValueType, Metadata, ObservedArtifact, VerifiedArtifact};
use crate::qwen3;
use crate::qwen35;
use crate::qwen35::{Dimensions, Qwen35ExecutionDimensions, Qwen35RecurrentLayout};
use crate::qwen35_execution;
use crate::qwen3::Qwen3Profile;
use crate::qwen3_execution::require_rank_labels;
use std::collections::TryReserveError;
use vstd::prelude::*;

verus! {

/// A table gives back what was stored under a key, and other keys keep their values.
pub proof fn law_table(
    table: &mut Metadata,
    key: String,
    value: MetaValue,
    after: &Metadata,
    name: &str,
    found: Option<&MetaValue>,
    present: bool,
)
    requires
        call_ensures(Metadata::insert, (table, key, value), ()),
        *after == *final(table),
        call_ensures(Metadata::get, (after, name), found),
        call_ensures(Metadata::contains_key, (after, name), present),
    ensures
        name@ == key@ ==> found == Some(&value),
        name@ != key@ && old(table)@.dom().contains(name@) ==> found == Some(&old(table)@[name@]),
        name@ != key@ && !old(table)@.dom().contains(name@) ==> found is None,
        present == (found is Some),
{
}

/// A new table holds nothing.
pub proof fn law_new_table(table: Metadata, lent: &Metadata, name: &str, found: Option<&MetaValue>)
    requires
        call_ensures(Metadata::new, (), table),
        *lent == table,
        call_ensures(Metadata::get, (lent, name), found),
    ensures
        found is None,
{
}

/// The type of a value is that of its variant.
pub proof fn law_value_types(value: &MetaValue, kind: MetaValueType)
    requires
        call_ensures(MetaValue::value_type, (value,), kind),
    ensures
        kind == MetaValueType::U8 <==> *value is U8,
        kind == MetaValueType::I8 <==> *value is I8,
        kind == MetaValueType::U16 <==> *value is U16,
        kind == MetaValueType::I16 <==> *value is I16,
        kind == MetaValueType::U32 <==> *value is U32,
        kind == MetaValueType::I32 <==> *value is I32,
        kind == MetaValueType::F32 <==> *value is F32,
        kind == MetaValueType::Bool <==> *value is Bool,
        kind == MetaValueType::String <==> *value is String,
        kind == MetaValueType::Array <==> *value is Array,
        kind == MetaValueType::U64 <==> *value is U64,
        kind == MetaValueType::I64 <==> *value is I64,
        kind == MetaValueType::F64 <==> *value is F64,
{
}

/// Bytes are paired with descriptors in order, one for each, or not at all.
pub proof fn law_payloads_are_paired(
    observation: ObservedArtifact,
    payloads: Vec<Vec<u8>>,
    artifact: Option<VerifiedArtifact>,
    lent: &VerifiedArtifact,
    observed: &ObservedArtifact,
)
    requires
        call_ensures(VerifiedArtifact::pair, (observation, payloads), artifact),
        artifact matches Some(artifact) ==> *lent == artifact,
        call_ensures(VerifiedArtifact::observation, (lent,), observed),
    ensures
        artifact is Some <==> payloads@.len() == observation.tensors@.len(),
        artifact is Some ==> *observed == observation && lent.spec_payloads() == payloads@,
{
}

/// A required value of a Qwen3.5 artifact is the stored one, where it has the type; the
/// error of a missing or mistyped one names its key.
pub proof fn law_required_values(
    metadata: &Metadata,
    key: &'static str,
    count: Result<u64, Error>,
    bits: Result<u32, Error>,
)
    requires
        call_ensures(qwen35::required_u32, (metadata, key), count),
        call_ensures(qwen35::required_f32, (metadata, key), bits),
    ensures
        count is Ok <==> metadata@.dom().contains(key@) && metadata@[key@] is U32,
        count matches Ok(count) ==> metadata@[key@] == MetaValue::U32(count as u32) && count
            <= u32::MAX,
        bits is Ok <==> metadata@.dom().contains(key@) && metadata@[key@] is F32,
        bits matches Ok(bits) ==> metadata@[key@] == MetaValue::F32(bits),
        !metadata@.dom().contains(key@) ==> count == Err::<u64, Error>(
            Error::MissingMetadata { key },
        ) && bits == Err::<u32, Error>(Error::MissingMetadata { key }),
        metadata@.dom().contains(key@) && !(metadata@[key@] is U32) ==> (count matches Err(
            Error::MetadataType { key: named, expected, .. },
        ) && named == key && expected == "u32"),
{
}

/// An optional value is absent, or the stored one where it has the type.
pub proof fn law_optional_values(
    metadata: &Metadata,
    key: &'static str,
    number: Result<Option<u32>, Error>,
    bits: Result<Option<u32>, Error>,
    flag: Result<Option<bool>, Error>,
    name: Result<Option<&str>, Error>,
)
    requires
        call_ensures(qwen35_execution::optional_u32_meta, (metadata, key), number),
        call_ensures(qwen35_execution::optional_f32_meta, (metadata, key), bits),
        call_ensures(qwen35_execution::optional_bool_meta, (metadata, key), flag),
        call_ensures(qwen35_execution::optional_string_meta, (metadata, key), name),
    ensures
        !metadata@.dom().contains(key@)
            ==> number == Ok::<Option<u32>, Error>(None) && bits == Ok::<
            Option<u32>,
            Error,
        >(None) && flag == Ok::<Option<bool>, Error>(None) && name is Ok && name->Ok_0 is None,
        metadata@.dom().contains(key@) ==> {
            &&& number is Ok <==> metadata@[key@] is U32
            &&& number matches Ok(Some(number)) ==> metadata@[key@] == MetaValue::U32(number)
            &&& bits is Ok <==> metadata@[key@] is F32
            &&& bits matches Ok(Some(bits)) ==> metadata@[key@] == MetaValue::F32(bits)
            &&& flag is Ok <==> metadata@[key@] is Bool
            &&& flag matches Ok(Some(flag)) ==> metadata@[key@] == MetaValue::Bool(flag)
            &&& name is Ok <==> metadata@[key@] is String
            &&& name matches Ok(Some(name)) ==> name@ == metadata@[key@]->String_0@
            &&& number matches Ok(number) ==> number is Some
            &&& bits matches Ok(bits) ==> bits is Some
            &&& flag matches Ok(flag) ==> flag is Some
            &&& name matches Ok(name) ==> name is Some
        },
{
}

/// The four rotary sections are read in order from an array of exactly four `i32`.
pub proof fn law_rotary_sections(
    metadata: &Metadata,
    key: &'static str,
    sections: Result<[i32; 4], Error>,
)
    requires
        call_ensures(qwen35_execution::rope_sections, (metadata, key), sections),
    ensures
        sections is Ok <==> metadata@.dom().contains(key@)
            && (metadata@[key@] matches MetaValue::Array(
            array,
        ) && array.element_type == MetaValueType::I32 && array.values@.len() == 4 && forall|i: int|
            0 <= i < 4 ==> #[trigger] array.values@[i] is I32),
        sections matches Ok(sections) ==> forall|i: int|
            0 <= i < 4 ==> metadata@[key@]->Array_0.values@[i] == MetaValue::I32(
                #[trigger] sections@[i],
            ),
{
    if sections is Ok {
        assert forall|i: int|
            0 <= i < 4 implies #[trigger] metadata@[key@]->Array_0.values@[i] is I32 by {}
    }
}

/// The architecture, the vocabulary, and the recurrent epsilon of Qwen3.5 metadata.
pub proof fn law_structural_values(
    metadata: &Metadata,
    architecture: Result<(), Error>,
    vocabulary: Result<u64, Error>,
    epsilon: Result<u32, Error>,
)
    requires
        call_ensures(qwen35::require_architecture, (metadata,), architecture),
        call_ensures(qwen35::required_vocabulary, (metadata,), vocabulary),
        call_ensures(qwen35::recurrent_layernorm_rms_epsilon, (metadata,), epsilon),
    ensures
        architecture is Ok <==> metadata@.dom().contains("general.architecture"@) && (
        metadata@["general.architecture"@] matches MetaValue::String(name) && name@ == "qwen35"@),
        vocabulary matches Ok(count) ==> metadata@.dom().contains("tokenizer.ggml.tokens"@) && (
        metadata@["tokenizer.ggml.tokens"@] matches MetaValue::Array(tokens)
            && tokens.element_type == MetaValueType::String && count == tokens.values@.len()),
        epsilon is Ok <==> metadata@.dom().contains("qwen35.attention.layer_norm_rms_epsilon"@) && (
        metadata@["qwen35.attention.layer_norm_rms_epsilon"@] matches MetaValue::F32(bits) && 0
            < bits < 0x7f80_0000),
        epsilon matches Ok(bits) ==> metadata@["qwen35.attention.layer_norm_rms_epsilon"@]
            == MetaValue::F32(bits),
{
    let tokens = metadata@["tokenizer.ggml.tokens"@]->Array_0.values;
    assert(tokens.len() == tokens@.len());
}

/// Dimensions fit together exactly where they are positive, heads and recurrent heads
/// divide into groups, keys are as wide as values, and the recurrent values of all heads
/// are the inner width.
pub proof fn law_relations(dimensions: &Dimensions, checked: Result<(), Error>)
    requires
        call_ensures(Dimensions::validate_relations, (dimensions,), checked),
    ensures
        ({
            let d = *dimensions;
            checked is Ok <==> {
                &&& d.hidden > 0 && d.feed_forward > 0 && d.vocabulary > 0 && d.conv_kernel > 0
                &&& 0 < d.key_value_heads <= d.heads && d.heads % d.key_value_heads == 0
                &&& d.key_width > 0 && d.key_width == d.value_width
                &&& d.inner > 0 && d.state > 0 && d.time_step_rank > 0 && d.group_count > 0
                &&& d.time_step_rank * d.state == d.inner
                &&& d.time_step_rank % d.group_count == 0
            }
        }),
{
    let d = *dimensions;
    let inner = d.inner as int;
    let rank = d.time_step_rank as int;
    let state = d.state as int;
    if rank > 0 {
        vstd::arithmetic::div_mod::lemma_fundamental_div_mod(inner, rank);
        if rank * state == inner {
            vstd::arithmetic::div_mod::lemma_fundamental_div_mod_converse(inner, rank, state, 0);
        }
    }
}

/// Recurrent blocks and execution read the dimensions as they are.
pub proof fn law_dimensions_are_handed_on(
    dimensions: &Dimensions,
    recurrent: Qwen35RecurrentLayout,
    execution: Qwen35ExecutionDimensions,
)
    requires
        call_ensures(Dimensions::recurrent_layout, (dimensions,), recurrent),
        call_ensures(Dimensions::execution_dimensions, (dimensions,), execution),
    ensures
        recurrent.hidden == dimensions.hidden && recurrent.conv_kernel == dimensions.conv_kernel
            && recurrent.inner == dimensions.inner && recurrent.state == dimensions.state
            && recurrent.time_step_rank == dimensions.time_step_rank && recurrent.group_count
            == dimensions.group_count && recurrent.main_block_count == dimensions.main_block_count
            && recurrent.full_attention_interval == dimensions.full_attention_interval,
        execution.hidden == dimensions.hidden && execution.feed_forward == dimensions.feed_forward
            && execution.heads == dimensions.heads && execution.key_value_heads
            == dimensions.key_value_heads && execution.key_width == dimensions.key_width
            && execution.vocabulary == dimensions.vocabulary && execution.main_block_count
            == dimensions.main_block_count && execution.full_attention_interval
            == dimensions.full_attention_interval,
{
}

/// The readers of Qwen3 metadata take the stored value of a key where it has the type:
/// an exact text, a `u32`, a positive `u32`, or an `f32`.
pub proof fn law_qwen3_values(
    metadata: &Metadata,
    key: &'static str,
    expected: &'static str,
    rule: &'static str,
    text: Result<(), Error>,
    number: Result<u64, Error>,
    positive: Result<usize, Error>,
    bits: Result<u32, Error>,
    finite: Result<Option<u32>, Error>,
)
    requires
        call_ensures(qwen3::require_string, (metadata, key, expected), text),
        call_ensures(qwen3::require_u32, (metadata, key, rule), number),
        call_ensures(qwen3::positive, (metadata, key), positive),
        call_ensures(qwen3::require_f32, (metadata, key), bits),
        call_ensures(qwen3::optional_finite_f32, (metadata, key), finite),
    ensures
        text is Ok <==> metadata@.dom().contains(key@)
            && (metadata@[key@] matches MetaValue::String(
            name,
        ) && name@ == expected@),
        number is Ok <==> metadata@.dom().contains(key@) && metadata@[key@] is U32,
        number matches Ok(number) ==> metadata@[key@] == MetaValue::U32(number as u32) && number
            <= u32::MAX,
        number matches Err(error) ==> error == (Error::Qwen3Metadata { key, rule }),
        positive is Ok <==> metadata@.dom().contains(key@) && metadata@[key@] is U32
            && metadata@[key@]->U32_0 > 0,
        positive matches Ok(positive) ==> positive == metadata@[key@]->U32_0,
        bits is Ok <==> metadata@.dom().contains(key@) && metadata@[key@] is F32,
        bits matches Ok(bits) ==> metadata@[key@] == MetaValue::F32(bits),
        finite is Ok <==> !metadata@.dom().contains(key@)
            || (metadata@[key@] matches MetaValue::F32(
            bits,
        ) && bits % 0x8000_0000 < 0x7f80_0000),
        finite matches Ok(Some(bits)) ==> metadata@.dom().contains(key@) && metadata@[key@]
            == MetaValue::F32(bits),
        finite matches Ok(None) ==> !metadata@.dom().contains(key@),
{
}

/// The vocabulary of Qwen3 metadata is a nonempty list of strings, the rank labels are
/// yes and no, and each profile has its own pooling.
pub proof fn law_qwen3_profile_values(
    metadata: &Metadata,
    vocabulary: Result<usize, Error>,
    labels: Result<(), Error>,
    embedding: u64,
    rank: u64,
)
    requires
        call_ensures(qwen3::vocabulary, (metadata,), vocabulary),
        call_ensures(require_rank_labels, (metadata,), labels),
        call_ensures(Qwen3Profile::pooling_type, (Qwen3Profile::Embedding,), embedding),
        call_ensures(Qwen3Profile::pooling_type, (Qwen3Profile::Rank,), rank),
    ensures
        vocabulary matches Ok(count) ==> metadata@.dom().contains("tokenizer.ggml.tokens"@) && (
        metadata@["tokenizer.ggml.tokens"@] matches MetaValue::Array(tokens)
            && tokens.element_type == MetaValueType::String && count == tokens.values@.len()
            && count > 0),
        labels is Ok <==> metadata@.dom().contains("qwen3.classifier.output_labels"@) && (
        metadata@["qwen3.classifier.output_labels"@] matches MetaValue::Array(labels)
            && labels.element_type == MetaValueType::String && labels.values@.len() == 2 && (
        labels.values@[0] matches MetaValue::String(yes) && yes@ == "yes"@) && (labels.values@[1]
            matches MetaValue::String(no) && no@ == "no"@)),
        embedding == 3 && rank == 4,
{
}

/// Refused room becomes the error of its caller, with the target and the length asked
/// for; granted room is handed on.
pub proof fn law_refused_room<T>(
    room: Result<Vec<T>, TryReserveError>,
    target: &'static str,
    length: usize,
    name: &String,
    execution: Result<Vec<T>, Error>,
    recurrent: Result<Vec<T>, Error>,
    qwen3: Result<Vec<T>, Error>,
    projection: Result<Vec<T>, Error>,
)
    requires
        call_ensures(execution_room::<T>, (room, target, length), execution),
        call_ensures(recurrent_room::<T>, (room, target, length), recurrent),
        call_ensures(qwen3_room::<T>, (room, target, length), qwen3),
        call_ensures(projection_room::<T>, (room, name, length), projection),
    ensures
        room matches Ok(values) ==> execution == Ok::<Vec<T>, Error>(values) && recurrent == Ok::<
            Vec<T>,
            Error,
        >(values) && qwen3 == Ok::<Vec<T>, Error>(values) && projection == Ok::<Vec<T>, Error>(
            values,
        ),
        room matches Err(source) ==> {
            &&& execution == Err::<Vec<T>, Error>(
                Error::ExecutionAllocation { target, length, source },
            )
            &&& recurrent == Err::<Vec<T>, Error>(
                Error::RecurrentAllocation { target, length, source },
            )
            &&& qwen3 == Err::<Vec<T>, Error>(Error::Qwen3Allocation { target, length, source })
            &&& projection is Err
        },
{
}

/// Reserved room is empty, and asking for none is never refused.
pub proof fn law_reserved_room<T>(
    target: &'static str,
    length: usize,
    values: Result<Vec<T>, Error>,
)
    requires
        call_ensures(reserve::<T>, (target, length), values),
    ensures
        values matches Ok(values) ==> values@.len() == 0,
        length == 0 ==> values is Ok,
{
}

} // verus!
