//! Laws of errors: an error says what is so of the input that it refuses.

use crate::error::Error;
use crate::float_bits;
use crate::gguf::{GgmlType, Metadata, TensorDescriptor, VerifiedArtifact, VerifiedTensor};
use crate::matrix::{CheckedMatrix, MatrixHeader};
use crate::payload::{check_words, find_parameter};
use crate::qwen35::{Dimensions, Qwen35ExecutionDimensions};
use crate::qwen35_attention::{AttentionPass, FinishPass};
use crate::qwen35_batch;
use crate::qwen35_batch::{admit_batch, PackedPrefillPlan, Qwen35BatchExecutionPlan};
use crate::qwen35_execution;
use crate::qwen35_execution::layout_from_metadata;
use crate::qwen35_inventory;
use crate::qwen35_inventory::validate_tensor_inventory;
use crate::qwen35_requirements::Qwen35BatchCpuRequirements;
use crate::qwen35_session::{Qwen35Execution, StagedExecution};
use crate::qwen3::{Layout, Qwen3Profile};
use crate::qwen3_inventory;
use crate::qwen3_inventory::{validate_inventory, Role};
use crate::qwen3_pass;
use crate::qwen3_pass::Qwen3Pass;
use vstd::prelude::*;

verus! {

/// Whether an error about metadata is true of it: what is called missing is not stored,
/// and what is called mistyped is stored with the type it is said to have.
pub open spec fn true_of(metadata: Metadata, error: Error) -> bool {
    &&& error matches Error::MissingMetadata { key } ==> !metadata@.dom().contains(key@)
    &&& error matches Error::MetadataType { key, actual, .. } ==> metadata@.dom().contains(key@)
        && metadata@[key@].spec_value_type() == actual
}

/// Errors about structural metadata are true of it.
pub proof fn law_structural_errors(metadata: &Metadata, error: Error)
    requires
        call_ensures(Dimensions::from_metadata, (metadata,), Err::<Dimensions, Error>(error)),
    ensures
        true_of(*metadata, error),
        error is MissingMetadata || error is MetadataType || error is MetadataRelation,
{
}

/// Errors about execution metadata are true of it.
pub proof fn law_execution_errors(
    metadata: &Metadata,
    dimensions: Qwen35ExecutionDimensions,
    max_context: usize,
    error: Error,
)
    requires
        call_ensures(
            layout_from_metadata,
            (metadata, dimensions, max_context),
            Err::<qwen35_execution::Layout, Error>(error),
        ),
    ensures
        true_of(*metadata, error),
        error matches Error::ExecutionContext { requested, .. } ==> requested == max_context,
{
}

/// A tensor that is called a duplicate is stored twice, and one that is called misshapen
/// is stored with the shape it is said to have, which is not the expected one.
pub proof fn law_inventory_errors(
    dimensions: &Dimensions,
    tensors: &[TensorDescriptor],
    error: Error,
)
    requires
        call_ensures(
            validate_tensor_inventory,
            (dimensions, tensors),
            Err::<(), Error>(error),
        ),
    ensures
        error matches Error::DuplicateTensor { name } ==> exists|i: int, j: int|
            #![trigger tensors@[i], tensors@[j]]
            0 <= i < j < tensors@.len() && tensors@[i].name@ == name@ && tensors@[j].name@ == name@,
        error matches Error::UnclassifiedTensor { name } ==> exists|i: int|
            0 <= i < tensors@.len() && (#[trigger] tensors@[i]).name@ == name@,
        error matches Error::TensorShape { name, expected, actual } ==> expected@ != actual@
            && exists|i: int|
            0 <= i < tensors@.len() && (#[trigger] tensors@[i]).name@ == name@ && tensors@[i].dims@
                == actual@,
{
    let d = *dimensions;
    let entries = qwen35_inventory::rendered(d, qwen35_inventory::slots(d));
    if error is DuplicateTensor || error is UnclassifiedTensor || error is TensorShape {
        lemma_no_derivation_error(d, qwen35_inventory::slots(d));
        let i = choose|i: int|
            {
                &&& 0 <= i < tensors@.len()
                &&& #[trigger] qwen35_inventory::refuses_tensor(entries, tensors@, i, error)
                &&& !qwen35_inventory::matches_entry(entries, tensors@, i)
                &&& forall|j: int|
                    0 <= j < i ==> #[trigger] qwen35_inventory::matches_entry(entries, tensors@, j)
            };
        assert(tensors@[i].name@ == tensors@[i].name@);
        if qwen35_inventory::repeats(tensors@, i) {
            let j = choose|j: int|
                0 <= j < i && (#[trigger] tensors@[j]).name@ == tensors@[i].name@;
            assert(tensors@[j].name@ == tensors@[i].name@);
        }
    }
}

/// A shape that cannot be derived is an overflow.
proof fn lemma_no_derivation_error(d: Dimensions, slots: Seq<qwen35_inventory::Slot>)
    ensures
        qwen35_inventory::shape_failure(d, slots) matches Some(error)
            ==> error is ArithmeticOverflow,
    decreases slots.len(),
{
    if slots.len() > 0 {
        lemma_no_derivation_error(d, slots.drop_last());
    }
}

/// What an error says of a Qwen3 tensor is so: a repeated one is stored twice, a missing
/// one is not stored, and one of another type or shape is stored.
pub proof fn law_qwen3_inventory_errors(
    tensors: &[TensorDescriptor],
    layout: Layout,
    profile: Qwen3Profile,
    roles: &[Role],
    name: String,
    rule: &'static str,
)
    requires
        roles@ == qwen3_inventory::profile_roles_spec(profile),
        call_ensures(
            validate_inventory,
            (tensors, layout, roles),
            Err::<(), Error>(Error::Qwen3Tensor { name, rule }),
        ),
    ensures
        rule == "must not occur more than once" ==> exists|i: int, j: int|
            #![trigger tensors@[i], tensors@[j]]
            0 <= i < j < tensors@.len() && tensors@[i].name@ == name@ && tensors@[j].name@ == name@,
        rule == "is required by the bounded profile" || rule
            == "is required by the bounded Qwen3 profile" ==> forall|i: int|
            0 <= i < tensors@.len() ==> (#[trigger] tensors@[i]).name@ != name@,
        rule == "normalization vectors must use F32" ==> exists|i: int|
            0 <= i < tensors@.len() && (#[trigger] tensors@[i]).name@ == name@
                && tensors@[i].ggml_type != GgmlType::F32,
        rule == "matrices must use the bounded F32 or Q8_0 executable storage" ==> exists|i: int|
            0 <= i < tensors@.len() && (#[trigger] tensors@[i]).name@ == name@
                && tensors@[i].ggml_type != GgmlType::F32 && tensors@[i].ggml_type
                != GgmlType::Q8_0,
{
    reveal_strlit("must not occur more than once");
    reveal_strlit("is required by the bounded profile");
    reveal_strlit("is required by the bounded Qwen3 profile");
    reveal_strlit("normalization vectors must use F32");
    reveal_strlit("matrices must use the bounded F32 or Q8_0 executable storage");
    reveal_strlit("is outside the bounded profile role inventory");
    reveal_strlit("shape must derive from checked architecture metadata");
    reveal_strlit("must have exactly the metadata-derived bounded role count");
    let error = Error::Qwen3Tensor { name, rule };
    assert(qwen3_inventory::inventory_refused(tensors@, layout, roles@, error));
    if exists|i: int| #[trigger]
        qwen3_inventory::first_breaking(tensors@, layout, roles@, i)
            && qwen3_inventory::tensor_error(
            error,
            tensors@[i].name@,
            qwen3_inventory::tensor_rule(tensors@, layout, roles@, i)->0,
        ) {
        let i = choose|i: int| #[trigger]
            qwen3_inventory::first_breaking(tensors@, layout, roles@, i)
                && qwen3_inventory::tensor_error(
                error,
                tensors@[i].name@,
                qwen3_inventory::tensor_rule(tensors@, layout, roles@, i)->0,
            );
        assert(tensors@[i].name@ == name@);
        lemma_rules_differ();
        if qwen3_inventory::repeated(tensors@, i) {
            let j = choose|j: int|
                0 <= j < i && (#[trigger] tensors@[j]).name@ == tensors@[i].name@;
            assert(tensors@[j].name@ == name@);
        }
    } else {
        lemma_rules_differ();
        if tensors@.len() == qwen3_inventory::inventory_count(layout, roles@) {
            let k = choose|k: int| #[trigger]
                qwen3_inventory::first_absent(tensors@, layout, roles@, k)
                    && qwen3_inventory::tensor_error(
                    error,
                    qwen3_inventory::required_name(roles@, k),
                    qwen3_inventory::required_rule(roles@, k),
                );
            assert(!qwen3_inventory::present(
                tensors@,
                qwen3_inventory::required_name(roles@, k),
            ));
        }
    }
}

proof fn lemma_rules_differ()
    ensures
        "must not occur more than once"@.len() == 29,
        "is required by the bounded profile"@.len() == 34,
        "is required by the bounded Qwen3 profile"@.len() == 40,
        "normalization vectors must use F32"@.len() == 34,
        "normalization vectors must use F32"@[0] == 'n',
        "is required by the bounded profile"@[0] == 'i',
        "matrices must use the bounded F32 or Q8_0 executable storage"@.len() == 60,
        "is outside the bounded profile role inventory"@.len() == 45,
        "shape must derive from checked architecture metadata"@.len() == 52,
        "must have exactly the metadata-derived bounded role count"@.len() == 57,
{
    reveal_strlit("must not occur more than once");
    reveal_strlit("is required by the bounded profile");
    reveal_strlit("is required by the bounded Qwen3 profile");
    reveal_strlit("normalization vectors must use F32");
    reveal_strlit("matrices must use the bounded F32 or Q8_0 executable storage");
    reveal_strlit("is outside the bounded profile role inventory");
    reveal_strlit("shape must derive from checked architecture metadata");
    reveal_strlit("must have exactly the metadata-derived bounded role count");
}

/// A parameter that is refused is missing, stored otherwise than as `f32`, or stored
/// with the shape that the error says.
pub proof fn law_parameter_errors(
    artifact: &VerifiedArtifact,
    name: &str,
    dims: &[u64],
    error: Error,
)
    requires
        call_ensures(
            find_parameter,
            (artifact, name, dims),
            Err::<VerifiedTensor<'_>, Error>(error),
        ),
    ensures
        error matches Error::PayloadTensor { name: missing } ==> missing@ == name@ && forall|i: int|
            0 <= i < artifact.spec_observation().tensors@.len()
                ==> (#[trigger] artifact.spec_observation().tensors@[i]).name@ != name@,
        error matches Error::ProjectionDtype { name: named, actual } ==> named@ == name@ && actual
            != GgmlType::F32,
        error matches Error::TensorShape { name: named, expected, actual } ==> named@ == name@
            && expected@ == dims@ && actual@ != dims@,
        error is PayloadTensor || error is ProjectionDtype || error is TensorShape,
{
}

/// The bytes of a tensor are refused exactly where they are not four for every value.
pub proof fn law_word_errors(
    tensor: VerifiedTensor<'_>,
    values: usize,
    context: &'static str,
    checked: Result<(), Error>,
)
    requires
        call_ensures(check_words, (tensor, values, context), checked),
    ensures
        checked is Ok <==> tensor.bytes@.len() == 4 * values,
        checked matches Err(Error::ProjectionBytes { name, expected, actual }) ==> name@
            == tensor.descriptor.name@ && expected == 4 * values && actual == tensor.bytes@.len(),
{
}

/// A matrix is complete exactly where its rows have a known length and make up its bytes;
/// a row outside of it is refused with its number of rows.
pub proof fn law_matrix_errors(
    header: MatrixHeader<'_>,
    row_bytes: Option<usize>,
    matrix: Result<CheckedMatrix<'_>, Error>,
    checked: &CheckedMatrix<'_>,
    row: usize,
    bytes: Result<&[u8], Error>,
)
    requires
        call_ensures(MatrixHeader::with_row_bytes, (header, row_bytes), matrix),
        call_ensures(CheckedMatrix::row_bytes, (checked, row), bytes),
    ensures
        matrix is Ok ==> (row_bytes matches Some(length) && header.tensor.bytes@.len()
            == header.output_width * length),
        (row_bytes matches Some(length) && header.tensor.bytes@.len() == header.output_width
            * length && header.output_width * length <= usize::MAX) ==> matrix is Ok,
        bytes is Ok <==> row < checked.header.output_width,
        bytes matches Err(Error::ProjectionInputWidth { expected, actual, .. }) ==> expected
            == checked.header.output_width && actual == row,
{
}

/// A row of another width is refused with the planned width and its own.
pub proof fn law_row_errors(
    attention: AttentionPass,
    finish: FinishPass,
    row: Vec<u32>,
    error: Error,
    tail_error: Error,
)
    requires
        call_ensures(
            AttentionPass::normalize,
            (attention, row),
            Err::<AttentionPass, Error>(error),
        ),
        call_ensures(FinishPass::normalize, (finish, row), Err::<FinishPass, Error>(tail_error)),
    ensures
        error matches Error::ExecutionAllocationPlan { planned, derived, .. } && planned
            == attention@.layout.hidden && derived == row@.len(),
        tail_error matches Error::ExecutionAllocationPlan { planned, derived, .. } && planned
            == finish@.layout.hidden && derived == row@.len(),
{
    assert(row.len() == row@.len());
}

/// A step that is refused for its size says where it would have ended, and one that is
/// refused for a token names that token.
pub proof fn law_step_errors<R, P>(
    execution: &Qwen35Execution<R, P>,
    token_ids: &[u32],
    error: Error,
)
    requires
        call_ensures(
            Qwen35Execution::<R, P>::validate_step,
            (execution, token_ids),
            Err::<(), Error>(error),
        ),
    ensures
        error matches Error::ExecutionContext { requested, .. } ==> token_ids@.len() == 0
            && requested == 0 || requested == execution.position() + token_ids@.len(),
        error matches Error::ExecutionToken { token_id, vocabulary } ==> vocabulary
            == execution.spec_layout().vocabulary && token_id >= vocabulary && exists|i: int|
            0 <= i < token_ids@.len() && #[trigger] token_ids@[i] == token_id,
{
    lemma_token_error(token_ids@, execution.spec_layout().vocabulary as int);
}

proof fn lemma_token_error(tokens: Seq<u32>, vocabulary: int)
    requires
        0 <= vocabulary <= usize::MAX,
    ensures
        crate::qwen35_session::token_failure(tokens, vocabulary) matches Some(error) ==> {
            &&& error matches Error::ExecutionToken { token_id, vocabulary: size }
            &&& size == vocabulary && token_id >= vocabulary
            &&& exists|i: int| 0 <= i < tokens.len() && #[trigger] tokens[i] == token_id
        },
    decreases tokens.len(),
{
    if tokens.len() > 0 {
        let init = tokens.drop_last();
        lemma_token_error(init, vocabulary);
        if let Some(error) = crate::qwen35_session::token_failure(init, vocabulary) {
            if let Error::ExecutionToken { token_id, .. } = error {
                let i = choose|i: int| 0 <= i < init.len() && #[trigger] init[i] == token_id;
                assert(tokens[i] == token_id);
            }
        } else {
            assert(tokens[tokens.len() - 1] == tokens.last());
        }
    }
}

/// Values of a Qwen3 pass are admitted exactly where all are finite; the first that is
/// not is named by its place.
pub proof fn law_qwen3_finite(values: &[u32], stage: &'static str, checked: Result<(), Error>)
    requires
        call_ensures(qwen3_pass::finite, (values, stage), checked),
    ensures
        checked is Ok <==> forall|i: int|
            0 <= i < values@.len() ==> #[trigger] values@[i] & 0x7f80_0000u32 != 0x7f80_0000u32,
        checked matches Err(error) ==> {
            &&& error matches Error::Qwen3Arithmetic { stage: at, index }
            &&& at == stage && index < values@.len()
            &&& values@[index as int] & 0x7f80_0000u32 == 0x7f80_0000u32
            &&& forall|j: int|
                0 <= j < index ==> #[trigger] values@[j] & 0x7f80_0000u32 != 0x7f80_0000u32
        },
{
    assert forall|i: int| 0 <= i < values@.len() implies float_bits::finite(#[trigger] values@[i])
        == (values@[i] & 0x7f80_0000u32 != 0x7f80_0000u32) by {
        float_bits::lemma_finite_exponent(values@[i]);
    }
    if checked is Ok {
        assert forall|i: int| 0 <= i < values@.len() implies #[trigger] values@[i] & 0x7f80_0000u32
            != 0x7f80_0000u32 by {
            assert(float_bits::finite(values@[i]));
        }
    } else if let Error::Qwen3Arithmetic { stage: at, index } = checked->Err_0 {
        assert forall|j: int| 0 <= j < index implies #[trigger] values@[j] & 0x7f80_0000u32
            != 0x7f80_0000u32 by {
            assert(values@.take(index as int)[j] == values@[j]);
        }
    }
}

/// Sums and rows of another number are refused with the number that was there.
pub proof fn law_qwen3_row_errors(
    pass: Qwen3Pass,
    row: &[u32],
    error: Error,
    sums: Vec<u32>,
    sums_error: Error,
)
    requires
        call_ensures(Qwen3Pass::embed, (pass, row), Err::<Qwen3Pass, Error>(error)),
        call_ensures(Qwen3Pass::add_attention, (pass, sums), Err::<Qwen3Pass, Error>(sums_error)),
    ensures
        error matches Error::Qwen3Execution { requested, .. } && requested == row@.len(),
        sums@.len() != pass@.hidden.len() && pass@.hidden.len() <= usize::MAX ==> (
        sums_error matches Error::Qwen3Execution { requested, .. } && requested
            == pass@.hidden.len()),
{
}

proof fn lemma_packed_error(
    lengths: Seq<usize>,
    offsets: Seq<usize>,
    max_context: usize,
    count: int,
)
    requires
        0 <= count <= lengths.len() <= usize::MAX,
        lengths.len() == offsets.len(),
    ensures
        PackedPrefillPlan::sequences_failure(lengths, offsets, max_context, count) matches Some(
            error,
        ) ==> {
            &&& error matches Error::ExecutionBatch { sequence, .. }
            &&& sequence < count
            &&& lengths[sequence as int] == 0 || offsets[sequence as int]
                + lengths[sequence as int] > max_context
            &&& forall|j: int|
                0 <= j < sequence ==> #[trigger] lengths[j] > 0 && offsets[j] + lengths[j]
                    <= max_context
        },
        PackedPrefillPlan::sequences_failure(lengths, offsets, max_context, count) is None
            ==> forall|j: int|
            0 <= j < count ==> #[trigger] lengths[j] > 0 && offsets[j] + lengths[j] <= max_context,
    decreases count,
{
    if count > 0 {
        lemma_packed_error(lengths, offsets, max_context, count - 1);
        assert(lengths[count - 1] >= 0);
    }
}

/// The sequence that an error of packing names is the first that is empty or does not fit
/// the context.
pub proof fn law_packing_errors(
    lengths: Vec<usize>,
    offsets: Vec<usize>,
    max_context: usize,
    sequence: usize,
    rule: &'static str,
)
    requires
        call_ensures(
            PackedPrefillPlan::new,
            (lengths, offsets, max_context),
            Err::<PackedPrefillPlan, Error>(Error::ExecutionBatch { sequence, rule }),
        ),
        lengths@.len() == offsets@.len(),
        lengths@.len() > 0,
    ensures
        sequence < lengths@.len(),
        lengths@[sequence as int] == 0 || offsets@[sequence as int] + lengths@[sequence as int]
            > max_context,
        forall|j: int|
            0 <= j < sequence ==> #[trigger] lengths@[j] > 0 && offsets@[j] + lengths@[j]
                <= max_context,
{
    assert(lengths.len() == lengths@.len());
    lemma_packed_error(lengths@, offsets@, max_context, lengths@.len() as int);
}

proof fn lemma_batch_error<R, P>(
    executions: Seq<Qwen35Execution<R, P>>,
    token_ids: Seq<&[u32]>,
    count: int,
)
    requires
        0 <= count <= executions.len() <= usize::MAX,
    ensures
        qwen35_batch::sequences_failure(executions, token_ids, count) matches Some(
            Error::ExecutionBatch { sequence, .. },
        ) ==> sequence < count && (
        executions[sequence as int].spec_requirements().artifact_digest@
            != executions[0].spec_requirements().artifact_digest@
            || executions[sequence as int].spec_requirements().serialized_backing_bytes
            != executions[0].spec_requirements().serialized_backing_bytes),
    decreases count,
{
    if count > 0 {
        lemma_batch_error(executions, token_ids, count - 1);
        let i = count - 1;
        let execution = executions[i];
        lemma_token_error(token_ids[i]@, execution.spec_layout().vocabulary as int);
    }
}

/// The sequence that an error of a paired batch names holds another artifact than the
/// first.
pub proof fn law_batch_errors<R, P>(
    executions: &Vec<Qwen35Execution<R, P>>,
    token_ids: &[&[u32]],
    sequence: usize,
    rule: &'static str,
)
    requires
        call_ensures(
            admit_batch::<R, P>,
            (executions, token_ids),
            Err::<(PackedPrefillPlan, Qwen35BatchCpuRequirements), Error>(
                Error::ExecutionBatch { sequence, rule },
            ),
        ),
        executions@.len() == token_ids@.len(),
        executions@.len() > 0,
    ensures
        sequence < executions@.len(),
        executions@[sequence as int].spec_requirements().artifact_digest@
            != executions@[0].spec_requirements().artifact_digest@
            || executions@[sequence as int].spec_requirements().serialized_backing_bytes
            != executions@[0].spec_requirements().serialized_backing_bytes,
{
    assert(executions.len() == executions@.len());
    lemma_batch_error(executions@, token_ids@, executions@.len() as int);
    let receipts = qwen35_batch::receipts(executions@);
    lemma_sums_error(receipts, receipts.len() as int);
}

proof fn lemma_sums_error(
    receipts: Seq<crate::qwen35_requirements::Qwen35CpuRequirements>,
    count: int,
)
    ensures
        Qwen35BatchCpuRequirements::sums_failure(receipts, count) matches Some(error)
            ==> error is ArithmeticOverflow,
    decreases count,
{
    if count > 0 {
        lemma_sums_error(receipts, count - 1);
    }
}

/// The step that an error of a complete batch names is not one of its session: it is
/// incomplete, of another session or position, or over other tokens.
pub proof fn law_misaligned_steps<R, P>(
    plan: Qwen35BatchExecutionPlan<'_, '_, R, P>,
    steps: Vec<StagedExecution<R, P>>,
    sequence: usize,
    rule: &'static str,
)
    requires
        call_ensures(
            Qwen35BatchExecutionPlan::<'_, '_, R, P>::execute,
            (plan, Ok::<Vec<StagedExecution<R, P>>, Error>(steps)),
            Err::<Vec<Vec<u32>>, Error>(Error::ExecutionBatch { sequence, rule }),
        ),
        steps@.len() == old(plan.executions)@.len(),
        steps@.len() == plan.token_ids@.len(),
    ensures
        sequence < steps@.len(),
        ({
            let step = steps@[sequence as int];
            let execution = old(plan.executions)@[sequence as int];
            ||| step@.token_index != step@.tokens.len()
            ||| step.spec_session() != execution.spec_session()
            ||| step@.start != execution.position()
            ||| step@.layout != execution.spec_layout()
            ||| step@.selection != execution.spec_selection()
            ||| step@.tokens != plan.token_ids@[sequence as int]@
        }),
{
}

} // verus!
