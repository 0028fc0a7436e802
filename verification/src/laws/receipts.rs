//! Laws of host-capacity receipts and of batches of sessions.

use crate::error::Error;
use crate::laws::execution::{lemma_marked, marked};
use crate::qwen35::{Qwen35RecurrentLayout, Qwen35StructuralProfile};
use crate::qwen35_batch;
use crate::qwen35_batch::{
    admit_batch, publish_all, same_digest, PackedPrefillPlan, Qwen35BatchExecutionPlan,
};
use crate::qwen35_execution;
use crate::qwen35_execution::{
    full_attention_workspace_elements, layer_finish_workspace_elements, lm_head_workspace_elements,
    returned_logits_elements, Layout, Qwen35LogitSelection,
};
use crate::qwen35_recurrent::{retained_elements, ExecutionLayout};
use crate::qwen35_requirements;
use crate::qwen35_requirements::{
    KernelExtents, Qwen35BatchCpuRequirements, Qwen35CpuRequirements, Qwen35RequirementElements,
};
use crate::qwen35_session::{Qwen35Execution, Qwen35ExecutionPlan, StagedExecution};
use vstd::prelude::*;

verus! {

/// The counts of an execution are those of its parts: every recurrent block is retained
/// and copied for a transaction, the pool is retained and not copied, and the workspace
/// is the hidden row with the largest stage.
pub proof fn law_requirement_elements(
    layout: Layout,
    recurrent: Qwen35RecurrentLayout,
    max_step_tokens: usize,
    selection: Qwen35LogitSelection,
    extents: KernelExtents,
    elements: Qwen35RequirementElements,
    host: ExecutionLayout,
    block: usize,
    attention: usize,
    finish: usize,
    head: usize,
    logits: usize,
)
    requires
        layout.full_interval > 0,
        call_ensures(
            Qwen35RequirementElements::try_from_layout,
            (layout, recurrent, max_step_tokens, selection, extents),
            Ok::<Qwen35RequirementElements, Error>(elements),
        ),
        call_ensures(
            ExecutionLayout::try_from_profile,
            (recurrent, layout.epsilon),
            Ok::<ExecutionLayout, Error>(host),
        ),
        call_ensures(retained_elements, (host,), Ok::<usize, Error>(block)),
        call_ensures(
            full_attention_workspace_elements,
            (layout, extents.paged_decode),
            Ok::<usize, Error>(attention),
        ),
        call_ensures(layer_finish_workspace_elements, (layout,), Ok::<usize, Error>(finish)),
        call_ensures(lm_head_workspace_elements, (layout,), Ok::<usize, Error>(head)),
        call_ensures(
            returned_logits_elements,
            (layout, max_step_tokens, selection),
            Ok::<usize, Error>(logits),
        ),
    ensures
        elements.recurrent_layer_retained == block,
        elements.full_attention_pool_retained == extents.full_attention_pool,
        ({
            let recurrent_blocks = layout.main_blocks - marked(
                layout.full_interval as int,
                layout.main_blocks as nat,
            );
            elements.transaction_copy == recurrent_blocks * block
        }),
        elements.retained == elements.transaction_copy + elements.full_attention_pool_retained,
        elements.recurrent_workspace == extents.recurrent_workspace,
        elements.full_attention_workspace == attention,
        elements.layer_finish_workspace == finish,
        elements.lm_head_workspace == head,
        elements.returned_logits == logits,
        ({
            let stage = elements.workspace_upper_bound - layout.hidden;
            &&& stage >= extents.recurrent_workspace && stage >= attention && stage >= finish
                && stage >= head
            &&& stage == extents.recurrent_workspace || stage == attention || stage == finish
                || stage == head
        }),
        elements.logical_upper_bound == elements.retained + elements.transaction_copy
            + elements.workspace_upper_bound + elements.returned_logits,
{
    lemma_marked(layout.full_interval as int, layout.main_blocks as nat);
    assert(host == ExecutionLayout::of(recurrent, layout.epsilon));
}

/// A receipt takes four bytes for every counted element, and its bound is the sum of
/// its four parts.
pub proof fn law_receipt_bytes(
    artifact_digest: [u8; 32],
    serialized_backing_bytes: u64,
    max_context: usize,
    max_step_tokens: usize,
    selection: Qwen35LogitSelection,
    elements: Qwen35RequirementElements,
    receipt: Qwen35CpuRequirements,
)
    requires
        call_ensures(
            Qwen35CpuRequirements::try_from_elements,
            (
                artifact_digest,
                serialized_backing_bytes,
                max_context,
                max_step_tokens,
                selection,
                elements,
            ),
            Ok::<Qwen35CpuRequirements, Error>(receipt),
        ),
    ensures
        receipt.artifact_digest == artifact_digest && receipt.serialized_backing_bytes
            == serialized_backing_bytes,
        receipt.max_context == max_context && receipt.max_step_tokens == max_step_tokens
            && receipt.selection == selection,
        receipt.retained_bytes == 4 * elements.retained,
        receipt.transaction_copy_bytes == 4 * elements.transaction_copy,
        receipt.workspace_upper_bound_bytes == 4 * elements.workspace_upper_bound,
        receipt.returned_logits_bytes == 4 * elements.returned_logits,
        receipt.logical_f32_upper_bound_bytes == receipt.retained_bytes
            + receipt.transaction_copy_bytes + receipt.workspace_upper_bound_bytes
            + receipt.returned_logits_bytes,
{
}

proof fn lemma_category_is_fold(
    receipts: Seq<Qwen35CpuRequirements>,
    category: spec_fn(Qwen35CpuRequirements) -> u64,
    joined: spec_fn(int, Qwen35CpuRequirements) -> int,
)
    requires
        forall|total: int, receipt: Qwen35CpuRequirements|
            #[trigger] joined(total, receipt) == total + category(receipt),
    ensures
        qwen35_requirements::category_sum(receipts, category) == receipts.fold_left(0int, joined),
    decreases receipts.len(),
{
    reveal_with_fuel(Seq::fold_left, 2);
    if receipts.len() > 0 {
        lemma_category_is_fold(receipts.drop_last(), category, joined);
    }
}

proof fn lemma_maxima(receipts: Seq<Qwen35CpuRequirements>)
    ensures
        forall|i: int|
            0 <= i < receipts.len() ==> (#[trigger] receipts[i]).workspace_upper_bound_bytes
                <= qwen35_requirements::workspace_max(receipts) && receipts[i].max_context
                <= qwen35_requirements::context_max(receipts),
        receipts.len() > 0 ==> exists|i: int|
            0 <= i < receipts.len() && (#[trigger] receipts[i]).workspace_upper_bound_bytes
                == qwen35_requirements::workspace_max(receipts),
        receipts.len() > 0 ==> exists|i: int|
            0 <= i < receipts.len() && (#[trigger] receipts[i]).max_context
                == qwen35_requirements::context_max(receipts),
    decreases receipts.len(),
{
    if receipts.len() > 0 {
        let init = receipts.drop_last();
        lemma_maxima(init);
        let last = receipts.len() - 1;
        assert(receipts[last] == receipts.last());
        assert forall|i: int| 0 <= i < receipts.len() implies (
        #[trigger] receipts[i]).workspace_upper_bound_bytes <= qwen35_requirements::workspace_max(
            receipts,
        ) && receipts[i].max_context <= qwen35_requirements::context_max(receipts) by {
            if i < last {
                assert(init[i] == receipts[i]);
            }
        }
        if init.len() > 0 {
            let a = choose|i: int|
                0 <= i < init.len() && (#[trigger] init[i]).workspace_upper_bound_bytes
                    == qwen35_requirements::workspace_max(init);
            let b = choose|i: int|
                0 <= i < init.len() && (#[trigger] init[i]).max_context
                    == qwen35_requirements::context_max(init);
            assert(receipts[a] == init[a] && receipts[b] == init[b]);
        }
    }
}

/// The receipt of a batch adds what its sessions own and takes the largest workspace
/// and context, since sessions step one after the other.
pub proof fn law_batch_receipt(
    receipts: &[Qwen35CpuRequirements],
    total_tokens: usize,
    whole: Qwen35BatchCpuRequirements,
)
    requires
        call_ensures(
            Qwen35BatchCpuRequirements::try_from_receipts,
            (receipts, total_tokens),
            Ok::<Qwen35BatchCpuRequirements, Error>(whole),
        ),
    ensures
        sums_up(receipts@, total_tokens, whole),
{
    lemma_sums_up(receipts@, total_tokens, whole);
}

/// Whether a batch's receipt adds the owned bytes of a list of receipts and takes their
/// largest workspace and context.
pub open spec fn sums_up(
    receipts: Seq<Qwen35CpuRequirements>,
    total_tokens: usize,
    whole: Qwen35BatchCpuRequirements,
) -> bool {
    &&& receipts.len() > 0
    &&& whole.sequence_count == receipts.len()
    &&& whole.total_tokens == total_tokens
    &&& whole.artifact_digest == receipts[0].artifact_digest
    &&& whole.serialized_backing_upper_bound_bytes == receipts.fold_left(
        0int,
        |total: int, receipt: Qwen35CpuRequirements| total + receipt.serialized_backing_bytes,
    )
    &&& whole.retained_bytes == receipts.fold_left(
        0int,
        |total: int, receipt: Qwen35CpuRequirements| total + receipt.retained_bytes,
    )
    &&& whole.transaction_copy_bytes == receipts.fold_left(
        0int,
        |total: int, receipt: Qwen35CpuRequirements| total + receipt.transaction_copy_bytes,
    )
    &&& whole.returned_logits_bytes == receipts.fold_left(
        0int,
        |total: int, receipt: Qwen35CpuRequirements| total + receipt.returned_logits_bytes,
    )
    &&& forall|i: int|
        0 <= i < receipts.len() ==> (#[trigger] receipts[i]).workspace_upper_bound_bytes
            <= whole.workspace_upper_bound_bytes && receipts[i].max_context <= whole.max_context
    &&& exists|i: int|
        0 <= i < receipts.len() && (#[trigger] receipts[i]).workspace_upper_bound_bytes
            == whole.workspace_upper_bound_bytes
    &&& exists|i: int|
        0 <= i < receipts.len() && (#[trigger] receipts[i]).max_context == whole.max_context
    &&& whole.logical_f32_upper_bound_bytes == whole.retained_bytes + whole.transaction_copy_bytes
        + whole.workspace_upper_bound_bytes + whole.returned_logits_bytes
}

proof fn lemma_sums_up(
    receipts: Seq<Qwen35CpuRequirements>,
    total_tokens: usize,
    whole: Qwen35BatchCpuRequirements,
)
    requires
        whole.aggregates(receipts, total_tokens),
    ensures
        sums_up(receipts, total_tokens, whole),
{
    lemma_category_is_fold(
        receipts,
        qwen35_requirements::serialized_category(),
        |total: int, receipt: Qwen35CpuRequirements| total + receipt.serialized_backing_bytes,
    );
    lemma_category_is_fold(
        receipts,
        qwen35_requirements::retained_category(),
        |total: int, receipt: Qwen35CpuRequirements| total + receipt.retained_bytes,
    );
    lemma_category_is_fold(
        receipts,
        qwen35_requirements::copy_category(),
        |total: int, receipt: Qwen35CpuRequirements| total + receipt.transaction_copy_bytes,
    );
    lemma_category_is_fold(
        receipts,
        qwen35_requirements::logits_category(),
        |total: int, receipt: Qwen35CpuRequirements| total + receipt.returned_logits_bytes,
    );
    lemma_maxima(receipts);
}

proof fn lemma_packed(lengths: Seq<usize>, offsets: Seq<usize>, max_context: usize, count: int)
    requires
        0 <= count <= lengths.len(),
    ensures
        PackedPrefillPlan::sequences_failure(lengths, offsets, max_context, count) is None
            <==> forall|i: int|
            0 <= i < count ==> #[trigger] lengths[i] > 0 && offsets[i] + lengths[i] <= max_context,
    decreases count,
{
    if count > 0 {
        lemma_packed(lengths, offsets, max_context, count - 1);
        assert(lengths[count - 1] >= 0);
    }
}

/// Sequences are packed exactly where there is one, each has a token and fits the
/// context behind its published ones; their tokens add up.
pub proof fn law_packed_sequences(
    lengths: Vec<usize>,
    offsets: Vec<usize>,
    max_context: usize,
    packed: Result<PackedPrefillPlan, Error>,
)
    requires
        call_ensures(PackedPrefillPlan::new, (lengths, offsets, max_context), packed),
    ensures
        packed is Ok ==> lengths@.len() > 0 && lengths@.len() == offsets@.len() && forall|i: int|
            0 <= i < lengths@.len() ==> #[trigger] lengths@[i] > 0 && offsets@[i] + lengths@[i]
                <= max_context,
        lengths@.len() > 0 && lengths@.len() == offsets@.len() && (forall|i: int|
            0 <= i < lengths@.len() ==> #[trigger] lengths@[i] > 0 && offsets@[i] + lengths@[i]
                <= max_context) && lengths@.fold_left(
            0int,
            |total: int, length: usize| total + length,
        ) <= usize::MAX ==> packed is Ok,
        packed matches Ok(packed) ==> packed.lengths@ == lengths@ && packed.offsets@ == offsets@
            && packed.max_context == max_context && packed.total_tokens == lengths@.fold_left(
            0int,
            |total: int, length: usize| total + length,
        ),
{
    lemma_packed(lengths@, offsets@, max_context, lengths@.len() as int);
    lemma_lengths_fold(lengths@);
}

proof fn lemma_lengths_fold(lengths: Seq<usize>)
    ensures
        qwen35_execution::total(lengths) == lengths.fold_left(
            0int,
            |total: int, length: usize| total + length,
        ),
    decreases lengths.len(),
{
    reveal_with_fuel(Seq::fold_left, 2);
    if lengths.len() > 0 {
        lemma_lengths_fold(lengths.drop_last());
    }
}

/// Two digests are the same exactly where all their bytes are.
pub proof fn law_digests(left: &[u8; 32], right: &[u8; 32], same: bool)
    requires
        call_ensures(same_digest, (left, right), same),
    ensures
        same <==> forall|i: int| 0 <= i < 32 ==> #[trigger] left@[i] == right@[i],
{
    if forall|i: int| 0 <= i < 32 ==> #[trigger] left@[i] == right@[i] {
        assert(left@ =~= right@);
    }
}

proof fn lemma_batch_sequences<R, P>(
    executions: Seq<Qwen35Execution<R, P>>,
    token_ids: Seq<&[u32]>,
    count: int,
    i: int,
)
    requires
        qwen35_batch::sequences_failure(executions, token_ids, count) is None,
        0 <= i < count,
    ensures
        qwen35_batch::sequence_failure(executions, token_ids, i) is None,
    decreases count,
{
    if i < count - 1 {
        lemma_batch_sequences(executions, token_ids, count - 1, i);
    }
}

proof fn lemma_largest_context<R, P>(executions: Seq<Qwen35Execution<R, P>>)
    ensures
        forall|i: int|
            0 <= i < executions.len() ==> (#[trigger] executions[i]).spec_layout().max_context
                <= qwen35_batch::largest_context(executions),
    decreases executions.len(),
{
    if executions.len() > 0 {
        let init = executions.drop_last();
        lemma_largest_context(init);
        assert forall|i: int| 0 <= i < executions.len() implies (
        #[trigger] executions[i]).spec_layout().max_context <= qwen35_batch::largest_context(
            executions,
        ) by {
            if i < executions.len() - 1 {
                assert(init[i] == executions[i]);
            }
        }
    }
}

/// A batch is admitted only where every session has its tokens, within its own bounds
/// and vocabulary, and all sessions hold the same artifact; its sequences are packed in
/// order, each behind what its own session published, and its receipt sums theirs up.
pub proof fn law_batch_admission<R, P>(
    executions: &Vec<Qwen35Execution<R, P>>,
    token_ids: &[&[u32]],
    packed: PackedPrefillPlan,
    whole: Qwen35BatchCpuRequirements,
    i: int,
)
    requires
        call_ensures(
            admit_batch::<R, P>,
            (executions, token_ids),
            Ok::<(PackedPrefillPlan, Qwen35BatchCpuRequirements), Error>((packed, whole)),
        ),
        0 <= i < executions@.len(),
    ensures
        executions@.len() == token_ids@.len(),
        packed.lengths@.len() == executions@.len() && packed.offsets@.len() == executions@.len(),
        packed.lengths@[i] == token_ids@[i]@.len(),
        packed.offsets@[i] == executions@[i].position(),
        0 < token_ids@[i]@.len() <= executions@[i].step_bound(),
        executions@[i].position() + token_ids@[i]@.len()
            <= executions@[i].spec_layout().max_context,
        executions@[i].spec_layout().max_context <= packed.max_context,
        executions@[i].spec_requirements().artifact_digest@
            == executions@[0].spec_requirements().artifact_digest@,
        executions@[i].spec_requirements().serialized_backing_bytes
            == executions@[0].spec_requirements().serialized_backing_bytes,
        packed.total_tokens == packed.lengths@.fold_left(
            0int,
            |total: int, length: usize| total + length,
        ),
        sums_up(
            Seq::new(executions@.len(), |j: int| executions@[j].spec_requirements()),
            packed.total_tokens,
            whole,
        ),
{
    lemma_batch_sequences(executions@, token_ids@, executions@.len() as int, i);
    lemma_largest_context(executions@);
    lemma_lengths_fold(packed.lengths@);
    lemma_sums_up(qwen35_batch::receipts(executions@), packed.total_tokens, whole);
    assert(token_ids@[i].len() == token_ids@[i]@.len());
}

/// Publishing a batch publishes every step to its own session, in order, and hands out
/// the logits of each.
pub proof fn law_batch_publication<R, P>(
    executions: &mut Vec<Qwen35Execution<R, P>>,
    staged: Vec<StagedExecution<R, P>>,
    storage: Vec<Vec<u32>>,
    logits: Vec<Vec<u32>>,
    i: int,
)
    requires
        call_ensures(publish_all::<R, P>, (executions, staged, storage), logits),
        0 <= i < staged@.len(),
    ensures
        logits@.len() == staged@.len() && final(executions)@.len() == staged@.len(),
        logits@[i]@ == staged@[i]@.logits,
        final(executions)@[i].position() == old(executions)@[i].position()
            + staged@[i]@.tokens.len(),
        final(executions)@[i].spec_layers() == staged@[i]@.layers,
        final(executions)@[i].spec_pool() == staged@[i]@.pool,
        final(executions)@[i].spec_session() == old(executions)@[i].spec_session(),
        final(executions)@[i].spec_layout() == old(executions)@[i].spec_layout(),
{
}

/// A batch publishes all its steps or none: on success every session advances by the
/// tokens planned for it, on failure every session is as it was.
pub proof fn law_batch_is_atomic<R, P>(
    plan: Qwen35BatchExecutionPlan<'_, '_, R, P>,
    staged: Result<Vec<StagedExecution<R, P>>, Error>,
    logits: Result<Vec<Vec<u32>>, Error>,
)
    requires
        call_ensures(
            Qwen35BatchExecutionPlan::<'_, '_, R, P>::execute,
            (plan, staged),
            logits,
        ),
    ensures
        logits is Err ==> final(plan.executions)@ == old(plan.executions)@,
        logits matches Ok(rows) ==> {
            &&& rows@.len() == plan.token_ids@.len() && final(plan.executions)@.len()
                == old(plan.executions)@.len()
            &&& forall|i: int|
                0 <= i < rows@.len() ==> (#[trigger] final(plan.executions)@[i]).position()
                    == old(plan.executions)@[i].position() + plan.token_ids@[i]@.len()
        },
{
    if let Ok(rows) = logits {
        let steps = staged->Ok_0;
        assert forall|i: int| 0 <= i < rows@.len() implies (
        #[trigger] final(plan.executions)@[i]).position() == old(plan.executions)@[i].position()
            + plan.token_ids@[i]@.len() by {
            assert(qwen35_batch::step_serves(
                steps@[i],
                old(plan.executions)@[i],
                plan.token_ids@[i],
            ));
        }
    }
}

/// A packed batch reports each sequence's own length and offset, and none beyond them.
pub proof fn law_packed_reports(
    packed: &PackedPrefillPlan,
    sequence: usize,
    count: usize,
    length: Option<usize>,
    offset: Option<usize>,
    total: usize,
)
    requires
        call_ensures(PackedPrefillPlan::sequence_count, (packed,), count),
        call_ensures(PackedPrefillPlan::sequence_length, (packed, sequence), length),
        call_ensures(PackedPrefillPlan::committed_offset, (packed, sequence), offset),
        call_ensures(PackedPrefillPlan::total_tokens, (packed,), total),
    ensures
        count == packed.lengths@.len() && total == packed.total_tokens,
        length is Some <==> sequence < packed.lengths@.len(),
        length matches Some(length) ==> length == packed.lengths@[sequence as int],
        offset is Some <==> sequence < packed.offsets@.len(),
        offset matches Some(offset) ==> offset == packed.offsets@[sequence as int],
{
}

/// Planning a batch touches no session, and the plan packs each sequence behind what its
/// own session published.
pub proof fn law_batch_plan<R, P>(
    executions: &mut Vec<Qwen35Execution<R, P>>,
    token_ids: &[&[u32]],
    plan: Result<Qwen35BatchExecutionPlan<'_, '_, R, P>, Error>,
)
    requires
        call_ensures(Qwen35Execution::<R, P>::plan_batch, (executions, token_ids), plan),
    ensures
        plan is Err ==> final(executions)@ == old(executions)@,
        plan matches Ok(plan) ==> {
            &&& plan.executions@ == old(executions)@ && plan.token_ids@ == token_ids@
            &&& old(executions)@.len() == token_ids@.len() && old(executions)@.len() > 0
            &&& plan.packed.offsets@.len() == old(executions)@.len()
            &&& forall|i: int|
                0 <= i < old(executions)@.len() ==> #[trigger] plan.packed.offsets@[i]
                    == old(executions)@[i].position()
        },
        old(executions)@.len() == 0 || old(executions)@.len() != token_ids@.len() ==> plan is Err,
{
}

/// The receipt of a plan takes four bytes for every value that its own geometry, step
/// bound, and selection call for.
pub proof fn law_plan_receipt(
    profile: &Qwen35StructuralProfile<'_>,
    max_context: usize,
    max_step_tokens: usize,
    selection: Qwen35LogitSelection,
    extents: KernelExtents,
    plan: Qwen35ExecutionPlan,
    recurrent: Qwen35RecurrentLayout,
    elements: Qwen35RequirementElements,
)
    requires
        call_ensures(
            Qwen35ExecutionPlan::try_from_weights,
            (profile, max_context, max_step_tokens, selection, extents),
            Ok::<Qwen35ExecutionPlan, Error>(plan),
        ),
        call_ensures(Qwen35StructuralProfile::recurrent_layout, (profile,), recurrent),
        call_ensures(
            Qwen35RequirementElements::try_from_layout,
            (plan.spec_layout(), recurrent, max_step_tokens, selection, extents),
            Ok::<Qwen35RequirementElements, Error>(elements),
        ),
    ensures
        plan.spec_requirements().retained_bytes == 4 * elements.retained,
        plan.spec_requirements().transaction_copy_bytes == 4 * elements.transaction_copy,
        plan.spec_requirements().workspace_upper_bound_bytes == 4 * elements.workspace_upper_bound,
        plan.spec_requirements().returned_logits_bytes == 4 * elements.returned_logits,
        plan.spec_requirements().logical_f32_upper_bound_bytes
            == plan.spec_requirements().retained_bytes
            + plan.spec_requirements().transaction_copy_bytes
            + plan.spec_requirements().workspace_upper_bound_bytes
            + plan.spec_requirements().returned_logits_bytes,
{
}

} // verus!
