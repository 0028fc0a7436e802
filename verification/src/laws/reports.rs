//! Laws of what is reported: a report, a view, or a checked sum is what is held.

use crate::completion::{CompletionResource, ResourceState};
use crate::error::{Error, RowFault};
use crate::gguf::ObservedArtifact;
use crate::matrix::CheckedMatrix;
use crate::native_batch::{
    BatchAction, BatchRun, Qwen35NativeExecutionBatchDeviceDemand, Qwen35NativeExecutionBatchPlan,
    Qwen35NativeExecutionSession,
};
use crate::native_demand::checked_sum;
use crate::native_session::{
    check_packed_sequence, DeviceModelPlan, ModelSessionTeardown,
    Qwen35NativeExecutionSessionTeardownState, Qwen35NativeSessionState, TeardownAdmission,
};
use crate::qwen3;
use crate::qwen35::Qwen35StructuralProfile;
use crate::qwen35_attention::{AttentionPass, AttentionStage, FinishPass, FinishStage};
use crate::qwen35_batch::{PackedPrefillPlan, Qwen35BatchExecutionPlan};
use crate::qwen35_execution;
use crate::qwen35_inventory;
use crate::qwen35_mrope::TextMrope;
use crate::qwen35_recurrent;
use crate::qwen35_recurrent_pass::{RecurrentPass, RecurrentStage};
use crate::qwen35_requirements::{Qwen35BatchCpuRequirements, Qwen35CpuRequirements};
use crate::qwen35_session::{LayerState, Qwen35Execution, Qwen35ExecutionPlan, StagedExecution};
use crate::qwen3_execution::{Qwen3BodyWeights, Qwen3Execution};
use crate::qwen3_pass::{PassStage, Qwen3Pass};
use crate::qwen3_token::{FeedForwardPass, FeedForwardStage, TokenPass, TokenStage};
use crate::text::same_text;
use vstd::prelude::*;

verus! {

/// Every pass reports the stage it stands at, and lends out the values it holds.
pub proof fn law_passes_report(
    attention: &AttentionPass,
    attention_stage: AttentionStage,
    query: &[u32],
    finish: &FinishPass,
    finish_stage: FinishStage,
    recurrent: &RecurrentPass,
    recurrent_stage: RecurrentStage,
    strengths: &[u32],
    pass: &Qwen3Pass,
    pass_stage: PassStage,
    hidden: &[u32],
    residual: &[u32],
    layout: qwen3::Layout,
    token: &TokenPass<'_>,
    token_stage: TokenStage,
    forward: &FeedForwardPass<'_>,
    forward_stage: FeedForwardStage,
)
    requires
        call_ensures(AttentionPass::stage, (attention,), attention_stage),
        call_ensures(AttentionPass::query, (attention,), query),
        call_ensures(FinishPass::stage, (finish,), finish_stage),
        call_ensures(RecurrentPass::stage, (recurrent,), recurrent_stage),
        call_ensures(RecurrentPass::strengths, (recurrent,), strengths),
        call_ensures(Qwen3Pass::stage, (pass,), pass_stage),
        call_ensures(Qwen3Pass::hidden, (pass,), hidden),
        call_ensures(Qwen3Pass::residual, (pass,), residual),
        call_ensures(Qwen3Pass::layout, (pass,), layout),
        call_ensures(TokenPass::stage, (token,), token_stage),
        call_ensures(FeedForwardPass::stage, (forward,), forward_stage),
    ensures
        attention_stage == attention@.stage && query@ == attention@.query,
        finish_stage == finish@.stage,
        recurrent_stage == recurrent@.stage && strengths@ == recurrent@.beta,
        pass_stage == pass@.stage && hidden@ == pass@.hidden && residual@ == pass@.residual
            && layout == pass@.layout,
        token_stage == token@.stage && forward_stage == forward@.stage,
{
}

/// A plan, a session, and a step report the geometry, the receipt, and the state they hold.
pub proof fn law_sessions_report<R, P>(
    plan: &Qwen35ExecutionPlan,
    plan_layout: qwen35_execution::Layout,
    plan_receipt: Qwen35CpuRequirements,
    execution: &Qwen35Execution<R, P>,
    layers: &Vec<LayerState<R>>,
    pool: &Option<P>,
    receipt: Qwen35CpuRequirements,
    staged: &StagedExecution<R, P>,
    hidden: &Vec<u32>,
    digest: [u8; 32],
    serialized: u64,
)
    requires
        call_ensures(Qwen35ExecutionPlan::layout, (plan,), plan_layout),
        call_ensures(Qwen35ExecutionPlan::cpu_requirements, (plan,), plan_receipt),
        call_ensures(Qwen35Execution::<R, P>::layers, (execution,), layers),
        call_ensures(Qwen35Execution::<R, P>::pool, (execution,), pool),
        call_ensures(Qwen35Execution::<R, P>::cpu_requirements, (execution,), receipt),
        call_ensures(StagedExecution::<R, P>::hidden, (staged,), hidden),
        call_ensures(Qwen35CpuRequirements::artifact_digest, (&receipt,), digest),
        call_ensures(Qwen35CpuRequirements::serialized_backing_bytes, (&receipt,), serialized),
    ensures
        plan_layout == plan.spec_layout() && plan_receipt == plan.spec_requirements(),
        layers@ == execution.spec_layers() && *pool == execution.spec_pool() && receipt
            == execution.spec_requirements(),
        hidden@ == staged@.hidden,
        digest == receipt.artifact_digest && serialized == receipt.serialized_backing_bytes,
{
}

/// Geometries, profiles, and executors report their own numbers.
pub proof fn law_geometries_report(
    layout: qwen35_execution::Layout,
    context: usize,
    epsilon: u32,
    profile: &Qwen35StructuralProfile<'_>,
    observed: &ObservedArtifact,
    body: &Qwen3BodyWeights<'_>,
    body_layout: qwen3::Layout,
    execution: &Qwen3Execution<'_, '_>,
    execution_layout: qwen3::Layout,
    admitted: usize,
    width: usize,
    base: u32,
    sections: [usize; 4],
    mrope: TextMrope,
)
    requires
        call_ensures(qwen35_execution::Layout::max_context, (layout,), context),
        call_ensures(qwen35_execution::Layout::epsilon, (layout,), epsilon),
        call_ensures(Qwen35StructuralProfile::observed, (profile,), observed),
        call_ensures(Qwen3BodyWeights::layout, (body,), body_layout),
        call_ensures(Qwen3Execution::layout, (execution,), execution_layout),
        call_ensures(Qwen3Execution::admitted_max_context, (execution,), admitted),
        call_ensures(TextMrope::new, (width, base, sections), mrope),
    ensures
        context == layout.max_context && epsilon == layout.epsilon,
        *observed == profile.artifact(),
        body_layout == body.spec_layout(),
        execution_layout == execution.spec_body().spec_layout() && admitted
            == execution.spec_max_context(),
        mrope.rotary_width == width && mrope.rope_base == base && mrope.sections@ == sections@,
{
}

/// Planned batches report what they were planned with, and runs where they stand.
pub proof fn law_batches_report<R, P, S: CompletionResource>(
    batch: &Qwen35BatchExecutionPlan<'_, '_, R, P>,
    receipt: Qwen35BatchCpuRequirements,
    packed: &PackedPrefillPlan,
    device: &Qwen35NativeExecutionBatchPlan<'_, S>,
    demand: Qwen35NativeExecutionBatchDeviceDemand,
    device_packed: &PackedPrefillPlan,
    run: &BatchRun,
    action: BatchAction,
    count: usize,
    session: &Qwen35NativeExecutionSession<S>,
    state: Qwen35NativeSessionState,
)
    requires
        call_ensures(
            Qwen35BatchExecutionPlan::<'_, '_, R, P>::cpu_requirements,
            (batch,),
            receipt,
        ),
        call_ensures(
            Qwen35BatchExecutionPlan::<'_, '_, R, P>::packed_prefill_plan,
            (batch,),
            packed,
        ),
        call_ensures(
            Qwen35NativeExecutionBatchPlan::<'_, S>::device_demand,
            (device,),
            demand,
        ),
        call_ensures(
            Qwen35NativeExecutionBatchPlan::<'_, S>::packed_prefill_plan,
            (device,),
            device_packed,
        ),
        call_ensures(BatchRun::next_action, (run,), action),
        call_ensures(BatchRun::session_count, (run,), count),
        call_ensures(Qwen35NativeExecutionSession::<S>::state, (session,), state),
    ensures
        receipt == batch.requirements && *packed == batch.packed,
        demand == device.admission.demand && *device_packed == device.admission.packed,
        action == run@.action && count == run@.phases.len(),
        state == Qwen35NativeSessionState::Ready <==> session.owner.state == ResourceState::Ready,
        state == Qwen35NativeSessionState::PoisonedKnownIdle <==> session.owner.state
            == ResourceState::PoisonedIdle,
{
}

/// The state of the known owners leaves out what creation failed to tell.
pub proof fn law_known_owners(
    custody: ModelSessionTeardown,
    known: Qwen35NativeExecutionSessionTeardownState,
    state: Qwen35NativeExecutionSessionTeardownState,
)
    requires
        call_ensures(ModelSessionTeardown::known_state, (custody,), known),
        call_ensures(ModelSessionTeardown::state, (custody,), state),
    ensures
        !custody.creation_failure ==> known == state,
        known == Qwen35NativeExecutionSessionTeardownState::Unadmitted <==> custody.admission
            == TeardownAdmission::Unadmitted,
        known == Qwen35NativeExecutionSessionTeardownState::PartiallyAdmitted <==> custody.admission
            == TeardownAdmission::PartiallyAdmitted,
{
}

/// A packed sequence starts where the batch packed it and ends as many tokens later.
pub proof fn law_packed_positions(
    plan: &DeviceModelPlan,
    tokens: &[u32],
    packed: &PackedPrefillPlan,
    sequence: usize,
    position: usize,
    next: usize,
)
    requires
        call_ensures(
            check_packed_sequence,
            (plan, tokens, packed, sequence),
            Ok::<(usize, usize), Error>((position, next)),
        ),
    ensures
        sequence < packed.offsets@.len() && position == packed.offsets@[sequence as int],
        next == position + tokens@.len() && next <= plan.layout.max_context,
        tokens@.len() == packed.lengths@[sequence as int] && tokens@.len()
            <= plan.max_chunk_tokens,
{
}

/// A decoded row is handed on where the row exists, and a projection has a value for
/// every output and reads a row of every input.
pub proof fn law_decoded_rows<T>(
    matrix: &CheckedMatrix<'_>,
    row: usize,
    decoded: Result<Vec<T>, RowFault>,
    values: Result<Vec<T>, Error>,
    width: usize,
    outputs: usize,
    inputs: usize,
)
    requires
        call_ensures(CheckedMatrix::decode_row::<T>, (matrix, row, decoded), values),
        call_ensures(CheckedMatrix::projection_output_elements, (width,), outputs),
        call_ensures(CheckedMatrix::decoded_row_elements, (width,), inputs),
    ensures
        values is Ok <==> row < matrix.header.output_width && decoded is Ok,
        values matches Ok(values) ==> decoded == Ok::<Vec<T>, RowFault>(values),
        outputs == width && inputs == width,
{
}

/// Two texts are the same exactly where their characters are.
pub proof fn law_texts_compare(left: &str, right: &str, same: bool)
    requires
        call_ensures(same_text, (left, right), same),
    ensures
        same <==> left@.len() == right@.len() && forall|i: int|
            0 <= i < left@.len() ==> #[trigger] left@[i] == right@[i],
{
    if left@.len() == right@.len() && forall|i: int|
        0 <= i < left@.len() ==> #[trigger] left@[i] == right@[i] {
        assert(left@ =~= right@);
    }
}

/// Checked sums and products are exact, and refused exactly where they do not fit.
pub proof fn law_checked_arithmetic(
    left: usize,
    right: usize,
    context: &'static str,
    product: Result<usize, Error>,
    plain: Result<usize, Error>,
    sum: Result<usize, Error>,
    total: Result<usize, Error>,
    demand: Result<usize, Error>,
)
    requires
        call_ensures(qwen35_recurrent::checked_product, (left, right, context), product),
        call_ensures(qwen3::product, (left, right), plain),
        call_ensures(qwen35_recurrent::checked_add, (left, right, context), sum),
        call_ensures(qwen35_execution::checked_add, (left, right, context), total),
        call_ensures(checked_sum, (left, right, context), demand),
    ensures
        product is Ok <==> left * right <= usize::MAX,
        product matches Ok(product) ==> product == left * right,
        plain is Ok <==> left * right <= usize::MAX,
        plain matches Ok(plain) ==> plain == left * right,
        sum is Ok <==> left + right <= usize::MAX,
        sum matches Ok(sum) ==> sum == left + right,
        total is Ok <==> left + right <= usize::MAX,
        total matches Ok(total) ==> total == left + right,
        demand is Ok <==> left + right <= usize::MAX,
        demand matches Ok(demand) ==> demand == left + right,
{
}

/// Stored sums and products are exact, and refused exactly where they do not fit.
pub proof fn law_stored_arithmetic(
    left: u64,
    right: u64,
    context: &'static str,
    product: Result<u64, Error>,
    sum: Result<u64, Error>,
    width: Result<usize, Error>,
    dimension: Result<usize, Error>,
)
    requires
        call_ensures(qwen35_inventory::checked_mul, (left, right, context), product),
        call_ensures(qwen35_inventory::checked_add, (left, right, context), sum),
        call_ensures(qwen35_execution::host_width, (left, context), width),
        call_ensures(qwen35_recurrent::usize_dimension, (left, context), dimension),
    ensures
        product is Ok <==> left * right <= u64::MAX,
        product matches Ok(product) ==> product == left * right,
        sum is Ok <==> left + right <= u64::MAX,
        sum matches Ok(sum) ==> sum == left + right,
        width is Ok <==> left <= usize::MAX,
        width matches Ok(width) ==> width == left,
        dimension is Ok <==> left <= usize::MAX,
        dimension matches Ok(dimension) ==> dimension == left,
{
}

} // verus!
