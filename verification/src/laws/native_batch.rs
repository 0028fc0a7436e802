//! Laws of owned bundles, of batches on a device, and of the report.

use crate::completion::{
    abandoned_state, after_synchronization, after_validation, dispose, BeginError, CompletionError,
    CompletionEvent, CompletionResource, InFlight, PostCompletion, Release, ResourceOwner,
    ResourceState,
};
use crate::error::Error;
use crate::gguf::ObservedArtifact;
use crate::laws::qwen35_artifact::widths;
use crate::native_batch;
use crate::native_batch::{
    admit_sessions, BatchAction, BatchAdmission, BatchRun, Qwen35NativeExecutionBatchDeviceDemand,
    Qwen35NativeExecutionBatchPlan, Qwen35NativeExecutionSession, SessionPhase,
};
use crate::native_demand::Qwen35NativeExecutionDeviceDemand;
use crate::native_session::ModelChunkPlan;
use crate::qwen35::Qwen35StructuralProfile;
use crate::report;
use crate::report::hex_text;
use crate::text;
use vstd::prelude::*;

verus! {

/// How the state of a bundle moves: work begins only on a ready bundle, everything else
/// happens to work in flight, and a bundle is ready again only where its work was never
/// submitted or was published.
pub proof fn law_bundle_states(
    state: ResourceState,
    event: CompletionEvent,
    next: Option<ResourceState>,
)
    requires
        call_ensures(ResourceState::advance, (state, event), next),
    ensures
        event == CompletionEvent::Begun ==> next == (if state == ResourceState::Ready {
            Some(ResourceState::InFlight)
        } else {
            None
        }),
        event != CompletionEvent::Begun ==> (next is Some <==> state == ResourceState::InFlight),
        event != CompletionEvent::Begun && next is Some ==> {
            &&& next == Some(ResourceState::Ready) <==> event == CompletionEvent::PreflightAbandoned
                || event == CompletionEvent::Published
            &&& next == Some(ResourceState::PoisonedUncertain) <==> event
                == CompletionEvent::SynchronizationFailed || event == (
            CompletionEvent::SubmissionAbandoned { synchronized: false })
            &&& next != Some(ResourceState::InFlight)
        },
{
}

/// A new owner is ready with its bundle, and offers it while it is ready.
pub proof fn law_owner_is_ready<R: CompletionResource>(
    resource: R,
    owner: ResourceOwner<R>,
    lent: &ResourceOwner<R>,
    offered: Result<&R, BeginError>,
)
    requires
        call_ensures(ResourceOwner::<R>::new, (resource,), owner),
        *lent == owner,
        call_ensures(ResourceOwner::<R>::ready_resource, (lent,), offered),
    ensures
        owner.state == ResourceState::Ready && owner.resource == Some(resource),
        offered matches Ok(offered) && *offered == resource,
{
}

/// Work begins on a ready bundle alone, which is then in flight and not submitted; a
/// refused begin changes nothing.
pub proof fn law_work_begins<R: CompletionResource>(
    owner: &mut ResourceOwner<R>,
    guard: Result<InFlight<'_, R>, BeginError>,
)
    requires
        call_ensures(ResourceOwner::<R>::begin, (owner,), guard),
    ensures
        guard is Ok <==> old(owner).state == ResourceState::Ready && old(owner).resource is Some,
        guard matches Ok(guard) ==> guard.owner.state == ResourceState::InFlight
            && guard.owner.resource == old(owner).resource && !guard.submitted,
        guard matches Err(error) ==> *final(owner) == *old(owner) && (error
            == BeginError::MissingResource <==> old(owner).resource is None),
{
}

/// Abandoning work that was never submitted leaves its bundle ready; abandoning
/// submitted work poisons it, as idle or as uncertain.
pub proof fn law_work_is_abandoned<R: CompletionResource>(guard: InFlight<'_, R>)
    requires
        call_ensures(InFlight::<'_, R>::abandon, (guard,), ()),
        old(guard.owner).state == ResourceState::InFlight,
        old(guard.owner).resource is Some,
    ensures
        !guard.submitted ==> final(guard.owner).state == ResourceState::Ready && final(
            guard.owner).resource == old(guard.owner).resource,
        guard.submitted ==> final(guard.owner).state == ResourceState::PoisonedIdle || final(
            guard.owner).state == ResourceState::PoisonedUncertain,
{
}

/// Completed work leaves its bundle ready; a failed synchronization leaves it uncertain,
/// a failed validation or publication idle but poisoned.
pub proof fn law_work_completes<
    R: CompletionResource,
    Value,
    F: FnOnce(&mut R) -> Result<Value, R::Error>,
>(guard: InFlight<'_, R>, commit: F, value: Result<Value, CompletionError<R::Error>>)
    requires
        call_ensures(InFlight::<'_, R>::complete::<Value, F>, (guard, commit), value),
    ensures
        value is Ok ==> guard.submitted && final(guard.owner).state == ResourceState::Ready,
        value matches Err(CompletionError::Synchronization { .. }) ==> final(guard.owner).state
            == ResourceState::PoisonedUncertain,
        value matches Err(CompletionError::PostSynchronizationValidation { .. }) ==> final(
            guard.owner).state == ResourceState::PoisonedIdle,
        value matches Err(CompletionError::Commit { .. }) ==> final(guard.owner).state
            == ResourceState::PoisonedIdle,
        value is Ok || value is Err && !(value->Err_0 is NotSubmitted) ==> guard.submitted,
{
}

/// A bundle is kept alive for good exactly where work might still use it.
pub proof fn law_bundle_is_disposed<R>(
    resource: R,
    uncertain: bool,
    synchronized: bool,
    release: Release,
    state: ResourceState,
)
    requires
        call_ensures(dispose::<R>, (resource, uncertain, synchronized), release),
        call_ensures(abandoned_state, (synchronized,), state),
    ensures
        release == Release::Forgotten <==> uncertain && !synchronized,
        release != Release::Empty,
        state == (if synchronized {
            ResourceState::PoisonedIdle
        } else {
            ResourceState::PoisonedUncertain
        }),
{
}

/// What a session keeps on a device: everything but the shared weights and what a step
/// uses and gives out.
pub open spec fn kept_bytes(demand: Qwen35NativeExecutionDeviceDemand) -> int {
    let bytes = demand.spec_bytes();
    bytes.full_workspace + bytes.recurrent_workspace + bytes.finish_workspace + bytes.hidden_rows
        + bytes.final_normalized + bytes.key_values + bytes.page_table
        + bytes.recurrent_history_active + bytes.recurrent_history_staged
        + bytes.recurrent_state_active + bytes.recurrent_state_staged + bytes.numerical_status
}

proof fn lemma_demand_is_fold(
    demands: Seq<Qwen35NativeExecutionDeviceDemand>,
    take: spec_fn(Qwen35NativeExecutionDeviceDemand) -> int,
    joined: spec_fn(int, Qwen35NativeExecutionDeviceDemand) -> int,
)
    requires
        forall|total: int, demand: Qwen35NativeExecutionDeviceDemand|
            #[trigger] joined(total, demand) == total + take(demand),
    ensures
        native_batch::demand_sum(demands, take) == demands.fold_left(0int, joined),
    decreases demands.len(),
{
    reveal_with_fuel(Seq::fold_left, 2);
    if demands.len() > 0 {
        lemma_demand_is_fold(demands.drop_last(), take, joined);
    }
}

/// The demand of a batch counts the resident model once and what every session keeps,
/// uses, and gives out for each of them.
pub proof fn law_batch_demand(
    demands: &[Qwen35NativeExecutionDeviceDemand],
    receipt: Qwen35NativeExecutionBatchDeviceDemand,
)
    requires
        call_ensures(
            Qwen35NativeExecutionBatchDeviceDemand::try_from_demands,
            (demands,),
            Ok::<Qwen35NativeExecutionBatchDeviceDemand, Error>(receipt),
        ),
    ensures
        receipt.resident == demands@[0].spec_bytes().weights,
        receipt.sessions == demands@.fold_left(
            0int,
            |total: int, demand: Qwen35NativeExecutionDeviceDemand| total + kept_bytes(demand),
        ),
        receipt.steps == demands@.fold_left(
            0int,
            |total: int, demand: Qwen35NativeExecutionDeviceDemand|
                total + demand.spec_bytes().mrope_controls,
        ),
        receipt.outputs == demands@.fold_left(
            0int,
            |total: int, demand: Qwen35NativeExecutionDeviceDemand|
                total + demand.spec_bytes().logits,
        ),
        receipt.total == receipt.resident + receipt.sessions + receipt.steps + receipt.outputs,
{
    lemma_demand_is_fold(
        demands@,
        |demand: Qwen35NativeExecutionDeviceDemand| native_batch::session_bytes(demand),
        |total: int, demand: Qwen35NativeExecutionDeviceDemand| total + kept_bytes(demand),
    );
    lemma_demand_is_fold(
        demands@,
        |demand: Qwen35NativeExecutionDeviceDemand| demand.spec_bytes().mrope_controls as int,
        |total: int, demand: Qwen35NativeExecutionDeviceDemand|
            total + demand.spec_bytes().mrope_controls,
    );
    lemma_demand_is_fold(
        demands@,
        |demand: Qwen35NativeExecutionDeviceDemand| demand.spec_bytes().logits as int,
        |total: int, demand: Qwen35NativeExecutionDeviceDemand|
            total + demand.spec_bytes().logits,
    );
}

proof fn lemma_admitted_session<R>(
    sessions: Seq<Qwen35NativeExecutionSession<R>>,
    token_ids: Seq<&[u32]>,
    count: int,
    i: int,
)
    requires
        0 <= i < count,
        native_batch::sessions_failure(sessions, token_ids, count) is None,
    ensures
        native_batch::session_failure(sessions, token_ids, i) is None,
    decreases count,
{
    if i < count - 1 {
        lemma_admitted_session(sessions, token_ids, count - 1, i);
    }
}

/// A batch is admitted only where every session is ready and shares the first one's
/// resident model; its sequences and chunks stand at the sessions' own positions.
pub proof fn law_device_batch_admission<R: CompletionResource>(
    sessions: &Vec<Qwen35NativeExecutionSession<R>>,
    token_ids: &[&[u32]],
    lengths: Vec<usize>,
    offsets: Vec<usize>,
    demands: Vec<Qwen35NativeExecutionDeviceDemand>,
    chunks: Vec<ModelChunkPlan>,
    admission: BatchAdmission,
    i: int,
)
    requires
        call_ensures(
            admit_sessions::<R>,
            (sessions, token_ids, lengths, offsets, demands, chunks),
            Ok::<BatchAdmission, Error>(admission),
        ),
        0 <= i < sessions@.len(),
    ensures
        sessions@.len() == token_ids@.len(),
        sessions@[i].owner.state == ResourceState::Ready && sessions@[i].owner.resource is Some,
        sessions@[i].resident == sessions@[0].resident,
        admission.packed.offsets@[i] == sessions@[i].position,
        admission.packed.lengths@[i] == token_ids@[i]@.len(),
        admission.chunks@.len() == sessions@.len(),
        admission.chunks@[i].position == sessions@[i].position,
        admission.chunks@[i].next_position == sessions@[i].position + token_ids@[i]@.len(),
        admission.chunks@[i].token_count == token_ids@[i]@.len(),
        forall|j: int|
            0 <= j < token_ids@[i]@.len() ==> #[trigger] admission.chunks@[i].rows@[j]
                == token_ids@[i]@[j],
        token_ids@[i]@.len() <= sessions@[i].plan.max_chunk_tokens,
        sessions@[i].plan.layout.max_context <= admission.packed.max_context,
{
    lemma_admitted_session(sessions@, token_ids@, sessions@.len() as int, i);
    assert(token_ids@[i].len() == token_ids@[i]@.len());
    assert(admission.chunks@[i].takes(
        sessions@[i].plan,
        sessions@[i].position,
        token_ids@[i]@,
    ));
}

/// A run submits every session in order, then synchronizes and validates each, then
/// takes logits and prepares caches, and publishes only when all of that succeeded.
pub proof fn law_run_in_order(run: BatchRun, next: BatchRun)
    requires
        call_ensures(BatchRun::succeed, (run,), next),
        run@.wf(),
    ensures
        ({
            let count = run@.phases.len();
            match run@.action {
                BatchAction::Prepare { session } => next@.action == (BatchAction::Submit {
                    session,
                }),
                BatchAction::Submit { session } => next@.action == if session + 1 < count {
                    BatchAction::Prepare { session: (session + 1) as usize }
                } else {
                    BatchAction::Synchronize { session: 0 }
                },
                BatchAction::Synchronize { session } => next@.action == (BatchAction::Validate {
                    session,
                }),
                BatchAction::Validate { session } => next@.action == if session + 1 < count {
                    BatchAction::Synchronize { session: (session + 1) as usize }
                } else {
                    BatchAction::TakeLogits { session: 0 }
                },
                BatchAction::TakeLogits { session } => next@.action == if session + 1 < count {
                    BatchAction::TakeLogits { session: (session + 1) as usize }
                } else {
                    BatchAction::PrepareCache { session: 0 }
                },
                BatchAction::PrepareCache { session } => next@.action == if session + 1 < count {
                    BatchAction::PrepareCache { session: (session + 1) as usize }
                } else {
                    BatchAction::Publish
                },
                BatchAction::Publish => next@.action == BatchAction::Published,
                _ => true,
            }
        }),
        next@.phases.len() == run@.phases.len(),
        next@.action == BatchAction::Published && run@.action == BatchAction::Publish
            ==> forall|i: int|
            0 <= i < next@.phases.len() ==> #[trigger] next@.phases[i] == SessionPhase::Ready,
        run@.action matches BatchAction::Prepare { session } ==> forall|i: int|
            0 <= i < next@.phases.len() ==> #[trigger] next@.phases[i] == if i == session {
                SessionPhase::Submitted
            } else {
                run@.phases[i]
            },
        run@.action matches BatchAction::Validate { session } ==> forall|i: int|
            0 <= i < next@.phases.len() ==> #[trigger] next@.phases[i] == if i == session {
                SessionPhase::Completed
            } else {
                run@.phases[i]
            },
{
}

/// A run that fails publishes nothing: completed work is lost, the failing session is
/// poisoned as its failure demands, and what was submitted has still to be settled.
pub proof fn law_run_fails(run: BatchRun, teardown: bool, failed: BatchRun, i: int)
    requires
        call_ensures(BatchRun::fail, (run, teardown), failed),
        run@.wf(),
        0 <= i < run@.phases.len(),
    ensures
        failed@.phases.len() == run@.phases.len(),
        failed@.phases[i] != SessionPhase::Completed,
        run@.action == (BatchAction::Synchronize { session: i as usize }) ==> failed@.phases[i]
            == SessionPhase::PoisonedUncertain,
        run@.action == (BatchAction::Validate { session: i as usize }) ==> failed@.phases[i]
            == SessionPhase::PoisonedIdle,
        run@.action == (BatchAction::Prepare { session: i as usize }) && teardown
            ==> failed@.phases[i] == SessionPhase::PoisonedIdle,
        run@.phases[i] == SessionPhase::Ready && run@.action is Submit ==> failed@.phases[i]
            == SessionPhase::Ready,
        run@.phases[i] == SessionPhase::Completed && (run@.action is TakeLogits || run@.action
            is PrepareCache) ==> failed@.phases[i] == SessionPhase::PoisonedIdle,
        failed@.action is Settle || failed@.action is Failed,
        failed@.action is Failed ==> failed@.phases[i] != SessionPhase::Submitted,
        failed@.action matches BatchAction::Settle { session } ==> session < run@.phases.len()
            && failed@.phases[session as int] == SessionPhase::Submitted && (i < session
            ==> failed@.phases[i] != SessionPhase::Submitted),
        run@.phases[i] == SessionPhase::Submitted && run@.action != (BatchAction::Synchronize {
            session: i as usize,
        }) && run@.action != (BatchAction::Validate { session: i as usize }) ==> failed@.phases[i]
            == SessionPhase::Submitted,
        run@.phases[i] == SessionPhase::Ready && !(teardown && run@.action == (
        BatchAction::Prepare { session: i as usize })) ==> failed@.phases[i] == SessionPhase::Ready,
{
}

/// Settling a session decides its state alone, and a settled run has failed.
pub proof fn law_run_settles(run: BatchRun, synchronized: bool, next: BatchRun, session: usize, i: int)
    requires
        run@.action == (BatchAction::Settle { session }),
        call_ensures(BatchRun::settle, (run, synchronized), next),
        session < run@.phases.len(),
        0 <= i < run@.phases.len(),
    ensures
        next@.phases.len() == run@.phases.len(),
        i != session ==> next@.phases[i] == run@.phases[i],
        next@.phases[session as int] == (if synchronized {
            SessionPhase::PoisonedIdle
        } else {
            SessionPhase::PoisonedUncertain
        }),
        next@.action is Settle || next@.action is Failed,
        next@.action is Failed ==> next@.phases[i] != SessionPhase::Submitted,
{
}

/// A finished run leaves a session ready, uncertain, or poisoned as its phase says, and
/// in flight never.
pub proof fn law_run_final_state(run: &BatchRun, session: usize, state: ResourceState)
    requires
        call_ensures(BatchRun::final_state, (run, session), state),
    ensures
        state == ResourceState::Ready <==> run@.phases[session as int] == SessionPhase::Ready,
        state == ResourceState::PoisonedUncertain <==> run@.phases[session as int]
            == SessionPhase::PoisonedUncertain,
        state != ResourceState::InFlight,
{
}

/// A batch on a device is all or nothing: positions move past their chunks only where
/// every session was published, and nothing but positions and states changes.
pub proof fn law_device_batch_is_atomic<R: CompletionResource, L>(
    plan: Qwen35NativeExecutionBatchPlan<'_, R>,
    run: BatchRun,
    outputs: Result<Vec<L>, Error>,
    logits: Result<Vec<L>, Error>,
    i: int,
)
    requires
        call_ensures(
            Qwen35NativeExecutionBatchPlan::<'_, R>::execute::<L>,
            (plan, run, outputs),
            logits,
        ),
        0 <= i < old(plan.sessions)@.len(),
    ensures
        final(plan.sessions)@.len() == old(plan.sessions)@.len(),
        logits is Ok ==> run@.action == BatchAction::Published && logits == outputs,
        logits is Ok ==> final(plan.sessions)@[i].position
            == plan.admission.chunks@[i].next_position,
        logits is Err ==> final(plan.sessions)@[i].position == old(plan.sessions)@[i].position,
        final(plan.sessions)@[i].resident == old(plan.sessions)@[i].resident,
        final(plan.sessions)@[i].plan == old(plan.sessions)@[i].plan,
        final(plan.sessions)@[i].owner.resource == old(plan.sessions)@[i].owner.resource,
        logits is Ok && run@.wf() ==> final(plan.sessions)@[i].owner.state == ResourceState::Ready,
        run@.action == BatchAction::Failed && outputs is Err && run@.phases.len()
            == old(plan.sessions)@.len() && plan.admission.chunks@.len() == run@.phases.len() ==> {
            &&& logits == outputs
            &&& final(plan.sessions)@[i].owner.state == ResourceState::Ready <==> run@.phases[i]
                == SessionPhase::Ready
            &&& final(plan.sessions)@[i].owner.state == ResourceState::PoisonedUncertain
                <==> run@.phases[i] == SessionPhase::PoisonedUncertain
        },
{
}

/// The value of a lower-case hexadecimal digit.
pub open spec fn digit_value(digit: char) -> int {
    if '0' <= digit <= '9' {
        digit as int - '0' as int
    } else {
        digit as int - 'a' as int + 10
    }
}

proof fn lemma_hex_digits(bytes: Seq<u8>, i: int)
    requires
        0 <= i < bytes.len(),
    ensures
        report::hex(bytes).len() == 2 * bytes.len(),
        ({
            let high = report::hex(bytes)[2 * i];
            let low = report::hex(bytes)[2 * i + 1];
            &&& 16 * digit_value(high) + digit_value(low) == bytes[i]
            &&& '0' <= high <= '9' || 'a' <= high <= 'f'
            &&& '0' <= low <= '9' || 'a' <= low <= 'f'
        }),
    decreases bytes.len(),
{
    let init = bytes.drop_last();
    lemma_hex_length(init);
    if i < bytes.len() - 1 {
        lemma_hex_digits(init, i);
        assert(init[i] == bytes[i]);
        assert(report::hex(bytes)[2 * i] == report::hex(init)[2 * i]);
        assert(report::hex(bytes)[2 * i + 1] == report::hex(init)[2 * i + 1]);
    } else {
        assert(report::hex(bytes)[2 * i] == report::hex_char(bytes[i] as nat / 16));
        assert(report::hex(bytes)[2 * i + 1] == report::hex_char(bytes[i] as nat % 16));
    }
}

proof fn lemma_hex_length(bytes: Seq<u8>)
    ensures
        report::hex(bytes).len() == 2 * bytes.len(),
    decreases bytes.len(),
{
    if bytes.len() > 0 {
        lemma_hex_length(bytes.drop_last());
    }
}

/// A byte is written as two lower-case hexadecimal digits, the more significant first,
/// in the order of the bytes.
pub proof fn law_hexadecimal(bytes: &[u8], written: String, i: int)
    requires
        call_ensures(hex_text, (bytes,), written),
        0 <= i < bytes@.len(),
    ensures
        written@.len() == 2 * bytes@.len(),
        16 * digit_value(written@[2 * i]) + digit_value(written@[2 * i + 1]) == bytes@[i],
        '0' <= written@[2 * i] <= '9' || 'a' <= written@[2 * i] <= 'f',
        '0' <= written@[2 * i + 1] <= '9' || 'a' <= written@[2 * i + 1] <= 'f',
{
    lemma_hex_digits(bytes@, i);
}

/// The report states the digest, the length, the tensors, and the blocks of the very
/// artifact that was admitted, as its metadata stores them.
pub proof fn law_report(
    observed: &ObservedArtifact,
    profile: Qwen35StructuralProfile<'_>,
    lent: &Qwen35StructuralProfile<'_>,
    written: String,
    digest: &[u8],
    digits: String,
)
    requires
        call_ensures(
            Qwen35StructuralProfile::try_from_observed,
            (observed,),
            Ok::<Qwen35StructuralProfile<'_>, Error>(profile),
        ),
        *lent == profile,
        call_ensures(report::report, (lent,), written),
        digest@ == observed.digest@,
        call_ensures(hex_text, (digest,), digits),
    ensures
        ({
            let w = widths(observed.metadata@);
            written@ == "{\"schema_version\":"@ + text::decimal(1)
                + ",\"outcome\":\"structural_preflight\",\"digest\":{\"algorithm\":\"sha256\",\"hex\":\""@
                + digits@ + "\"},\"file_bytes\":"@ + text::decimal(observed.file_len as nat)
                + ",\"tensor_count\":"@ + text::decimal(observed.tensors@.len())
                + ",\"stored_block_count\":"@ + text::decimal(w.blocks as nat)
                + ",\"main_block_count\":"@ + text::decimal((w.blocks - w.nextn) as nat)
                + ",\"nextn_block_count\":"@ + text::decimal(w.nextn as nat) + "}"@
        }),
{
}

/// A failed synchronization leaves a bundle uncertain, a failed validation leaves it
/// idle, and each failure is handed on as the one it was.
pub proof fn law_completion_checks<E>(
    result: Result<(), E>,
    synchronized: Result<(), (ResourceState, CompletionError<E>)>,
    validated: Result<(), (ResourceState, CompletionError<E>)>,
)
    requires
        call_ensures(after_synchronization::<E>, (result,), synchronized),
        call_ensures(after_validation::<E>, (result,), validated),
    ensures
        result is Ok <==> synchronized is Ok,
        result is Ok <==> validated is Ok,
        result matches Err(source) ==> synchronized->Err_0 == (
            ResourceState::PoisonedUncertain,
            CompletionError::Synchronization { source },
        ) && validated->Err_0 == (
            ResourceState::PoisonedIdle,
            CompletionError::PostSynchronizationValidation { source },
        ),
{
}

/// Work counts as submitted once it is marked, and its bundle stays as it was.
pub proof fn law_submission_is_marked<R: CompletionResource>(guard: &mut InFlight<'_, R>)
    requires
        call_ensures(InFlight::<'_, R>::mark_submitted, (guard,), ()),
    ensures
        final(guard).submitted,
        *final(guard).owner == *old(guard).owner,
{
}

/// Work in flight that is given up as idle poisons its bundle and keeps it.
pub proof fn law_work_is_poisoned<R: CompletionResource>(guard: InFlight<'_, R>)
    requires
        call_ensures(InFlight::<'_, R>::poison_known_idle, (guard,), ()),
        old(guard.owner).state == ResourceState::InFlight,
        old(guard.owner).resource is Some,
    ensures
        final(guard.owner).state == ResourceState::PoisonedIdle,
        final(guard.owner).resource == old(guard.owner).resource,
{
}

/// Validated work that is given up before its publication leaves an idle, poisoned bundle.
pub proof fn law_publication_is_abandoned<R: CompletionResource>(completion: PostCompletion<'_, R>)
    requires
        call_ensures(PostCompletion::<'_, R>::abandon, (completion,), ()),
    ensures
        *final(completion.state) == ResourceState::PoisonedIdle,
        *final(completion.resource) == *old(completion.resource),
{
}

/// A bundle is lent to work while it is in flight, and to nothing else.
pub proof fn law_bundle_is_lent<R: CompletionResource>(
    guard: &mut InFlight<'_, R>,
    resource: Result<&mut R, CompletionError<R::Error>>,
)
    requires
        call_ensures(InFlight::<'_, R>::resource, (guard,), resource),
    ensures
        resource is Ok <==> old(guard).owner.state == ResourceState::InFlight
            && old(guard).owner.resource is Some,
        final(guard).submitted == old(guard).submitted,
{
}

/// A run starts with every session ready and the first one to prepare.
pub proof fn law_run_starts(count: usize, run: BatchRun)
    requires
        call_ensures(BatchRun::begin, (count,), Ok::<BatchRun, Error>(run)),
    ensures
        run@.phases.len() == count,
        forall|i: int| 0 <= i < count ==> #[trigger] run@.phases[i] == SessionPhase::Ready,
        run@.action == (BatchAction::Prepare { session: 0 }),
{
}

/// Planning a device batch touches no session, and every chunk continues its own
/// session.
pub proof fn law_device_batch_plan<R: CompletionResource>(
    sessions: &mut Vec<Qwen35NativeExecutionSession<R>>,
    token_ids: &[&[u32]],
    plan: Result<Qwen35NativeExecutionBatchPlan<'_, R>, Error>,
)
    requires
        call_ensures(
            Qwen35NativeExecutionSession::<R>::plan_batch,
            (sessions, token_ids),
            plan,
        ),
    ensures
        plan is Err ==> final(sessions)@ == old(sessions)@,
        plan matches Ok(plan) ==> {
            &&& plan.sessions@ == old(sessions)@
            &&& old(sessions)@.len() == token_ids@.len() && old(sessions)@.len() > 0
            &&& plan.admission.packed.offsets@.len() == old(sessions)@.len()
            &&& forall|i: int|
                0 <= i < old(sessions)@.len() ==> #[trigger] plan.admission.packed.offsets@[i]
                    == old(sessions)@[i].position
        },
        old(sessions)@.len() == 0 || old(sessions)@.len() != token_ids@.len() ==> plan is Err,
{
}

/// An owner without a bundle releases nothing, one whose bundle no work can be using
/// drops it, and an uncertain one drops it or keeps it for good.
pub proof fn law_bundle_is_released<R: CompletionResource>(
    owner: ResourceOwner<R>,
    release: Release,
    taken: Option<R>,
    state: ResourceState,
    lent: &ResourceOwner<R>,
)
    requires
        call_ensures(ResourceOwner::<R>::release, (owner,), release),
        call_ensures(ResourceOwner::<R>::into_resource, (owner,), taken),
        *lent == owner,
        call_ensures(ResourceOwner::<R>::state, (lent,), state),
    ensures
        release == Release::Empty <==> owner.resource is None,
        owner.resource is Some && (owner.state == ResourceState::Ready || owner.state
            == ResourceState::PoisonedIdle) ==> release == Release::Dropped,
        taken == owner.resource && state == owner.state,
{
}

/// Work is completed before its publication only where it was submitted; a failure leaves
/// its bundle as the failure demands.
pub proof fn law_work_is_prepared<R: CompletionResource>(
    guard: InFlight<'_, R>,
    completion: Result<PostCompletion<'_, R>, CompletionError<R::Error>>,
)
    requires
        call_ensures(InFlight::<'_, R>::complete_prepublication, (guard,), completion),
    ensures
        completion matches Ok(completion) ==> guard.submitted && *completion.state
            == ResourceState::InFlight,
        completion matches Err(CompletionError::Synchronization { .. }) ==> final(
            guard.owner).state == ResourceState::PoisonedUncertain,
        completion matches Err(CompletionError::PostSynchronizationValidation { .. }) ==> final(
            guard.owner).state == ResourceState::PoisonedIdle,
        !guard.submitted ==> completion is Err && completion->Err_0 is NotSubmitted,
        !guard.submitted && old(guard.owner).state == ResourceState::InFlight && old(
            guard.owner).resource is Some ==> final(guard.owner).state == ResourceState::Ready,
{
}

/// Published work leaves its bundle ready.
pub proof fn law_work_is_published<R: CompletionResource, Value, F: FnOnce(&mut R) -> Value>(
    completion: PostCompletion<'_, R>,
    publish: F,
    value: Value,
)
    requires
        call_ensures(PostCompletion::<'_, R>::publish::<Value, F>, (completion, publish), value),
    ensures
        *final(completion.state) == ResourceState::Ready,
{
}

} // verus!
