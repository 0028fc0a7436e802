//! Atomic ownership of independently mutable native sessions that share one
//! resident model.

use crate::allocation::reserve;
use crate::completion::{BeginError, CompletionResource, ResourceOwner, ResourceState};
use crate::error::Error;
use crate::native_demand::{checked_sum, Qwen35NativeExecutionDeviceDemand};
use crate::native_session;
use crate::native_session::{
    begin_error, check_chunk, session_state, DeviceModelPlan, ModelChunkPlan,
    Qwen35NativeSessionState,
};
use crate::qwen35_batch::PackedPrefillPlan;
use vstd::prelude::*;

verus! {

/// One native session: its owned bundle, the identity of the resident model that it
/// shares, its own plan, and its committed position.
#[derive(Debug)]
pub struct Qwen35NativeExecutionSession<R> {
    pub owner: ResourceOwner<R>,
    pub resident: u64,
    pub plan: DeviceModelPlan,
    pub position: usize,
}

/// The checked byte demand of a batch: the shared resident model once, and what
/// every session keeps, uses, and returns.
#[derive(Clone, Copy, Debug, PartialEq, Eq, Structural)]
pub struct Qwen35NativeExecutionBatchDeviceDemand {
    pub resident: usize,
    pub sessions: usize,
    pub steps: usize,
    pub outputs: usize,
    pub total: usize,
}

/// The bytes that a demand's session keeps.
pub open spec fn session_bytes(demand: Qwen35NativeExecutionDeviceDemand) -> int {
    demand.spec_bytes().bytes() - demand.spec_bytes().weights - demand.spec_bytes().mrope_controls
        - demand.spec_bytes().logits
}

/// The sum over a list of demands of what one kind of owner needs.
pub open spec fn demand_sum(
    demands: Seq<Qwen35NativeExecutionDeviceDemand>,
    take: spec_fn(Qwen35NativeExecutionDeviceDemand) -> int,
) -> int
    decreases demands.len(),
{
    if demands.len() == 0 {
        0
    } else {
        demand_sum(demands.drop_last(), take) + take(demands.last())
    }
}

/// What the sessions of a batch keep.
pub open spec fn sessions_sum(demands: Seq<Qwen35NativeExecutionDeviceDemand>) -> int {
    demand_sum(demands, |demand: Qwen35NativeExecutionDeviceDemand| session_bytes(demand))
}

/// What one token of every session uses.
pub open spec fn steps_sum(demands: Seq<Qwen35NativeExecutionDeviceDemand>) -> int {
    demand_sum(
        demands,
        |demand: Qwen35NativeExecutionDeviceDemand| demand.spec_bytes().mrope_controls as int,
    )
}

/// What every session returns.
pub open spec fn outputs_sum(demands: Seq<Qwen35NativeExecutionDeviceDemand>) -> int {
    demand_sum(
        demands,
        |demand: Qwen35NativeExecutionDeviceDemand| demand.spec_bytes().logits as int,
    )
}

/// The bytes that a batch needs in all.
pub open spec fn batch_bytes(demands: Seq<Qwen35NativeExecutionDeviceDemand>) -> int {
    demands[0].spec_bytes().weights + sessions_sum(demands) + steps_sum(demands) + outputs_sum(
        demands,
    )
}

impl Qwen35NativeExecutionBatchDeviceDemand {
    /// Whether the receipt aggregates a list of demands.
    pub open spec fn aggregates(self, demands: Seq<Qwen35NativeExecutionDeviceDemand>) -> bool {
        &&& self.resident == demands[0].spec_bytes().weights
        &&& self.sessions == sessions_sum(demands)
        &&& self.steps == steps_sum(demands)
        &&& self.outputs == outputs_sum(demands)
        &&& self.total == batch_bytes(demands)
    }

    /// Aggregate the demands of a batch, refusing overflow.
    pub fn try_from_demands(demands: &[Qwen35NativeExecutionDeviceDemand]) -> (receipt: Result<
        Qwen35NativeExecutionBatchDeviceDemand,
        Error,
    >)
        requires
            demands@.len() > 0,
        ensures
            match receipt {
                Ok(receipt) => receipt.aggregates(demands@),
                Err(error) => {
                    &&& batch_bytes(demands@) > usize::MAX
                    &&& error == (Error::ArithmeticOverflow {
                        context: "native model batch device bytes",
                    })
                },
            },
    {
        let context: &'static str = "native model batch device bytes";
        let resident: usize = demands[0].resident_bytes();
        let mut sessions: usize = 0;
        let mut steps: usize = 0;
        let mut outputs: usize = 0;
        let mut i: usize = 0;
        assert(demands@.take(0) =~= Seq::<Qwen35NativeExecutionDeviceDemand>::empty());
        while i < demands.len()
            invariant
                0 <= i <= demands@.len(),
                context == "native model batch device bytes",
                resident == demands@[0].spec_bytes().weights,
                sessions == sessions_sum(demands@.take(i as int)),
                steps == steps_sum(demands@.take(i as int)),
                outputs == outputs_sum(demands@.take(i as int)),
            decreases demands@.len() - i,
        {
            proof {
                let longer = demands@.take(i + 1);
                assert(longer.drop_last() =~= demands@.take(i as int));
                assert(longer.last() == demands@[i as int]);
                lemma_sum_prefix(demands@, i + 1);
                lemma_sum_prefix(demands@, 0);
            }
            sessions = checked_sum(sessions, demands[i].session_bytes(), context)?;
            steps = checked_sum(steps, demands[i].step_bytes(), context)?;
            outputs = checked_sum(outputs, demands[i].output_bytes(), context)?;
            i = i + 1;
        }
        proof {
            assert(demands@.take(i as int) =~= demands@);
            lemma_sum_prefix(demands@, 0);
        }
        let kept: usize = checked_sum(resident, sessions, context)?;
        let used: usize = checked_sum(kept, steps, context)?;
        let total: usize = checked_sum(used, outputs, context)?;
        Ok(Qwen35NativeExecutionBatchDeviceDemand { resident, sessions, steps, outputs, total })
    }
}

proof fn lemma_sum_prefix(demands: Seq<Qwen35NativeExecutionDeviceDemand>, count: int)
    requires
        0 <= count <= demands.len(),
    ensures
        0 <= sessions_sum(demands.take(count)) <= sessions_sum(demands),
        0 <= steps_sum(demands.take(count)) <= steps_sum(demands),
        0 <= outputs_sum(demands.take(count)) <= outputs_sum(demands),
    decreases demands.len(),
{
    if count == demands.len() {
        assert(demands.take(count) =~= demands);
        if demands.len() > 0 {
            lemma_sum_prefix(demands.drop_last(), demands.len() - 1);
            assert(demands.drop_last().take(demands.len() - 1) =~= demands.drop_last());
        }
    } else {
        lemma_sum_prefix(demands.drop_last(), count);
        assert(demands.drop_last().take(count) =~= demands.take(count));
    }
}

/// Why a session refuses to take part in a batch, if it does: its bundle must be
/// ready.
pub open spec fn ready_failure<R>(session: Qwen35NativeExecutionSession<R>) -> Option<Error> {
    if session.owner.state != ResourceState::Ready {
        Some(native_session::begin_failure(BeginError::NotReady))
    } else if session.owner.resource is None {
        Some(native_session::begin_failure(BeginError::MissingResource))
    } else {
        None
    }
}

/// Why session `i` of a batch is refused, if it is: it must be ready, share the
/// resident model of the first, admit its tokens, and have a representable demand.
pub open spec fn session_failure<R>(
    sessions: Seq<Qwen35NativeExecutionSession<R>>,
    token_ids: Seq<&[u32]>,
    i: int,
) -> Option<Error> {
    let session = sessions[i];
    if ready_failure(session) is Some {
        ready_failure(session)
    } else if session.resident != sessions[0].resident {
        Some(
            Error::NativeSessionState {
                rule: "native model batch sessions must share one resident allocation identity",
            },
        )
    } else if let Some(error) = native_session::model_chunk_failure(
        session.plan,
        session.position,
        token_ids[i]@,
    ) {
        Some(error)
    } else if session.plan.bytes.bytes() > usize::MAX {
        Some(Error::ArithmeticOverflow { context: "native main-model device bytes" })
    } else {
        None
    }
}

/// Why the first `count` sessions of a batch are refused, if they are.
pub open spec fn sessions_failure<R>(
    sessions: Seq<Qwen35NativeExecutionSession<R>>,
    token_ids: Seq<&[u32]>,
    count: int,
) -> Option<Error>
    decreases count,
{
    if count <= 0 {
        None
    } else if let Some(error) = sessions_failure(sessions, token_ids, count - 1) {
        Some(error)
    } else {
        session_failure(sessions, token_ids, count - 1)
    }
}

proof fn lemma_sessions_failure<R>(
    sessions: Seq<Qwen35NativeExecutionSession<R>>,
    token_ids: Seq<&[u32]>,
    shorter: int,
    longer: int,
)
    requires
        0 <= shorter <= longer,
        sessions_failure(sessions, token_ids, shorter) is Some,
    ensures
        sessions_failure(sessions, token_ids, longer) == sessions_failure(
            sessions,
            token_ids,
            shorter,
        ),
    decreases longer - shorter,
{
    if shorter < longer {
        lemma_sessions_failure(sessions, token_ids, shorter, longer - 1);
    }
}

/// The error of a batch whose sessions and tokens do not pair.
pub open spec fn pairing_error() -> Error {
    Error::NativeSessionState {
        rule: "native model batch requires equal nonempty session and token inputs",
    }
}

/// Why a batch is refused before its totals are formed, if it is.
pub open spec fn batch_failure<R>(
    sessions: Seq<Qwen35NativeExecutionSession<R>>,
    token_ids: Seq<&[u32]>,
) -> Option<Error> {
    if sessions.len() == 0 || sessions.len() != token_ids.len() {
        Some(pairing_error())
    } else {
        sessions_failure(sessions, token_ids, sessions.len() as int)
    }
}

/// The token counts of a batch.
pub open spec fn token_counts(token_ids: Seq<&[u32]>) -> Seq<usize> {
    Seq::new(token_ids.len(), |i: int| token_ids[i]@.len() as usize)
}

/// The committed positions of a batch.
pub open spec fn positions<R>(sessions: Seq<Qwen35NativeExecutionSession<R>>) -> Seq<usize> {
    Seq::new(sessions.len(), |i: int| sessions[i].position)
}

/// Whether a context bound is the largest of a batch.
pub open spec fn largest_context<R>(
    sessions: Seq<Qwen35NativeExecutionSession<R>>,
    max_context: usize,
) -> bool {
    &&& forall|i: int|
        0 <= i < sessions.len() ==> (#[trigger] sessions[i]).plan.layout.max_context <= max_context
    &&& exists|i: int|
        0 <= i < sessions.len() && (#[trigger] sessions[i]).plan.layout.max_context == max_context
}

/// Whether demands are those of the sessions of a batch.
pub open spec fn demands_of<R>(
    sessions: Seq<Qwen35NativeExecutionSession<R>>,
    demands: Seq<Qwen35NativeExecutionDeviceDemand>,
) -> bool {
    &&& demands.len() == sessions.len()
    &&& forall|i: int|
        0 <= i < sessions.len() ==> (#[trigger] demands[i]).spec_bytes() == sessions[i].plan.bytes
}

/// Whether chunks start at the committed positions of a batch and take its tokens.
pub open spec fn chunks_of<R>(
    sessions: Seq<Qwen35NativeExecutionSession<R>>,
    token_ids: Seq<&[u32]>,
    chunks: Seq<ModelChunkPlan>,
) -> bool {
    &&& chunks.len() == sessions.len()
    &&& forall|i: int|
        0 <= i < sessions.len() ==> (#[trigger] chunks[i]).takes(
            sessions[i].plan,
            sessions[i].position,
            token_ids[i]@,
        )
}

/// What a planned batch holds besides its sessions.
#[derive(Debug)]
pub struct BatchAdmission {
    pub chunks: Vec<ModelChunkPlan>,
    pub packed: PackedPrefillPlan,
    pub demand: Qwen35NativeExecutionBatchDeviceDemand,
}

impl BatchAdmission {
    /// Whether the admission is that of a batch.
    pub open spec fn admits<R>(
        self,
        sessions: Seq<Qwen35NativeExecutionSession<R>>,
        token_ids: Seq<&[u32]>,
    ) -> bool {
        &&& self.packed.wf()
        &&& self.packed.lengths@ == token_counts(token_ids)
        &&& self.packed.offsets@ == positions(sessions)
        &&& largest_context(sessions, self.packed.max_context)
        &&& chunks_of(sessions, token_ids, self.chunks@)
        &&& exists|demands: Seq<Qwen35NativeExecutionDeviceDemand>|
            demands_of(sessions, demands) && #[trigger] self.demand.aggregates(demands)
    }
}

/// Whether the allocator refused the embedding rows of a sequence of a batch.
pub open spec fn rows_refused(token_ids: Seq<&[u32]>, error: Error) -> bool {
    exists|i: int|
        0 <= i < token_ids.len() && #[trigger] native_session::rows_refused(
            token_ids[i]@,
            error,
        )
}

/// Whether a batch that no session refuses is refused because a total overflows.
pub open spec fn totals_refused<R>(
    sessions: Seq<Qwen35NativeExecutionSession<R>>,
    token_ids: Seq<&[u32]>,
    error: Error,
) -> bool {
    ||| {
        &&& crate::qwen35_execution::total(token_counts(token_ids)) > usize::MAX
        &&& error == (Error::ArithmeticOverflow { context: "packed sequence tokens" })
    }
    ||| exists|demands: Seq<Qwen35NativeExecutionDeviceDemand>|
        {
            &&& #[trigger] demands_of(sessions, demands)
            &&& batch_bytes(demands) > usize::MAX
            &&& error == (Error::ArithmeticOverflow {
                context: "native model batch device bytes",
            })
        }
}

fn check_ready<R: CompletionResource>(session: &Qwen35NativeExecutionSession<R>) -> (checked:
    Result<(), Error>)
    ensures
        match checked {
            Ok(_) => ready_failure(*session) is None,
            Err(error) => ready_failure(*session) == Some(error),
        },
{
    match session.owner.ready_resource() {
        Ok(_) => Ok(()),
        Err(error) => Err(begin_error(error)),
    }
}

fn check_sessions<R: CompletionResource>(
    sessions: &Vec<Qwen35NativeExecutionSession<R>>,
    token_ids: &[&[u32]],
) -> (checked: Result<(), Error>)
    requires
        sessions@.len() == token_ids@.len() > 0,
    ensures
        match checked {
            Ok(_) => sessions_failure(sessions@, token_ids@, sessions@.len() as int) is None,
            Err(error) => sessions_failure(sessions@, token_ids@, sessions@.len() as int) == Some(
                error,
            ),
        },
{
    let resident: u64 = sessions[0].resident;
    let mut i: usize = 0;
    while i < sessions.len()
        invariant
            0 <= i <= sessions@.len(),
            sessions@.len() == token_ids@.len() > 0,
            resident == sessions@[0].resident,
            sessions_failure(sessions@, token_ids@, i as int) is None,
        decreases sessions@.len() - i,
    {
        proof {
            if sessions_failure(sessions@, token_ids@, i + 1) is Some {
                lemma_sessions_failure(sessions@, token_ids@, i + 1, sessions@.len() as int);
            }
        }
        let session = &sessions[i];
        check_ready(session)?;
        if session.resident != resident {
            return Err(
                Error::NativeSessionState {
                    rule: "native model batch sessions must share one resident allocation identity",
                },
            );
        }
        check_chunk(&session.plan, session.position, token_ids[i])?;
        Qwen35NativeExecutionDeviceDemand::from_bytes(session.plan.bytes)?;
        i = i + 1;
    }
    Ok(())
}

proof fn lemma_session_admitted<R>(
    sessions: Seq<Qwen35NativeExecutionSession<R>>,
    token_ids: Seq<&[u32]>,
    count: int,
    i: int,
)
    requires
        0 <= i < count,
        sessions_failure(sessions, token_ids, count) is None,
    ensures
        session_failure(sessions, token_ids, i) is None,
    decreases count,
{
    if i < count - 1 {
        lemma_session_admitted(sessions, token_ids, count - 1, i);
    }
}

/// A chunk that a session admits at its position is neither empty nor past its
/// context.
proof fn lemma_chunk_fits(plan: DeviceModelPlan, position: usize, tokens: Seq<u32>)
    requires
        tokens.len() <= usize::MAX,
        native_session::model_chunk_failure(plan, position, tokens) is None,
    ensures
        tokens.len() > 0,
        position + tokens.len() <= plan.layout.max_context,
{
    let lengths = seq![tokens.len() as usize];
    let offsets = seq![position];
    reveal_with_fuel(PackedPrefillPlan::sequences_failure, 2);
    assert(PackedPrefillPlan::sequence_failure(
        lengths,
        offsets,
        plan.layout.max_context,
        0,
    ) is None);
}

/// Admit a batch: every session is checked, then the packed geometry, the byte
/// demand, and the chunk of each session are derived into empty lists.
pub fn admit_sessions<R: CompletionResource>(
    sessions: &Vec<Qwen35NativeExecutionSession<R>>,
    token_ids: &[&[u32]],
    lengths: Vec<usize>,
    offsets: Vec<usize>,
    demands: Vec<Qwen35NativeExecutionDeviceDemand>,
    chunks: Vec<ModelChunkPlan>,
) -> (admission: Result<BatchAdmission, Error>)
    requires
        lengths@.len() == 0,
        offsets@.len() == 0,
        demands@.len() == 0,
        chunks@.len() == 0,
    ensures
        match admission {
            Ok(admission) => {
                &&& batch_failure(sessions@, token_ids@) is None
                &&& admission.admits(sessions@, token_ids@)
            },
            Err(error) => if batch_failure(sessions@, token_ids@) is Some {
                batch_failure(sessions@, token_ids@) == Some(error)
            } else {
                ||| totals_refused(sessions@, token_ids@, error)
                ||| rows_refused(token_ids@, error)
            },
        },
{
    if sessions.len() == 0 || sessions.len() != token_ids.len() {
        return Err(
            Error::NativeSessionState {
                rule: "native model batch requires equal nonempty session and token inputs",
            },
        );
    }
    check_sessions(sessions, token_ids)?;
    let mut lengths: Vec<usize> = lengths;
    let mut offsets: Vec<usize> = offsets;
    let mut demands: Vec<Qwen35NativeExecutionDeviceDemand> = demands;
    let mut chunks: Vec<ModelChunkPlan> = chunks;
    let mut max_context: usize = 0;
    let mut i: usize = 0;
    while i < sessions.len()
        invariant
            0 <= i <= sessions@.len(),
            sessions@.len() == token_ids@.len() > 0,
            sessions_failure(sessions@, token_ids@, sessions@.len() as int) is None,
            lengths@.len() == i,
            offsets@.len() == i,
            demands@.len() == i,
            chunks@.len() == i,
            forall|j: int|
                0 <= j < i ==> {
                    &&& #[trigger] lengths@[j] == token_ids@[j]@.len()
                    &&& lengths@[j] > 0
                    &&& sessions@[j].position + lengths@[j] <= max_context
                },
            forall|j: int| 0 <= j < i ==> #[trigger] offsets@[j] == sessions@[j].position,
            forall|j: int|
                0 <= j < i ==> (#[trigger] demands@[j]).spec_bytes() == sessions@[j].plan.bytes,
            forall|j: int|
                0 <= j < i ==> (#[trigger] chunks@[j]).takes(
                    sessions@[j].plan,
                    sessions@[j].position,
                    token_ids@[j]@,
                ),
            forall|j: int|
                0 <= j < i ==> (#[trigger] sessions@[j]).plan.layout.max_context <= max_context,
            i > 0 ==> exists|j: int|
                0 <= j < i && (#[trigger] sessions@[j]).plan.layout.max_context == max_context,
        decreases sessions@.len() - i,
    {
        let session = &sessions[i];
        let tokens: &[u32] = token_ids[i];
        let length: usize = tokens.len();
        proof {
            lemma_session_admitted(sessions@, token_ids@, sessions@.len() as int, i as int);
            lemma_chunk_fits(session.plan, session.position, tokens@);
        }
        lengths.push(length);
        offsets.push(session.position);
        demands.push(Qwen35NativeExecutionDeviceDemand::from_bytes(session.plan.bytes)?);
        chunks.push(ModelChunkPlan::from_model(&session.plan, session.position, tokens)?);
        if i == 0 || session.plan.layout.max_context > max_context {
            max_context = session.plan.layout.max_context;
        }
        i = i + 1;
    }
    proof {
        assert(lengths@ =~= token_counts(token_ids@));
        assert(offsets@ =~= positions(sessions@));
        assert(demands_of(sessions@, demands@));
        lemma_packed_admits(lengths@, offsets@, max_context, lengths@.len() as int);
    }
    let packed = PackedPrefillPlan::new(lengths, offsets, max_context)?;
    let demand = Qwen35NativeExecutionBatchDeviceDemand::try_from_demands(demands.as_slice())?;
    let admission = BatchAdmission { chunks, packed, demand };
    assert(admission.demand.aggregates(demands@));
    Ok(admission)
}

proof fn lemma_packed_admits(
    lengths: Seq<usize>,
    offsets: Seq<usize>,
    max_context: usize,
    count: int,
)
    requires
        0 <= count <= lengths.len() == offsets.len(),
        forall|j: int|
            0 <= j < count ==> (#[trigger] lengths[j]) > 0 && offsets[j] + lengths[j]
                <= max_context,
    ensures
        PackedPrefillPlan::sequences_failure(lengths, offsets, max_context, count) is None,
    decreases count,
{
    if count > 0 {
        lemma_packed_admits(lengths, offsets, max_context, count - 1);
        assert(lengths[count - 1] > 0);
    }
}

/// An atomic plan over independently owned native sessions.
#[derive(Debug)]
pub struct Qwen35NativeExecutionBatchPlan<'session, R> {
    pub sessions: &'session mut Vec<Qwen35NativeExecutionSession<R>>,
    pub admission: BatchAdmission,
}

/// Whether storage for a batch was refused.
pub open spec fn storage_refused(count: int, error: Error) -> bool {
    error matches Error::ExecutionAllocation { target, length, .. } && length == count && (target
        == "native model batch lengths" || target == "native model batch offsets" || target
        == "native model batch demand receipts" || target == "native model batch chunks")
}

impl<R: CompletionResource> Qwen35NativeExecutionSession<R> {
    /// Return the observable completion state.
    #[must_use]
    pub fn state(&self) -> (state: Qwen35NativeSessionState)
        ensures
            state == native_session::observed_state(self.owner.state),
    {
        session_state(&self.owner)
    }

    /// Plan one atomic transaction across sessions that share a resident model.
    ///
    /// Nothing is allocated on a device, reserved, or submitted, and no session
    /// changes. The allocator may refuse the lists of an admitted batch.
    pub fn plan_batch<'session>(
        sessions: &'session mut Vec<Qwen35NativeExecutionSession<R>>,
        token_ids: &[&[u32]],
    ) -> (plan: Result<Qwen35NativeExecutionBatchPlan<'session, R>, Error>)
        ensures
            match plan {
                Ok(plan) => {
                    &&& batch_failure(old(sessions)@, token_ids@) is None
                    &&& plan.sessions@ == old(sessions)@
                    &&& final(plan.sessions)@ == final(sessions)@
                    &&& plan.admission.admits(old(sessions)@, token_ids@)
                },
                Err(error) => {
                    &&& final(sessions)@ == old(sessions)@
                    &&& if old(sessions)@.len() == 0 || old(sessions)@.len() != token_ids@.len() {
                        batch_failure(old(sessions)@, token_ids@) == Some(error)
                    } else {
                        ||| batch_failure(old(sessions)@, token_ids@) == Some(error)
                        ||| batch_failure(old(sessions)@, token_ids@) is None && totals_refused(
                            old(sessions)@,
                            token_ids@,
                            error,
                        )
                        ||| batch_failure(old(sessions)@, token_ids@) is None && rows_refused(
                            token_ids@,
                            error,
                        )
                        ||| storage_refused(old(sessions)@.len() as int, error)
                    }
                },
            },
    {
        let count: usize = sessions.len();
        if count == 0 || count != token_ids.len() {
            return Err(
                Error::NativeSessionState {
                    rule: "native model batch requires equal nonempty session and token inputs",
                },
            );
        }
        let lengths: Vec<usize> = reserve("native model batch lengths", count)?;
        let offsets: Vec<usize> = reserve("native model batch offsets", count)?;
        let demands: Vec<Qwen35NativeExecutionDeviceDemand> = reserve(
            "native model batch demand receipts",
            count,
        )?;
        let chunks: Vec<ModelChunkPlan> = reserve("native model batch chunks", count)?;
        let admission = admit_sessions(sessions, token_ids, lengths, offsets, demands, chunks)?;
        Ok(Qwen35NativeExecutionBatchPlan { sessions, admission })
    }
}

/// Where one session of a batch stands.
#[derive(Clone, Copy, Debug, PartialEq, Eq, Structural)]
pub enum SessionPhase {
    /// Nothing was submitted.
    Ready,
    /// Work was submitted and has not completed.
    Submitted,
    /// Work was synchronized and validated.
    Completed,
    /// Work reached a known-idle state and is lost.
    PoisonedIdle,
    /// Work may still be running.
    PoisonedUncertain,
}

/// What a batch does next.
#[derive(Clone, Copy, Debug, PartialEq, Eq, Structural)]
pub enum BatchAction {
    /// Prepare the chunk of a session.
    Prepare { session: usize },
    /// Submit the prepared chunk of a session, which is in flight from here on.
    Submit { session: usize },
    /// Synchronize a submitted session.
    Synchronize { session: usize },
    /// Validate a synchronized session.
    Validate { session: usize },
    /// Take the logits of a completed session.
    TakeLogits { session: usize },
    /// Prepare the cache publication of a completed session.
    PrepareCache { session: usize },
    /// Publish every session: this cannot fail.
    Publish,
    /// Synchronize a submitted session that the batch gives up.
    Settle { session: usize },
    /// Nothing: every session was published.
    Published,
    /// Nothing: no session was published.
    Failed,
}

/// A batch in progress.
pub struct BatchModel {
    /// What the batch does next.
    pub action: BatchAction,
    /// Where each session stands.
    pub phases: Seq<SessionPhase>,
}

/// Whether a session's work was submitted and not published.
pub open spec fn submitted(phase: SessionPhase) -> bool {
    phase != SessionPhase::Ready
}

/// The phases of a batch that is given up: completed work is lost.
pub open spec fn given_up(phases: Seq<SessionPhase>) -> Seq<SessionPhase> {
    phases.map_values(
        |phase: SessionPhase|
            if phase == SessionPhase::Completed {
                SessionPhase::PoisonedIdle
            } else {
                phase
            },
    )
}

/// Whether a session is the first whose submitted work has to be settled.
pub open spec fn first_unsettled(phases: Seq<SessionPhase>, session: int) -> bool {
    &&& 0 <= session < phases.len()
    &&& phases[session] == SessionPhase::Submitted
    &&& forall|j: int| 0 <= j < session ==> #[trigger] phases[j] != SessionPhase::Submitted
}

/// Whether no session's work has to be settled.
pub open spec fn all_settled(phases: Seq<SessionPhase>) -> bool {
    forall|j: int| 0 <= j < phases.len() ==> #[trigger] phases[j] != SessionPhase::Submitted
}

/// Whether an action settles the phases of a batch that is given up.
pub open spec fn settles(phases: Seq<SessionPhase>, action: BatchAction) -> bool {
    match action {
        BatchAction::Settle { session } => first_unsettled(phases, session as int),
        BatchAction::Failed => all_settled(phases),
        _ => false,
    }
}

impl BatchModel {
    /// Whether sessions stand where the action needs them.
    pub open spec fn wf(self) -> bool {
        let phases = self.phases;
        let count = phases.len();
        &&& 0 < count <= usize::MAX
        &&& match self.action {
            BatchAction::Prepare { session } => {
                &&& session < count
                &&& forall|j: int|
                    0 <= j < count ==> #[trigger] phases[j] == if j < session {
                        SessionPhase::Submitted
                    } else {
                        SessionPhase::Ready
                    }
            },
            BatchAction::Submit { session } => {
                &&& session < count
                &&& forall|j: int|
                    0 <= j < count ==> #[trigger] phases[j] == if j <= session {
                        SessionPhase::Submitted
                    } else {
                        SessionPhase::Ready
                    }
            },
            BatchAction::Synchronize { session } | BatchAction::Validate { session } => {
                &&& session < count
                &&& forall|j: int|
                    0 <= j < count ==> #[trigger] phases[j] == if j < session {
                        SessionPhase::Completed
                    } else {
                        SessionPhase::Submitted
                    }
            },
            BatchAction::TakeLogits { session } | BatchAction::PrepareCache { session } => {
                &&& session < count
                &&& forall|j: int| 0 <= j < count ==> #[trigger] phases[j] == SessionPhase::Completed
            },
            BatchAction::Publish => forall|j: int|
                0 <= j < count ==> #[trigger] phases[j] == SessionPhase::Completed,
            BatchAction::Published => forall|j: int|
                0 <= j < count ==> #[trigger] phases[j] == SessionPhase::Ready,
            BatchAction::Settle { session } => {
                &&& first_unsettled(phases, session as int)
                &&& forall|j: int| 0 <= j < count ==> #[trigger] phases[j] != SessionPhase::Completed
            },
            BatchAction::Failed => {
                &&& all_settled(phases)
                &&& forall|j: int| 0 <= j < count ==> #[trigger] phases[j] != SessionPhase::Completed
            },
        }
    }

    /// The batch after its action succeeded, where that does not settle a session.
    pub open spec fn succeeded(self) -> BatchModel {
        let count = self.phases.len();
        match self.action {
            BatchAction::Prepare { session } => BatchModel {
                action: BatchAction::Submit { session },
                phases: self.phases.update(session as int, SessionPhase::Submitted),
            },
            BatchAction::Submit { session } => BatchModel {
                action: if session + 1 < count {
                    BatchAction::Prepare { session: (session + 1) as usize }
                } else {
                    BatchAction::Synchronize { session: 0 }
                },
                ..self
            },
            BatchAction::Synchronize { session } => BatchModel {
                action: BatchAction::Validate { session },
                ..self
            },
            BatchAction::Validate { session } => BatchModel {
                action: if session + 1 < count {
                    BatchAction::Synchronize { session: (session + 1) as usize }
                } else {
                    BatchAction::TakeLogits { session: 0 }
                },
                phases: self.phases.update(session as int, SessionPhase::Completed),
            },
            BatchAction::TakeLogits { session } => BatchModel {
                action: if session + 1 < count {
                    BatchAction::TakeLogits { session: (session + 1) as usize }
                } else {
                    BatchAction::PrepareCache { session: 0 }
                },
                ..self
            },
            BatchAction::PrepareCache { session } => BatchModel {
                action: if session + 1 < count {
                    BatchAction::PrepareCache { session: (session + 1) as usize }
                } else {
                    BatchAction::Publish
                },
                ..self
            },
            BatchAction::Publish => BatchModel {
                action: BatchAction::Published,
                phases: Seq::new(count, |j: int| SessionPhase::Ready),
            },
            _ => self,
        }
    }

    /// The phases after the action failed. A failed preparation leaves its session
    /// ready, unless the session has to be torn down.
    pub open spec fn failed_phases(self, teardown: bool) -> Seq<SessionPhase> {
        let phases = self.phases;
        given_up(
            match self.action {
                BatchAction::Prepare { session } => if teardown {
                    phases.update(session as int, SessionPhase::PoisonedIdle)
                } else {
                    phases
                },
                BatchAction::Synchronize { session } => phases.update(
                    session as int,
                    SessionPhase::PoisonedUncertain,
                ),
                BatchAction::Validate { session } => phases.update(
                    session as int,
                    SessionPhase::PoisonedIdle,
                ),
                _ => phases,
            },
        )
    }

    /// Whether the action can fail.
    pub open spec fn fallible(self) -> bool {
        match self.action {
            BatchAction::Prepare { .. } | BatchAction::Submit { .. } | BatchAction::Synchronize {
                ..
            } | BatchAction::Validate { .. } | BatchAction::TakeLogits { .. } | BatchAction::PrepareCache {
                ..
            } => true,
            _ => false,
        }
    }
}

/// A batch that gives up keeps every submitted session out of use: none is ready
/// again, and those that were never submitted stay ready, except one that has to be
/// torn down.
pub proof fn lemma_failure_poisons(batch: BatchModel, teardown: bool, session: usize)
    requires
        batch.wf(),
        batch.fallible(),
        session < batch.phases.len(),
    ensures
        submitted(batch.phases[session as int]) ==> submitted(batch.failed_phases(teardown)[session as int]),
        !submitted(batch.phases[session as int]) ==> batch.failed_phases(teardown)[session as int]
            == (if teardown && batch.action == (BatchAction::Prepare {
            session,
        }) {
            SessionPhase::PoisonedIdle
        } else {
            SessionPhase::Ready
        }),
        batch.failed_phases(teardown)[session as int] != SessionPhase::Completed,
{
}

/// Publication is all or nothing: a session whose work was submitted is ready again
/// only once every session was published, and then all of them are.
pub proof fn lemma_publication_is_atomic(batch: BatchModel, session: int)
    requires
        batch.wf(),
        0 <= session < batch.phases.len(),
    ensures
        batch.succeeded().wf(),
        submitted(batch.phases[session]) && !submitted(batch.succeeded().phases[session])
            ==> batch.action == BatchAction::Publish && batch.succeeded().action
            == BatchAction::Published,
        batch.succeeded().action == BatchAction::Published ==> forall|j: int|
            0 <= j < batch.phases.len() ==> #[trigger] batch.succeeded().phases[j]
                == SessionPhase::Ready,
{
}

/// A batch in progress, between two of its actions.
#[derive(Debug)]
pub struct BatchRun {
    action: BatchAction,
    phases: Vec<SessionPhase>,
}

impl View for BatchRun {
    type V = BatchModel;

    closed spec fn view(&self) -> BatchModel {
        BatchModel { action: self.action, phases: self.phases@ }
    }
}

fn give_up(phases: Vec<SessionPhase>) -> (settled: (Vec<SessionPhase>, BatchAction))
    ensures
        settled.0@ == given_up(phases@),
        settles(settled.0@, settled.1),
{
    let mut phases: Vec<SessionPhase> = phases;
    let ghost before = phases@;
    let mut i: usize = 0;
    while i < phases.len()
        invariant
            0 <= i <= phases@.len(),
            phases@.len() == before.len(),
            forall|j: int| 0 <= j < i ==> #[trigger] phases@[j] == given_up(before)[j],
            forall|j: int| i <= j < before.len() ==> #[trigger] phases@[j] == before[j],
        decreases phases@.len() - i,
    {
        if phases[i] == SessionPhase::Completed {
            phases.set(i, SessionPhase::PoisonedIdle);
        }
        i = i + 1;
    }
    assert(phases@ =~= given_up(before));
    let action = settling(&phases);
    (phases, action)
}

fn settling(phases: &Vec<SessionPhase>) -> (action: BatchAction)
    ensures
        settles(phases@, action),
{
    let mut i: usize = 0;
    while i < phases.len()
        invariant
            0 <= i <= phases@.len(),
            forall|j: int| 0 <= j < i ==> #[trigger] phases@[j] != SessionPhase::Submitted,
        decreases phases@.len() - i,
    {
        if phases[i] == SessionPhase::Submitted {
            return BatchAction::Settle { session: i };
        }
        i = i + 1;
    }
    BatchAction::Failed
}

impl BatchRun {
    #[verifier::type_invariant]
    spec fn checked(self) -> bool {
        self@.wf()
    }

    /// Begin a batch of ready sessions, where its owners have room.
    pub fn begin(count: usize) -> (run: Result<BatchRun, Error>)
        requires
            count > 0,
        ensures
            match run {
                Ok(run) => {
                    &&& run@.action == (BatchAction::Prepare { session: 0 })
                    &&& run@.phases == Seq::new(count as nat, |j: int| SessionPhase::Ready)
                    &&& run@.wf()
                },
                Err(error) => error.execution_allocation("native model batch pending owners", count),
            },
    {
        let mut phases: Vec<SessionPhase> = reserve("native model batch pending owners", count)?;
        let mut i: usize = 0;
        while i < count
            invariant
                0 <= i <= count,
                phases@ =~= Seq::new(i as nat, |j: int| SessionPhase::Ready),
            decreases count - i,
        {
            phases.push(SessionPhase::Ready);
            i = i + 1;
        }
        Ok(BatchRun { action: BatchAction::Prepare { session: 0 }, phases })
    }

    /// Say what the batch does next.
    pub fn next_action(&self) -> (action: BatchAction)
        ensures
            action == self@.action,
            self@.wf(),
    {
        proof {
            use_type_invariant(self);
        }
        self.action
    }

    /// Count the sessions of the batch.
    pub fn session_count(&self) -> (count: usize)
        ensures
            count == self@.phases.len(),
    {
        self.phases.len()
    }

    /// Record that the action succeeded.
    pub fn succeed(self) -> (run: BatchRun)
        requires
            self@.fallible() || self@.action == BatchAction::Publish,
        ensures
            run@ == self@.succeeded(),
    {
        proof {
            use_type_invariant(&self);
            lemma_publication_is_atomic(self@, 0);
        }
        let ghost before = self@;
        let count: usize = self.phases.len();
        let mut phases: Vec<SessionPhase> = self.phases;
        let action = match self.action {
            BatchAction::Prepare { session } => {
                phases.set(session, SessionPhase::Submitted);
                BatchAction::Submit { session }
            },
            BatchAction::Submit { session } => if session + 1 < count {
                BatchAction::Prepare { session: session + 1 }
            } else {
                BatchAction::Synchronize { session: 0 }
            },
            BatchAction::Synchronize { session } => BatchAction::Validate { session },
            BatchAction::Validate { session } => {
                phases.set(session, SessionPhase::Completed);
                if session + 1 < count {
                    BatchAction::Synchronize { session: session + 1 }
                } else {
                    BatchAction::TakeLogits { session: 0 }
                }
            },
            BatchAction::TakeLogits { session } => if session + 1 < count {
                BatchAction::TakeLogits { session: session + 1 }
            } else {
                BatchAction::PrepareCache { session: 0 }
            },
            BatchAction::PrepareCache { session } => if session + 1 < count {
                BatchAction::PrepareCache { session: session + 1 }
            } else {
                BatchAction::Publish
            },
            BatchAction::Publish => {
                let mut i: usize = 0;
                while i < count
                    invariant
                        0 <= i <= count == phases@.len(),
                        forall|j: int| 0 <= j < i ==> #[trigger] phases@[j] == SessionPhase::Ready,
                    decreases count - i,
                {
                    phases.set(i, SessionPhase::Ready);
                    i = i + 1;
                }
                assert(phases@ =~= before.succeeded().phases);
                BatchAction::Published
            },
            other => other,
        };
        BatchRun { action, phases }
    }

    /// Record that the action failed, and whether a failed preparation left its
    /// session to be torn down.
    pub fn fail(self, teardown: bool) -> (run: BatchRun)
        requires
            self@.fallible(),
        ensures
            run@.phases == self@.failed_phases(teardown),
            settles(run@.phases, run@.action),
    {
        proof {
            use_type_invariant(&self);
        }
        let ghost before = self@;
        let mut phases: Vec<SessionPhase> = self.phases;
        match self.action {
            BatchAction::Prepare { session } => {
                if teardown {
                    phases.set(session, SessionPhase::PoisonedIdle);
                }
            },
            BatchAction::Synchronize { session } => {
                phases.set(session, SessionPhase::PoisonedUncertain);
            },
            BatchAction::Validate { session } => {
                phases.set(session, SessionPhase::PoisonedIdle);
            },
            _ => {},
        }
        let (phases, action) = give_up(phases);
        BatchRun { action, phases }
    }

    /// Record how a session that the batch gave up was settled: its work is known to
    /// be idle where its synchronization went well, and uncertain where it failed.
    pub fn settle(self, synchronized: bool) -> (run: BatchRun)
        requires
            self@.action is Settle,
        ensures
            run@.phases == self@.phases.update(
                self@.action->Settle_session as int,
                if synchronized {
                    SessionPhase::PoisonedIdle
                } else {
                    SessionPhase::PoisonedUncertain
                },
            ),
            settles(run@.phases, run@.action),
    {
        proof {
            use_type_invariant(&self);
        }
        let mut phases: Vec<SessionPhase> = self.phases;
        if let BatchAction::Settle { session } = self.action {
            let phase = if synchronized {
                SessionPhase::PoisonedIdle
            } else {
                SessionPhase::PoisonedUncertain
            };
            phases.set(session, phase);
        }
        let action = settling(&phases);
        BatchRun { action, phases }
    }

    /// Return the completion state that a finished batch leaves a session in.
    pub fn final_state(&self, session: usize) -> (state: ResourceState)
        requires
            session < self@.phases.len(),
            self@.action is Published || self@.action is Failed,
        ensures
            state == final_state_of(self@.phases[session as int]),
            self@.action is Published ==> state == ResourceState::Ready,
            state != ResourceState::InFlight,
    {
        proof {
            use_type_invariant(self);
        }
        match self.phases[session] {
            SessionPhase::Ready => ResourceState::Ready,
            SessionPhase::PoisonedUncertain => ResourceState::PoisonedUncertain,
            _ => ResourceState::PoisonedIdle,
        }
    }
}

/// The completion state of a session that a finished batch leaves behind.
pub open spec fn final_state_of(phase: SessionPhase) -> ResourceState {
    match phase {
        SessionPhase::Ready => ResourceState::Ready,
        SessionPhase::PoisonedUncertain => ResourceState::PoisonedUncertain,
        _ => ResourceState::PoisonedIdle,
    }
}

/// Whether a finished batch left its sessions as its run says: each has the state of
/// its phase, and positions advance past the chunks only where all were published.
pub open spec fn concluded<R>(
    before: Seq<Qwen35NativeExecutionSession<R>>,
    after: Seq<Qwen35NativeExecutionSession<R>>,
    chunks: Seq<ModelChunkPlan>,
    run: BatchModel,
) -> bool {
    &&& after.len() == before.len()
    &&& forall|i: int|
        0 <= i < after.len() ==> {
            &&& (#[trigger] after[i]).owner.state == final_state_of(run.phases[i])
            &&& after[i].owner.resource == before[i].owner.resource
            &&& after[i].resident == before[i].resident
            &&& after[i].plan == before[i].plan
            &&& after[i].position == (if run.action is Published {
                chunks[i].next_position
            } else {
                before[i].position
            })
        }
}

impl<'session, R: CompletionResource> Qwen35NativeExecutionBatchPlan<'session, R> {
    /// Return the checked aggregate byte receipt.
    #[must_use]
    pub fn device_demand(&self) -> (demand: Qwen35NativeExecutionBatchDeviceDemand)
        ensures
            demand == self.admission.demand,
    {
        self.admission.demand
    }

    /// Borrow the sequence-major geometry of the transaction.
    #[must_use]
    pub fn packed_prefill_plan(&self) -> (packed: &PackedPrefillPlan)
        ensures
            *packed == self.admission.packed,
    {
        &self.admission.packed
    }

    /// Conclude a finished run: publish every session together and hand out one output
    /// for each in input order, or leave each where its run left it and hand out the
    /// failure. A run that is not finished, is that of another batch, or has outputs
    /// that do not fit it is refused, and every session stays as it is.
    pub fn execute<L>(self, run: BatchRun, outputs: Result<Vec<L>, Error>) -> (logits: Result<
        Vec<L>,
        Error,
    >)
        ensures
            if concludes(
                run@,
                match outputs {
                    Ok(rows) => Some(rows@.len()),
                    Err(_) => None,
                },
                old(self.sessions)@.len(),
                self.admission.chunks@.len(),
            ) {
                &&& logits == outputs
                &&& logits is Ok <==> run@.action is Published
                &&& logits matches Ok(rows) ==> rows@.len() == final(self.sessions)@.len()
                &&& concluded(
                    old(self.sessions)@,
                    final(self.sessions)@,
                    self.admission.chunks@,
                    run@,
                )
            } else {
                &&& final(self.sessions)@ == old(self.sessions)@
                &&& logits == Err::<Vec<L>, Error>(
                    Error::NativeSessionState {
                        rule: "native model batch must conclude the finished run of its own sessions",
                    },
                )
            },
    {
        let count: usize = self.sessions.len();
        let fits: bool = match (run.next_action(), &outputs) {
            (BatchAction::Published, Ok(rows)) => rows.len() == count,
            (BatchAction::Failed, Err(_)) => true,
            _ => false,
        };
        if !fits || run.session_count() != count || self.admission.chunks.len() != count {
            return Err(
                Error::NativeSessionState {
                    rule: "native model batch must conclude the finished run of its own sessions",
                },
            );
        }
        conclude(self.sessions, &self.admission.chunks, &run);
        outputs
    }
}

/// Whether a finished run and its outputs are those of a batch: one output for each
/// session where the run published, and none where it failed.
pub open spec fn concludes(
    run: BatchModel,
    outputs: Option<nat>,
    sessions: nat,
    chunks: nat,
) -> bool {
    &&& run.phases.len() == sessions
    &&& chunks == sessions
    &&& match outputs {
        Some(rows) => run.action is Published && rows == sessions,
        None => run.action is Failed,
    }
}

fn conclude<R>(
    sessions: &mut Vec<Qwen35NativeExecutionSession<R>>,
    chunks: &Vec<ModelChunkPlan>,
    run: &BatchRun,
)
    requires
        run@.action is Published || run@.action is Failed,
        run@.phases.len() == old(sessions)@.len() == chunks@.len(),
    ensures
        concluded(old(sessions)@, final(sessions)@, chunks@, run@),
{
    let ghost before = sessions@;
    let published: bool = match run.next_action() {
        BatchAction::Published => true,
        _ => false,
    };
    let mut i: usize = 0;
    while i < sessions.len()
        invariant
            0 <= i <= sessions@.len(),
            sessions@.len() == before.len() == chunks@.len() == run@.phases.len(),
            run@.action is Published || run@.action is Failed,
            published == (run@.action is Published),
            forall|j: int| i <= j < before.len() ==> #[trigger] sessions@[j] == before[j],
            forall|j: int|
                0 <= j < i ==> {
                    &&& (#[trigger] sessions@[j]).owner.state == final_state_of(run@.phases[j])
                    &&& sessions@[j].owner.resource == before[j].owner.resource
                    &&& sessions@[j].resident == before[j].resident
                    &&& sessions@[j].plan == before[j].plan
                    &&& sessions@[j].position == (if run@.action is Published {
                        chunks@[j].next_position
                    } else {
                        before[j].position
                    })
                },
        decreases sessions@.len() - i,
    {
        let state = run.final_state(i);
        sessions[i].owner.state = state;
        if published {
            sessions[i].position = chunks[i].next_position;
        }
        i = i + 1;
    }
}

} // verus!
