//! Native sessions: observable states, retained residents, session plans, token
//! chunks, and explicit teardown.

use crate::allocation::reserve;
use crate::completion::{BeginError, CompletionError, ResourceOwner, ResourceState};
use crate::error::Error;
use crate::native_demand::ModelDeviceByteDemand;
use crate::native_plan::{ModelBlockPlans, NativeBlockExtents, NativeKvExtents};
use crate::qwen35_batch::PackedPrefillPlan;
use crate::qwen35_execution::Layout;
use crate::qwen35_session;
use crate::qwen35_session::check_tokens;
use core::mem::ManuallyDrop;
use std::sync::Arc;
use vstd::prelude::*;

verus! {

/// Observable session state after completed or failed submissions.
#[derive(Clone, Copy, Debug, PartialEq, Eq, Structural)]
#[non_exhaustive]
pub enum Qwen35NativeSessionState {
    /// No work is submitted and the owned bundle may accept its next token.
    Ready,
    /// A submission reached a known-idle state but the session is permanently poisoned.
    PoisonedKnownIdle,
    /// Completion remains uncertain; the complete owned bundle is retained or forgotten.
    PoisonedCompletionUncertain,
}

/// The observable state of an owned bundle.
pub open spec fn observed_state(state: ResourceState) -> Qwen35NativeSessionState {
    match state {
        ResourceState::Ready => Qwen35NativeSessionState::Ready,
        ResourceState::PoisonedIdle => Qwen35NativeSessionState::PoisonedKnownIdle,
        ResourceState::InFlight | ResourceState::PoisonedUncertain =>
            Qwen35NativeSessionState::PoisonedCompletionUncertain,
    }
}

/// Return the observable state of an owned bundle.
pub fn session_state<R>(owner: &ResourceOwner<R>) -> (state: Qwen35NativeSessionState)
    ensures
        state == observed_state(owner.state),
{
    match owner.state {
        ResourceState::Ready => Qwen35NativeSessionState::Ready,
        ResourceState::PoisonedIdle => Qwen35NativeSessionState::PoisonedKnownIdle,
        ResourceState::InFlight | ResourceState::PoisonedUncertain =>
            Qwen35NativeSessionState::PoisonedCompletionUncertain,
    }
}

/// The decoder error of a refused begin.
pub open spec fn begin_failure(error: BeginError) -> Error {
    match error {
        BeginError::MissingResource => Error::NativeSessionState {
            rule: "native session lost its owned resource bundle",
        },
        BeginError::NotReady => Error::NativeSessionState {
            rule: "native session is permanently poisoned after submission",
        },
    }
}

/// Return the decoder error of a refused begin.
pub fn begin_error(error: BeginError) -> (failure: Error)
    ensures
        failure == begin_failure(error),
{
    match error {
        BeginError::MissingResource => Error::NativeSessionState {
            rule: "native session lost its owned resource bundle",
        },
        BeginError::NotReady => Error::NativeSessionState {
            rule: "native session is permanently poisoned after submission",
        },
    }
}

/// Return the decoder error of work that was not published: the failure of the
/// work itself, or the rule that the guard broke.
pub fn completion_error(error: CompletionError<Error>) -> (failure: Error)
    ensures
        failure == (match error {
            CompletionError::Commit { source } => source,
            CompletionError::Synchronization { source } => source,
            CompletionError::PostSynchronizationValidation { source } => source,
            CompletionError::MissingResource => Error::NativeSessionState {
                rule: "native in-flight guard lost its owned resource bundle",
            },
            CompletionError::NotSubmitted => Error::NativeSessionState {
                rule: "native completion requires a marked submission",
            },
        }),
{
    match error {
        CompletionError::Commit { source } => source,
        CompletionError::Synchronization { source } => source,
        CompletionError::PostSynchronizationValidation { source } => source,
        CompletionError::MissingResource => Error::NativeSessionState {
            rule: "native in-flight guard lost its owned resource bundle",
        },
        CompletionError::NotSubmitted => Error::NativeSessionState {
            rule: "native completion requires a marked submission",
        },
    }
}

/// A shared owner that is retained rather than dropped: giving up the retention
/// never releases what it holds.
pub struct ResidentRetention<T> {
    resident: ManuallyDrop<Arc<T>>,
}

impl<T> ResidentRetention<T> {
    /// The retained owner.
    pub closed spec fn spec_resident(self) -> Arc<T> {
        self.resident@
    }

    /// Retain a shared owner.
    pub fn new(resident: Arc<T>) -> (retention: ResidentRetention<T>)
        ensures
            retention.spec_resident() == resident,
    {
        ResidentRetention { resident: ManuallyDrop::new(resident) }
    }

    /// Borrow the retained owner.
    pub fn get(&self) -> (resident: &Arc<T>)
        ensures
            *resident == self.spec_resident(),
    {
        &self.resident
    }

    /// Give up the retention for the owner it holds.
    pub fn recover(self) -> (resident: Arc<T>)
        ensures
            resident == self.spec_resident(),
    {
        ManuallyDrop::into_inner(self.resident)
    }
}

/// The outcome of an aggregate device teardown.
#[derive(Clone, Copy, Debug, PartialEq, Eq, Structural)]
pub enum InventoryRelease {
    /// Every destructor was acknowledged.
    Released,
    /// The aggregate was retained before a destructor call.
    Pending,
    /// Stream completion is unproved.
    SynchronizationUnconfirmed,
    /// A destructor outcome is indeterminate.
    Indeterminate,
}

/// How far the owners of a session or a resident model have been given to teardown.
#[derive(Clone, Copy, Debug, PartialEq, Eq, Structural)]
pub enum TeardownAdmission {
    /// The stream was not eligible; no buffer was admitted.
    Unadmitted,
    /// Some buffers were admitted and the rest was retained.
    PartiallyAdmitted,
    /// Everything was admitted, with this outcome.
    Releasing(InventoryRelease),
}

/// Observable state of explicit teardown custody.
#[derive(Clone, Copy, Debug, PartialEq, Eq, Structural)]
#[non_exhaustive]
pub enum Qwen35NativeExecutionSessionTeardownState {
    /// Every captured buffer and the ordered stream were acknowledged.
    Released,
    /// The stream was not eligible for aggregate teardown.
    Unadmitted,
    /// Checked accounting retained admitted and unadmitted ownership.
    PartiallyAdmitted,
    /// The aggregate was retained before a destructor call.
    Pending,
    /// Stream completion is unproved; only explicit reconciliation is sound.
    SynchronizationUnconfirmed,
    /// An outcome is indeterminate and remains conservatively held.
    Quarantined,
}

/// Custody of a session's owners during explicit teardown: what was admitted, and
/// whether a failed creation retains an indeterminate output.
#[derive(Clone, Copy, Debug, PartialEq, Eq, Structural)]
pub struct ModelSessionTeardown {
    pub admission: TeardownAdmission,
    pub creation_failure: bool,
}

/// The state of the known owners of an admission.
pub open spec fn admission_state(admission: TeardownAdmission) ->
    Qwen35NativeExecutionSessionTeardownState {
    match admission {
        TeardownAdmission::Unadmitted => Qwen35NativeExecutionSessionTeardownState::Unadmitted,
        TeardownAdmission::PartiallyAdmitted =>
            Qwen35NativeExecutionSessionTeardownState::PartiallyAdmitted,
        TeardownAdmission::Releasing(release) => match release {
            InventoryRelease::Released => Qwen35NativeExecutionSessionTeardownState::Released,
            InventoryRelease::Pending => Qwen35NativeExecutionSessionTeardownState::Pending,
            InventoryRelease::SynchronizationUnconfirmed =>
                Qwen35NativeExecutionSessionTeardownState::SynchronizationUnconfirmed,
            InventoryRelease::Indeterminate =>
                Qwen35NativeExecutionSessionTeardownState::Quarantined,
        },
    }
}

impl ModelSessionTeardown {
    /// Return the state of the known owners alone.
    pub fn known_state(self) -> (state: Qwen35NativeExecutionSessionTeardownState)
        ensures
            state == admission_state(self.admission),
    {
        match self.admission {
            TeardownAdmission::Unadmitted => Qwen35NativeExecutionSessionTeardownState::Unadmitted,
            TeardownAdmission::PartiallyAdmitted =>
                Qwen35NativeExecutionSessionTeardownState::PartiallyAdmitted,
            TeardownAdmission::Releasing(release) => match release {
                InventoryRelease::Released => Qwen35NativeExecutionSessionTeardownState::Released,
                InventoryRelease::Pending => Qwen35NativeExecutionSessionTeardownState::Pending,
                InventoryRelease::SynchronizationUnconfirmed =>
                    Qwen35NativeExecutionSessionTeardownState::SynchronizationUnconfirmed,
                InventoryRelease::Indeterminate =>
                    Qwen35NativeExecutionSessionTeardownState::Quarantined,
            },
        }
    }

    /// The state of the whole custody: an indeterminate creation output quarantines
    /// it, whatever became of the known owners.
    pub open spec fn whole_state(self) -> Qwen35NativeExecutionSessionTeardownState {
        if self.creation_failure {
            Qwen35NativeExecutionSessionTeardownState::Quarantined
        } else {
            admission_state(self.admission)
        }
    }

    /// Return the state of the whole custody.
    pub fn state(self) -> (state: Qwen35NativeExecutionSessionTeardownState)
        ensures
            state == self.whole_state(),
    {
        if self.creation_failure {
            Qwen35NativeExecutionSessionTeardownState::Quarantined
        } else {
            self.known_state()
        }
    }

    /// Report whether teardown may be retried: only where it was retained before a
    /// destructor call.
    pub fn may_retry(self) -> (may: bool)
        ensures
            may == (self.admission == TeardownAdmission::Releasing(InventoryRelease::Pending)),
    {
        match self.admission {
            TeardownAdmission::Releasing(InventoryRelease::Pending) => true,
            _ => false,
        }
    }

    /// Report whether synchronization may be reconciled: only where stream
    /// completion is unproved.
    pub fn may_reconcile(self) -> (may: bool)
        ensures
            may == (self.admission == TeardownAdmission::Releasing(
                InventoryRelease::SynchronizationUnconfirmed,
            )),
    {
        match self.admission {
            TeardownAdmission::Releasing(InventoryRelease::SynchronizationUnconfirmed) => true,
            _ => false,
        }
    }

    /// The custody after a retry or a reconciliation with an outcome; custody that
    /// allows neither stays as it is.
    pub open spec fn proceeded(self, release: InventoryRelease) -> ModelSessionTeardown {
        if self.admission == TeardownAdmission::Releasing(InventoryRelease::Pending)
            || self.admission == TeardownAdmission::Releasing(
            InventoryRelease::SynchronizationUnconfirmed,
        ) {
            ModelSessionTeardown { admission: TeardownAdmission::Releasing(release), ..self }
        } else {
            self
        }
    }

    /// Take the outcome of a retry or a reconciliation.
    pub fn proceed(self, release: InventoryRelease) -> (custody: ModelSessionTeardown)
        ensures
            custody == self.proceeded(release),
    {
        if self.may_retry() || self.may_reconcile() {
            ModelSessionTeardown {
                admission: TeardownAdmission::Releasing(release),
                creation_failure: self.creation_failure,
            }
        } else {
            self
        }
    }

    /// Report whether the retained resident may be recovered: every known owner was
    /// acknowledged, and no indeterminate creation output is held.
    pub fn released(self) -> (released: bool)
        ensures
            released == (self.whole_state()
                == Qwen35NativeExecutionSessionTeardownState::Released),
    {
        match self.admission {
            TeardownAdmission::Releasing(InventoryRelease::Released) => !self.creation_failure,
            _ => false,
        }
    }
}

/// Custody that is released, or that holds an indeterminate outcome, stays so: no
/// outcome of a retry or a reconciliation changes it. In particular a quarantined
/// custody never becomes a released one.
pub proof fn lemma_custody_outcomes_are_final(
    custody: ModelSessionTeardown,
    release: InventoryRelease,
)
    ensures
        custody.whole_state() == Qwen35NativeExecutionSessionTeardownState::Quarantined ==>
            custody.proceeded(release).whole_state()
            == Qwen35NativeExecutionSessionTeardownState::Quarantined,
        custody.whole_state() == Qwen35NativeExecutionSessionTeardownState::Released ==>
            custody.proceeded(release) == custody,
{
}

/// A stored matrix that a native plan uploads.
#[derive(Debug)]
pub struct ProjectionWeight {
    pub name: String,
    pub rows: usize,
    pub width: usize,
    pub serialized_bytes: usize,
}

/// A stored `f32` parameter that a native plan uploads.
#[derive(Debug)]
pub struct F32Parameter {
    pub name: String,
    pub elements: usize,
}

/// Checked geometry and byte demand of one native session.
#[derive(Debug)]
pub struct DeviceModelPlan {
    pub layout: Layout,
    pub max_chunk_tokens: usize,
    pub embedding: ProjectionWeight,
    pub output: ProjectionWeight,
    pub output_norm: F32Parameter,
    pub layers: Vec<NativeBlockExtents>,
    pub blocks: ModelBlockPlans,
    pub kv: Option<NativeKvExtents>,
    pub bytes: ModelDeviceByteDemand,
}

/// Whether two plans have the same kind of block at every position.
pub open spec fn same_kinds(
    session: Seq<NativeBlockExtents>,
    resident: Seq<NativeBlockExtents>,
) -> bool {
    &&& session.len() == resident.len()
    &&& forall|block: int|
        0 <= block < session.len() ==> ((#[trigger] session[block]) is Full) == (
        resident[block] is Full)
}

/// Report whether two plans have the same kind of block at every position.
pub fn same_layer_roles(session: &[NativeBlockExtents], resident: &[NativeBlockExtents]) -> (same:
    bool)
    ensures
        same == same_kinds(session@, resident@),
{
    if session.len() != resident.len() {
        return false;
    }
    let mut block: usize = 0;
    while block < session.len()
        invariant
            0 <= block <= session@.len(),
            session@.len() == resident@.len(),
            forall|i: int|
                0 <= i < block ==> ((#[trigger] session@[i]) is Full) == (resident@[i] is Full),
        decreases session@.len() - block,
    {
        if session[block].is_full() != resident[block].is_full() {
            return false;
        }
        block = block + 1;
    }
    true
}

/// Why a session plan is refused by a resident model, if it is.
pub open spec fn binding_failure(resident: DeviceModelPlan, session: DeviceModelPlan) -> Option<
    Error,
> {
    if session.layout.max_context > resident.layout.max_context {
        Some(
            Error::NativeSessionState {
                rule: "native session context must not exceed its resident model ceiling",
            },
        )
    } else if session.embedding.rows != resident.embedding.rows || session.embedding.width
        != resident.embedding.width || session.output.rows != resident.output.rows
        || session.output.width != resident.output.width || !same_kinds(
        session.layers@,
        resident.layers@,
    ) {
        Some(
            Error::NativeSessionState {
                rule: "native session plan must retain resident uploaded-weight bindings",
            },
        )
    } else {
        None
    }
}

/// Require a session plan to stay under its resident model's context ceiling and to
/// use the weights that the model uploaded.
pub fn derive_session_plan(resident: &DeviceModelPlan, session: DeviceModelPlan) -> (plan: Result<
    DeviceModelPlan,
    Error,
>)
    ensures
        match plan {
            Ok(plan) => binding_failure(*resident, session) is None && plan == session,
            Err(error) => binding_failure(*resident, session) == Some(error),
        },
{
    if session.layout.max_context > resident.layout.max_context {
        return Err(
            Error::NativeSessionState {
                rule: "native session context must not exceed its resident model ceiling",
            },
        );
    }
    if session.embedding.rows != resident.embedding.rows || session.embedding.width
        != resident.embedding.width || session.output.rows != resident.output.rows
        || session.output.width != resident.output.width || !same_layer_roles(
        session.layers.as_slice(),
        resident.layers.as_slice(),
    ) {
        return Err(
            Error::NativeSessionState {
                rule: "native session plan must retain resident uploaded-weight bindings",
            },
        );
    }
    Ok(session)
}

/// The attention geometry of one chunk: its own tokens, and all that its last token sees.
#[derive(Clone, Copy, Debug, PartialEq, Eq, Structural)]
pub struct ChunkAttention {
    pub tokens: usize,
    pub visible_tokens: usize,
}

/// Checked geometry of one token chunk, before any device work: the embedding rows of
/// its tokens in chronological order, the committed position, the position that is
/// published with every other result, and the attention geometry where the model has a
/// paged cache.
#[derive(Debug)]
pub struct ModelChunkPlan {
    pub rows: Vec<usize>,
    pub position: usize,
    pub next_position: usize,
    pub token_count: usize,
    pub attention: Option<ChunkAttention>,
}

/// The embedding rows of tokens, in order.
pub open spec fn embedding_rows(tokens: Seq<u32>) -> Seq<usize> {
    tokens.map_values(|token: u32| token as usize)
}

/// Why a chunk of a packed plan is refused, if it is.
pub open spec fn chunk_failure(
    plan: DeviceModelPlan,
    tokens: Seq<u32>,
    packed: PackedPrefillPlan,
    sequence: usize,
) -> Option<Error> {
    if sequence >= packed.lengths@.len() {
        Some(
            Error::NativeSessionState { rule: "native packed model sequence must exist" },
        )
    } else if sequence >= packed.offsets@.len() {
        Some(
            Error::NativeSessionState {
                rule: "native packed model sequence must retain its committed position",
            },
        )
    } else if packed.lengths@[sequence as int] != tokens.len() {
        Some(
            Error::NativeSessionState {
                rule: "native packed model sequence length must match token ids",
            },
        )
    } else if tokens.len() > plan.max_chunk_tokens {
        Some(
            Error::NativeSessionState {
                rule: "native model chunk must remain within its admitted capacity",
            },
        )
    } else if packed.offsets@[sequence as int] + tokens.len() > usize::MAX {
        Some(Error::ArithmeticOverflow { context: "native model chunk next position" })
    } else if packed.offsets@[sequence as int] + tokens.len() > plan.layout.max_context {
        Some(
            Error::NativeSessionState {
                rule: "native packed model sequence must fit its exact session context",
            },
        )
    } else {
        qwen35_session::token_failure(tokens, plan.embedding.rows as int)
    }
}

impl ModelChunkPlan {
    /// Whether the chunk takes tokens at a position of a session.
    pub open spec fn takes(self, plan: DeviceModelPlan, position: usize, tokens: Seq<u32>) -> bool {
        &&& self.rows@ == embedding_rows(tokens)
        &&& self.position == position
        &&& self.token_count == tokens.len()
        &&& self.next_position == position + tokens.len()
        &&& self.attention == (match plan.kv {
            Some(_) => Some(
                ChunkAttention { tokens: self.token_count, visible_tokens: self.next_position },
            ),
            None => None,
        })
    }

    /// Bind one sequence of a packed plan to its session: nothing is allocated on a
    /// device, copied, or submitted. The allocator may refuse the embedding rows of an
    /// admitted chunk.
    pub fn from_packed_sequence(
        plan: &DeviceModelPlan,
        tokens: &[u32],
        packed: &PackedPrefillPlan,
        sequence: usize,
    ) -> (chunk: Result<ModelChunkPlan, Error>)
        ensures
            match chunk {
                Ok(chunk) => {
                    &&& chunk_failure(*plan, tokens@, *packed, sequence) is None
                    &&& chunk.takes(*plan, packed.offsets@[sequence as int], tokens@)
                },
                Err(error) => if chunk_failure(*plan, tokens@, *packed, sequence) is Some {
                    chunk_failure(*plan, tokens@, *packed, sequence) == Some(error)
                } else {
                    rows_refused(tokens@, error)
                },
            },
    {
        let (position, next_position) = check_packed_sequence(plan, tokens, packed, sequence)?;
        let storage: Vec<usize> = reserve("native model chunk embedding rows", tokens.len())?;
        Ok(
            ModelChunkPlan {
                rows: select_rows(tokens, storage),
                position,
                next_position,
                token_count: tokens.len(),
                attention: match plan.kv {
                    Some(_) => Some(
                        ChunkAttention { tokens: tokens.len(), visible_tokens: next_position },
                    ),
                    None => None,
                },
            },
        )
    }

    /// Bind a chunk of one sequence to a session at its committed position.
    pub fn from_model(plan: &DeviceModelPlan, position: usize, tokens: &[u32]) -> (chunk: Result<
        ModelChunkPlan,
        Error,
    >)
        ensures
            match chunk {
                Ok(chunk) => {
                    &&& model_chunk_failure(*plan, position, tokens@) is None
                    &&& chunk.takes(*plan, position, tokens@)
                },
                Err(error) => if model_chunk_failure(*plan, position, tokens@) is Some {
                    model_chunk_failure(*plan, position, tokens@) == Some(error)
                } else {
                    rows_refused(tokens@, error)
                },
            },
    {
        let packed = single_sequence(plan, position, tokens)?;
        Self::from_packed_sequence(plan, tokens, &packed, 0)
    }
}

/// Whether the allocator refused the embedding rows of tokens.
pub open spec fn rows_refused(tokens: Seq<u32>, error: Error) -> bool {
    tokens.len() > 0 && error.execution_allocation(
        "native model chunk embedding rows",
        tokens.len() as usize,
    )
}

fn select_rows(tokens: &[u32], storage: Vec<usize>) -> (rows: Vec<usize>)
    requires
        storage@.len() == 0,
    ensures
        rows@ == embedding_rows(tokens@),
{
    let mut rows: Vec<usize> = storage;
    let mut i: usize = 0;
    while i < tokens.len()
        invariant
            0 <= i <= tokens@.len(),
            rows@.len() == i,
            forall|j: int| 0 <= j < i ==> #[trigger] rows@[j] == tokens@[j] as usize,
        decreases tokens@.len() - i,
    {
        rows.push(tokens[i] as usize);
        i = i + 1;
    }
    assert(rows@ =~= embedding_rows(tokens@));
    rows
}

/// Pack the tokens of one sequence at a position of a session.
fn single_sequence(plan: &DeviceModelPlan, position: usize, tokens: &[u32]) -> (packed: Result<
    PackedPrefillPlan,
    Error,
>)
    ensures
        match packed {
            Ok(packed) => {
                &&& PackedPrefillPlan::failure(
                    seq![tokens@.len() as usize],
                    seq![position],
                    plan.layout.max_context,
                ) is None
                &&& packed.lengths@ == seq![tokens@.len() as usize]
                &&& packed.offsets@ == seq![position]
                &&& position + tokens@.len() <= plan.layout.max_context
            },
            Err(error) => PackedPrefillPlan::failure(
                seq![tokens@.len() as usize],
                seq![position],
                plan.layout.max_context,
            ) == Some(error),
        },
{
    let lengths: Vec<usize> = vec![tokens.len()];
    let offsets: Vec<usize> = vec![position];
    proof {
        assert(lengths@ =~= seq![tokens@.len() as usize]);
        assert(offsets@ =~= seq![position]);
    }
    let packed = PackedPrefillPlan::new(lengths, offsets, plan.layout.max_context)?;
    assert(packed.lengths@[0] > 0);
    Ok(packed)
}

/// Check a chunk of one sequence at the committed position of a session.
pub fn check_chunk(plan: &DeviceModelPlan, position: usize, tokens: &[u32]) -> (checked: Result<
    (),
    Error,
>)
    ensures
        match checked {
            Ok(_) => model_chunk_failure(*plan, position, tokens@) is None,
            Err(error) => model_chunk_failure(*plan, position, tokens@) == Some(error),
        },
{
    let packed = single_sequence(plan, position, tokens)?;
    check_packed_sequence(plan, tokens, &packed, 0)?;
    Ok(())
}

/// Check one sequence of a packed plan against its session, and find its committed
/// position and the next one.
pub fn check_packed_sequence(
    plan: &DeviceModelPlan,
    tokens: &[u32],
    packed: &PackedPrefillPlan,
    sequence: usize,
) -> (checked: Result<(usize, usize), Error>)
    ensures
        match checked {
            Ok((position, next_position)) => {
                &&& chunk_failure(*plan, tokens@, *packed, sequence) is None
                &&& position == packed.offsets@[sequence as int]
                &&& next_position == position + tokens@.len()
            },
            Err(error) => chunk_failure(*plan, tokens@, *packed, sequence) == Some(error),
        },
{
    let token_count: usize = match packed.sequence_length(sequence) {
        Some(count) => count,
        None => {
            return Err(
                Error::NativeSessionState { rule: "native packed model sequence must exist" },
            );
        },
    };
    let position: usize = match packed.committed_offset(sequence) {
        Some(position) => position,
        None => {
            return Err(
                Error::NativeSessionState {
                    rule: "native packed model sequence must retain its committed position",
                },
            );
        },
    };
    if token_count != tokens.len() {
        return Err(
            Error::NativeSessionState {
                rule: "native packed model sequence length must match token ids",
            },
        );
    }
    if token_count > plan.max_chunk_tokens {
        return Err(
            Error::NativeSessionState {
                rule: "native model chunk must remain within its admitted capacity",
            },
        );
    }
    let next_position: usize = match position.checked_add(token_count) {
        Some(next) => next,
        None => {
            return Err(
                Error::ArithmeticOverflow { context: "native model chunk next position" },
            );
        },
    };
    if next_position > plan.layout.max_context {
        return Err(
            Error::NativeSessionState {
                rule: "native packed model sequence must fit its exact session context",
            },
        );
    }
    check_tokens(tokens, plan.embedding.rows)?;
    Ok((position, next_position))
}

/// Why a chunk at a position is refused, if it is.
pub open spec fn model_chunk_failure(
    plan: DeviceModelPlan,
    position: usize,
    tokens: Seq<u32>,
) -> Option<Error> {
    if let Some(error) = PackedPrefillPlan::failure(
        seq![tokens.len() as usize],
        seq![position],
        plan.layout.max_context,
    ) {
        Some(error)
    } else if tokens.len() > plan.max_chunk_tokens {
        Some(
            Error::NativeSessionState {
                rule: "native model chunk must remain within its admitted capacity",
            },
        )
    } else {
        qwen35_session::token_failure(tokens, plan.embedding.rows as int)
    }
}

} // verus!
