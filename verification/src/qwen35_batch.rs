//! Atomic aggregate ownership of independent bounded sessions.

use crate::allocation::reserve;
use crate::error::Error;
use crate::qwen35_execution;
use crate::qwen35_requirements;
use crate::qwen35_requirements::{Qwen35BatchCpuRequirements, Qwen35CpuRequirements};
use crate::qwen35_session;
use crate::qwen35_session::{Qwen35Execution, StagedExecution};
use vstd::prelude::*;

verus! {

/// Sequence-major geometry of a packed batch: how many tokens each sequence
/// contributes and how many it has already published.
#[derive(Debug)]
pub struct PackedPrefillPlan {
    pub lengths: Vec<usize>,
    pub offsets: Vec<usize>,
    pub max_context: usize,
    pub total_tokens: usize,
}

impl PackedPrefillPlan {
    /// Whether the geometry is consistent: sequences are non-empty, fit the
    /// context, and add up.
    pub open spec fn wf(self) -> bool {
        &&& self.lengths@.len() == self.offsets@.len()
        &&& self.lengths@.len() > 0
        &&& self.total_tokens == qwen35_execution::total(self.lengths@)
        &&& forall|i: int|
            0 <= i < self.lengths@.len() ==> {
                &&& #[trigger] self.lengths@[i] > 0
                &&& self.offsets@[i] + self.lengths@[i] <= self.max_context
            }
    }

    /// Why sequence `i` cannot be packed, if it cannot.
    pub open spec fn sequence_failure(
        lengths: Seq<usize>,
        offsets: Seq<usize>,
        max_context: usize,
        i: int,
    ) -> Option<Error> {
        if lengths[i] == 0 {
            Some(
                Error::ExecutionBatch {
                    sequence: i as usize,
                    rule: "packed sequences must be nonempty",
                },
            )
        } else if offsets[i] + lengths[i] > max_context {
            Some(
                Error::ExecutionBatch {
                    sequence: i as usize,
                    rule: "packed sequences must fit the context after their committed tokens",
                },
            )
        } else {
            None
        }
    }

    /// Why the first `count` sequences cannot be packed, if they cannot.
    pub open spec fn sequences_failure(
        lengths: Seq<usize>,
        offsets: Seq<usize>,
        max_context: usize,
        count: int,
    ) -> Option<Error>
        decreases count,
    {
        if count <= 0 {
            None
        } else if let Some(error) = Self::sequences_failure(
            lengths,
            offsets,
            max_context,
            count - 1,
        ) {
            Some(error)
        } else {
            Self::sequence_failure(lengths, offsets, max_context, count - 1)
        }
    }

    /// Why sequences cannot be packed, if they cannot.
    pub open spec fn failure(
        lengths: Seq<usize>,
        offsets: Seq<usize>,
        max_context: usize,
    ) -> Option<Error> {
        if lengths.len() == 0 || lengths.len() != offsets.len() {
            Some(
                Error::ExecutionBatch {
                    sequence: 0,
                    rule: "packed sequence lengths and offsets must be nonempty and agree",
                },
            )
        } else if let Some(error) = Self::sequences_failure(
            lengths,
            offsets,
            max_context,
            lengths.len() as int,
        ) {
            Some(error)
        } else if qwen35_execution::total(lengths) > usize::MAX {
            Some(Error::ArithmeticOverflow { context: "packed sequence tokens" })
        } else {
            None
        }
    }

    /// Pack sequences: each is nonempty and fits the context after the tokens that
    /// are committed already.
    pub fn new(lengths: Vec<usize>, offsets: Vec<usize>, max_context: usize) -> (packed: Result<
        PackedPrefillPlan,
        Error,
    >)
        ensures
            match packed {
                Ok(packed) => {
                    &&& Self::failure(lengths@, offsets@, max_context) is None
                    &&& packed.wf()
                    &&& packed.lengths@ == lengths@
                    &&& packed.offsets@ == offsets@
                    &&& packed.max_context == max_context
                },
                Err(error) => Self::failure(lengths@, offsets@, max_context) == Some(error),
            },
    {
        if lengths.len() == 0 || lengths.len() != offsets.len() {
            return Err(
                Error::ExecutionBatch {
                    sequence: 0,
                    rule: "packed sequence lengths and offsets must be nonempty and agree",
                },
            );
        }
        let mut sequence: usize = 0;
        while sequence < lengths.len()
            invariant
                0 <= sequence <= lengths@.len(),
                lengths@.len() == offsets@.len() > 0,
                Self::sequences_failure(lengths@, offsets@, max_context, sequence as int) is None,
                forall|i: int|
                    0 <= i < sequence ==> {
                        &&& #[trigger] lengths@[i] > 0
                        &&& offsets@[i] + lengths@[i] <= max_context
                    },
            decreases lengths@.len() - sequence,
        {
            proof {
                if Self::sequences_failure(
                    lengths@,
                    offsets@,
                    max_context,
                    sequence + 1,
                ) is Some {
                    lemma_packed_failure(
                        lengths@,
                        offsets@,
                        max_context,
                        sequence + 1,
                        lengths@.len() as int,
                    );
                }
            }
            if lengths[sequence] == 0 {
                return Err(
                    Error::ExecutionBatch { sequence, rule: "packed sequences must be nonempty" },
                );
            }
            let fits: bool = match offsets[sequence].checked_add(lengths[sequence]) {
                Some(end) => end <= max_context,
                None => false,
            };
            if !fits {
                return Err(
                    Error::ExecutionBatch {
                        sequence,
                        rule: "packed sequences must fit the context after their committed tokens",
                    },
                );
            }
            sequence = sequence + 1;
        }
        let total_tokens: usize = qwen35_execution::sum_elements(
            &lengths,
            "packed sequence tokens",
        )?;
        Ok(PackedPrefillPlan { lengths, offsets, max_context, total_tokens })
    }

    /// Return the number of sequences.
    pub fn sequence_count(&self) -> (count: usize)
        ensures
            count == self.lengths@.len(),
    {
        self.lengths.len()
    }

    /// Return the number of tokens of a sequence.
    pub fn sequence_length(&self, sequence: usize) -> (length: Option<usize>)
        ensures
            length == (if sequence < self.lengths@.len() {
                Some(self.lengths@[sequence as int])
            } else {
                None
            }),
    {
        if sequence < self.lengths.len() {
            Some(self.lengths[sequence])
        } else {
            None
        }
    }

    /// Return the number of published tokens of a sequence.
    pub fn committed_offset(&self, sequence: usize) -> (offset: Option<usize>)
        ensures
            offset == (if sequence < self.offsets@.len() {
                Some(self.offsets@[sequence as int])
            } else {
                None
            }),
    {
        if sequence < self.offsets.len() {
            Some(self.offsets[sequence])
        } else {
            None
        }
    }

    /// Return the number of tokens of all sequences.
    pub fn total_tokens(&self) -> (tokens: usize)
        ensures
            tokens == self.total_tokens,
    {
        self.total_tokens
    }
}

proof fn lemma_packed_failure(
    lengths: Seq<usize>,
    offsets: Seq<usize>,
    max_context: usize,
    shorter: int,
    longer: int,
)
    requires
        0 <= shorter <= longer,
        PackedPrefillPlan::sequences_failure(lengths, offsets, max_context, shorter) is Some,
    ensures
        PackedPrefillPlan::sequences_failure(lengths, offsets, max_context, longer)
            == PackedPrefillPlan::sequences_failure(lengths, offsets, max_context, shorter),
    decreases longer - shorter,
{
    if shorter < longer {
        lemma_packed_failure(lengths, offsets, max_context, shorter, longer - 1);
    }
}

/// Why sequence `i` of a batch is refused, if it is: its step must be admitted
/// by its own session, and its content must equal that of the first session.
pub open spec fn sequence_failure<R, P>(
    executions: Seq<Qwen35Execution<R, P>>,
    token_ids: Seq<&[u32]>,
    i: int,
) -> Option<Error> {
    let execution = executions[i];
    let step = qwen35_session::step_failure(
        execution.spec_layout(),
        execution.step_bound(),
        execution.position(),
        token_ids[i]@,
    );
    if step is Some {
        step
    } else if execution.spec_requirements().artifact_digest@
        != executions[0].spec_requirements().artifact_digest@
        || execution.spec_requirements().serialized_backing_bytes
        != executions[0].spec_requirements().serialized_backing_bytes {
        Some(
            Error::ExecutionBatch {
                sequence: i as usize,
                rule:
                    "all executions must bind equal verified content digest and serialized length",
            },
        )
    } else {
        None
    }
}

/// Why the first `count` sequences of a batch are refused, if they are.
pub open spec fn sequences_failure<R, P>(
    executions: Seq<Qwen35Execution<R, P>>,
    token_ids: Seq<&[u32]>,
    count: int,
) -> Option<Error>
    decreases count,
{
    if count <= 0 {
        None
    } else if let Some(error) = sequences_failure(executions, token_ids, count - 1) {
        Some(error)
    } else {
        sequence_failure(executions, token_ids, count - 1)
    }
}

/// Why a batch is refused before anything is staged, if it is: it must be
/// non-empty, pair every session with its tokens, and admit every sequence.
pub open spec fn batch_failure<R, P>(
    executions: Seq<Qwen35Execution<R, P>>,
    token_ids: Seq<&[u32]>,
) -> Option<Error> {
    if executions.len() == 0 {
        Some(
            Error::ExecutionBatch {
                sequence: 0,
                rule: "batch must contain at least one independently owned execution",
            },
        )
    } else if executions.len() != token_ids.len() {
        Some(
            Error::ExecutionBatch {
                sequence: token_ids.len() as usize,
                rule: "execution and token-input sequence counts must agree",
            },
        )
    } else {
        sequences_failure(executions, token_ids, executions.len() as int)
    }
}

proof fn lemma_sequences_failure<R, P>(
    executions: Seq<Qwen35Execution<R, P>>,
    token_ids: Seq<&[u32]>,
    shorter: int,
    longer: int,
)
    requires
        0 <= shorter <= longer,
        sequences_failure(executions, token_ids, shorter) is Some,
    ensures
        sequences_failure(executions, token_ids, longer) == sequences_failure(
            executions,
            token_ids,
            shorter,
        ),
    decreases longer - shorter,
{
    if shorter < longer {
        lemma_sequences_failure(executions, token_ids, shorter, longer - 1);
    }
}

/// The receipts of a list of sessions.
pub open spec fn receipts<R, P>(executions: Seq<Qwen35Execution<R, P>>) -> Seq<
    Qwen35CpuRequirements,
> {
    Seq::new(executions.len(), |i: int| executions[i].spec_requirements())
}

/// The token counts of a list of sequences.
pub open spec fn token_counts(token_ids: Seq<&[u32]>) -> Seq<usize> {
    Seq::new(token_ids.len(), |i: int| token_ids[i]@.len() as usize)
}

/// The published token counts of a list of sessions.
pub open spec fn positions<R, P>(executions: Seq<Qwen35Execution<R, P>>) -> Seq<usize> {
    Seq::new(executions.len(), |i: int| executions[i].position())
}

/// The largest context bound of a list of sessions.
pub open spec fn largest_context<R, P>(executions: Seq<Qwen35Execution<R, P>>) -> int
    decreases executions.len(),
{
    if executions.len() == 0 {
        0
    } else {
        qwen35_requirements::larger(
            largest_context(executions.drop_last()),
            executions.last().spec_layout().max_context as int,
        )
    }
}

/// An atomic plan over independently owned sessions.
///
/// The plan borrows every session exclusively and consumes itself to publish all
/// of them together; dropping it changes nothing.
#[derive(Debug)]
pub struct Qwen35BatchExecutionPlan<'execution, 'tokens, R, P> {
    pub executions: &'execution mut Vec<Qwen35Execution<R, P>>,
    pub token_ids: &'tokens [&'tokens [u32]],
    pub packed: PackedPrefillPlan,
    pub requirements: Qwen35BatchCpuRequirements,
}

/// Report whether two digests are equal.
pub fn same_digest(left: &[u8; 32], right: &[u8; 32]) -> (same: bool)
    ensures
        same == (left@ == right@),
{
    let mut i: usize = 0;
    while i < 32
        invariant
            0 <= i <= 32,
            forall|j: int| 0 <= j < i ==> left@[j] == right@[j],
        decreases 32 - i,
    {
        if left[i] != right[i] {
            return false;
        }
        i = i + 1;
    }
    assert(left@ =~= right@);
    true
}

/// Whether a batch that no sequence refuses cannot be planned for want of room or
/// representable totals.
pub open spec fn batch_exhausted<R, P>(
    executions: Seq<Qwen35Execution<R, P>>,
    token_ids: Seq<&[u32]>,
    error: Error,
) -> bool {
    ||| error.execution_allocation("batch packed sequence lengths", executions.len() as usize)
    ||| error.execution_allocation("batch packed sequence offsets", executions.len() as usize)
    ||| error.execution_allocation("batch receipts", executions.len() as usize)
    ||| {
        &&& qwen35_execution::total(token_counts(token_ids)) > usize::MAX
        &&& error == (Error::ArithmeticOverflow { context: "packed sequence tokens" })
    }
    ||| Qwen35BatchCpuRequirements::failure(receipts(executions)) == Some(error)
}

impl<R, P> Qwen35Execution<R, P> {
    /// Plan one atomic transaction across independently owned sessions.
    ///
    /// Nothing is staged and no session changes.
    pub fn plan_batch<'execution, 'tokens>(
        executions: &'execution mut Vec<Qwen35Execution<R, P>>,
        token_ids: &'tokens [&'tokens [u32]],
    ) -> (plan: Result<Qwen35BatchExecutionPlan<'execution, 'tokens, R, P>, Error>)
        ensures
            match plan {
                Ok(plan) => {
                    &&& batch_failure(old(executions)@, token_ids@) is None
                    &&& plan.executions@ == old(executions)@
                    &&& final(plan.executions)@ == final(executions)@
                    &&& plan.token_ids@ == token_ids@
                    &&& plan.packed.wf()
                    &&& plan.packed.lengths@ == token_counts(token_ids@)
                    &&& plan.packed.offsets@ == positions(old(executions)@)
                    &&& plan.packed.max_context == largest_context(old(executions)@)
                    &&& plan.requirements.aggregates(
                        receipts(old(executions)@),
                        plan.packed.total_tokens,
                    )
                },
                Err(error) => {
                    &&& final(executions)@ == old(executions)@
                    &&& if batch_failure(old(executions)@, token_ids@) is Some {
                        batch_failure(old(executions)@, token_ids@) == Some(error)
                    } else {
                        batch_exhausted(old(executions)@, token_ids@, error)
                    }
                },
            },
    {
        let (packed, requirements) = admit_batch(executions, token_ids)?;
        Ok(Qwen35BatchExecutionPlan { executions, token_ids, packed, requirements })
    }
}

/// Check every sequence of a batch and derive its packed geometry and receipt.
pub fn admit_batch<R, P>(
    executions: &Vec<Qwen35Execution<R, P>>,
    token_ids: &[&[u32]],
) -> (admitted: Result<(PackedPrefillPlan, Qwen35BatchCpuRequirements), Error>)
    ensures
        match admitted {
            Ok((packed, requirements)) => {
                &&& batch_failure(executions@, token_ids@) is None
                &&& packed.wf()
                &&& packed.lengths@ == token_counts(token_ids@)
                &&& packed.offsets@ == positions(executions@)
                &&& packed.max_context == largest_context(executions@)
                &&& requirements.aggregates(receipts(executions@), packed.total_tokens)
            },
            Err(error) => if batch_failure(executions@, token_ids@) is Some {
                batch_failure(executions@, token_ids@) == Some(error)
            } else {
                batch_exhausted(executions@, token_ids@, error)
            },
        },
{
    if executions.len() == 0 {
        return Err(
            Error::ExecutionBatch {
                sequence: 0,
                rule: "batch must contain at least one independently owned execution",
            },
        );
    }
    if executions.len() != token_ids.len() {
        return Err(
            Error::ExecutionBatch {
                sequence: token_ids.len(),
                rule: "execution and token-input sequence counts must agree",
            },
        );
    }
    let count: usize = executions.len();
    check_sequences(executions, token_ids)?;
    let lengths: Vec<usize> = reserve("batch packed sequence lengths", count)?;
    let offsets: Vec<usize> = reserve("batch packed sequence offsets", count)?;
    let storage: Vec<Qwen35CpuRequirements> = reserve("batch receipts", count)?;
    let (packed, collected) = pack_sequences(executions, token_ids, lengths, offsets, storage)?;
    let requirements = Qwen35BatchCpuRequirements::try_from_receipts(
        &collected,
        packed.total_tokens,
    )?;
    Ok((packed, requirements))
}

fn check_sequences<R, P>(
    executions: &Vec<Qwen35Execution<R, P>>,
    token_ids: &[&[u32]],
) -> (checked: Result<(), Error>)
    requires
        executions@.len() == token_ids@.len() > 0,
    ensures
        match checked {
            Ok(_) => sequences_failure(
                executions@,
                token_ids@,
                executions@.len() as int,
            ) is None,
            Err(error) => sequences_failure(executions@, token_ids@, executions@.len() as int)
                == Some(error),
        },
{
    let reference = executions[0].cpu_requirements();
    let mut sequence: usize = 0;
    while sequence < executions.len()
        invariant
            0 <= sequence <= executions.len(),
            executions@.len() == token_ids@.len() > 0,
            reference == executions@[0].spec_requirements(),
            sequences_failure(executions@, token_ids@, sequence as int) is None,
        decreases executions.len() - sequence,
    {
        proof {
            if sequences_failure(executions@, token_ids@, sequence + 1) is Some {
                lemma_sequences_failure(
                    executions@,
                    token_ids@,
                    sequence + 1,
                    executions@.len() as int,
                );
            }
        }
        executions[sequence].validate_step(token_ids[sequence])?;
        let receipt = executions[sequence].cpu_requirements();
        if !same_digest(&receipt.artifact_digest, &reference.artifact_digest)
            || receipt.serialized_backing_bytes != reference.serialized_backing_bytes {
            return Err(
                Error::ExecutionBatch {
                    sequence,
                    rule:
                        "all executions must bind equal verified content digest and serialized length",
                },
            );
        }
        sequence = sequence + 1;
    }
    Ok(())
}

/// Every sequence of a batch that is not refused is admitted by its own session.
proof fn lemma_sequence_admitted<R, P>(
    executions: Seq<Qwen35Execution<R, P>>,
    token_ids: Seq<&[u32]>,
    count: int,
    i: int,
)
    requires
        0 <= i < count,
        sequences_failure(executions, token_ids, count) is None,
    ensures
        sequence_failure(executions, token_ids, i) is None,
    decreases count,
{
    if i < count - 1 {
        lemma_sequence_admitted(executions, token_ids, count - 1, i);
    }
}

/// Collect the packed geometry and the receipts of an admitted batch.
pub fn pack_sequences<R, P>(
    executions: &Vec<Qwen35Execution<R, P>>,
    token_ids: &[&[u32]],
    lengths: Vec<usize>,
    offsets: Vec<usize>,
    storage: Vec<Qwen35CpuRequirements>,
) -> (packed: Result<(PackedPrefillPlan, Vec<Qwen35CpuRequirements>), Error>)
    requires
        executions@.len() == token_ids@.len() > 0,
        sequences_failure(executions@, token_ids@, executions@.len() as int) is None,
        lengths@.len() == 0,
        offsets@.len() == 0,
        storage@.len() == 0,
    ensures
        match packed {
            Ok((packed, collected)) => {
                &&& packed.wf()
                &&& packed.lengths@ == token_counts(token_ids@)
                &&& packed.offsets@ == positions(executions@)
                &&& packed.max_context == largest_context(executions@)
                &&& collected@ == receipts(executions@)
            },
            Err(error) => {
                &&& qwen35_execution::total(token_counts(token_ids@)) > usize::MAX
                &&& error == (Error::ArithmeticOverflow { context: "packed sequence tokens" })
            },
        },
{
    let mut lengths: Vec<usize> = lengths;
    let mut offsets: Vec<usize> = offsets;
    let mut collected: Vec<Qwen35CpuRequirements> = storage;
    let mut max_context: usize = 0;
    let mut sequence: usize = 0;
    assert(executions@.take(0) =~= Seq::<Qwen35Execution<R, P>>::empty());
    while sequence < executions.len()
        invariant
            0 <= sequence <= executions.len(),
            executions@.len() == token_ids@.len() > 0,
            sequences_failure(executions@, token_ids@, executions@.len() as int) is None,
            lengths@.len() == sequence,
            offsets@.len() == sequence,
            collected@.len() == sequence,
            max_context == largest_context(executions@.take(sequence as int)),
            forall|i: int|
                0 <= i < sequence ==> {
                    &&& #[trigger] lengths@[i] == token_ids@[i]@.len()
                    &&& lengths@[i] > 0
                    &&& offsets@[i] + lengths@[i] <= max_context
                },
            forall|i: int| 0 <= i < sequence ==> #[trigger] offsets@[i] == executions@[i].position(),
            forall|i: int|
                0 <= i < sequence ==> #[trigger] collected@[i] == executions@[i].spec_requirements(),
        decreases executions.len() - sequence,
    {
        proof {
            let longer = executions@.take(sequence + 1);
            assert(longer.drop_last() =~= executions@.take(sequence as int));
            assert(longer.last() == executions@[sequence as int]);
            lemma_sequence_admitted(
                executions@,
                token_ids@,
                executions@.len() as int,
                sequence as int,
            );
        }
        let execution = &executions[sequence];
        lengths.push(token_ids[sequence].len());
        offsets.push(execution.published_tokens());
        collected.push(execution.cpu_requirements());
        let context: usize = execution.context_bound();
        if context > max_context {
            max_context = context;
        }
        sequence = sequence + 1;
    }
    assert(executions@.take(sequence as int) =~= executions@);
    assert(lengths@ =~= token_counts(token_ids@));
    assert(offsets@ =~= positions(executions@));
    assert(collected@ =~= receipts(executions@));
    let total_tokens: usize = qwen35_execution::sum_elements(&lengths, "packed sequence tokens")?;
    Ok((PackedPrefillPlan { lengths, offsets, max_context, total_tokens }, collected))
}

/// Whether a staged step serves the planned tokens of a session and may be published to
/// it.
pub open spec fn step_serves<R, P>(
    step: StagedExecution<R, P>,
    execution: Qwen35Execution<R, P>,
    tokens: &[u32],
) -> bool {
    step.publishes_to(execution) && step@.tokens == tokens@
}

/// Whether every staged step of a batch serves the planned tokens of its session and may
/// be published to it.
pub open spec fn all_publish<R, P>(
    staged: Seq<StagedExecution<R, P>>,
    executions: Seq<Qwen35Execution<R, P>>,
    token_ids: Seq<&[u32]>,
) -> bool {
    &&& staged.len() == executions.len() == token_ids.len()
    &&& forall|i: int|
        0 <= i < staged.len() ==> step_serves(#[trigger] staged[i], executions[i], token_ids[i])
}

/// Whether every step of a batch was published to its session and handed out its
/// logits, in sequence order.
pub open spec fn all_published<R, P>(
    before: Seq<Qwen35Execution<R, P>>,
    after: Seq<Qwen35Execution<R, P>>,
    steps: Seq<StagedExecution<R, P>>,
    logits: Seq<Vec<u32>>,
) -> bool {
    &&& logits.len() == steps.len()
    &&& after.len() == steps.len()
    &&& forall|i: int| 0 <= i < steps.len() ==> (#[trigger] logits[i])@ == steps[i]@.logits
    &&& forall|i: int|
        0 <= i < steps.len() ==> (#[trigger] after[i]).published_from(before[i], steps[i]@)
}

impl<'execution, 'tokens, R, P> Qwen35BatchExecutionPlan<'execution, 'tokens, R, P> {
    /// Return the aggregate host-capacity receipt derived at admission.
    pub fn cpu_requirements(&self) -> (requirements: Qwen35BatchCpuRequirements)
        ensures
            requirements == self.requirements,
    {
        self.requirements
    }

    /// Borrow the packed geometry that drives this transaction.
    pub fn packed_prefill_plan(&self) -> (packed: &PackedPrefillPlan)
        ensures
            *packed == self.packed,
    {
        &self.packed
    }

    /// Publish every staged step together, or none of them.
    ///
    /// The outer list keeps the sequence order. A failed step, one that does not serve
    /// the planned tokens of its session, or a refused allocation of the outer list
    /// leaves every session as it was. Once the list has its room, publication is
    /// infallible and allocates nothing.
    pub fn execute(self, staged: Result<Vec<StagedExecution<R, P>>, Error>) -> (logits: Result<
        Vec<Vec<u32>>,
        Error,
    >)
        ensures
            match logits {
                Ok(logits) => staged matches Ok(steps) && {
                    &&& all_publish(steps@, old(self.executions)@, self.token_ids@)
                    &&& all_published(
                        old(self.executions)@,
                        final(self.executions)@,
                        steps@,
                        logits@,
                    )
                },
                Err(error) => {
                    &&& final(self.executions)@ == old(self.executions)@
                    &&& match staged {
                        Err(failure) => error == failure,
                        Ok(steps) => if all_publish(
                            steps@,
                            old(self.executions)@,
                            self.token_ids@,
                        ) {
                            &&& steps@.len() > 0
                            &&& error.execution_allocation(
                                "batch grouped logits",
                                steps@.len() as usize,
                            )
                        } else {
                            &&& error matches Error::ExecutionBatch { sequence, rule }
                            &&& rule
                                == "staged execution and token-input sequences must remain aligned"
                            &&& first_misaligned(
                                steps@,
                                old(self.executions)@,
                                self.token_ids@,
                                sequence as int,
                            )
                        },
                    }
                },
            },
    {
        let staged = staged?;
        if let Some(sequence) = find_misaligned(&staged, self.executions, self.token_ids) {
            return Err(
                Error::ExecutionBatch {
                    sequence,
                    rule: "staged execution and token-input sequences must remain aligned",
                },
            );
        }
        let storage: Vec<Vec<u32>> = reserve("batch grouped logits", staged.len())?;
        Ok(publish_all(self.executions, staged, storage))
    }
}

/// Where a batch first does not fit its staged steps: at the number of token inputs or
/// of steps where these differ from the number of sessions, or else at the first step
/// that does not serve its session.
pub open spec fn first_misaligned<R, P>(
    staged: Seq<StagedExecution<R, P>>,
    executions: Seq<Qwen35Execution<R, P>>,
    token_ids: Seq<&[u32]>,
    sequence: int,
) -> bool {
    if executions.len() != token_ids.len() {
        sequence == token_ids.len()
    } else if staged.len() != executions.len() {
        sequence == staged.len()
    } else {
        &&& 0 <= sequence < staged.len()
        &&& !step_serves(staged[sequence], executions[sequence], token_ids[sequence])
        &&& forall|i: int|
            0 <= i < sequence ==> step_serves(
                #[trigger] staged[i],
                executions[i],
                token_ids[i],
            )
    }
}

fn find_misaligned<R, P>(
    staged: &Vec<StagedExecution<R, P>>,
    executions: &Vec<Qwen35Execution<R, P>>,
    token_ids: &[&[u32]],
) -> (sequence: Option<usize>)
    ensures
        match sequence {
            Some(sequence) => {
                &&& !all_publish(staged@, executions@, token_ids@)
                &&& first_misaligned(staged@, executions@, token_ids@, sequence as int)
            },
            None => all_publish(staged@, executions@, token_ids@),
        },
{
    if executions.len() != token_ids.len() {
        return Some(token_ids.len());
    }
    if staged.len() != executions.len() {
        return Some(staged.len());
    }
    let mut sequence: usize = 0;
    while sequence < staged.len()
        invariant
            0 <= sequence <= staged.len(),
            staged@.len() == executions@.len() == token_ids@.len(),
            forall|i: int|
                0 <= i < sequence ==> step_serves(
                    #[trigger] staged@[i],
                    executions@[i],
                    token_ids@[i],
                ),
        decreases staged.len() - sequence,
    {
        if !staged[sequence].can_publish(&executions[sequence]) || !staged[sequence].serves(
            token_ids[sequence],
        ) {
            assert(!step_serves(
                staged@[sequence as int],
                executions@[sequence as int],
                token_ids@[sequence as int],
            ));
            return Some(sequence);
        }
        sequence = sequence + 1;
    }
    None
}

/// Publish every step of an aligned batch, in order: infallible.
pub fn publish_all<R, P>(
    executions: &mut Vec<Qwen35Execution<R, P>>,
    staged: Vec<StagedExecution<R, P>>,
    storage: Vec<Vec<u32>>,
) -> (logits: Vec<Vec<u32>>)
    requires
        staged@.len() == old(executions)@.len(),
        forall|i: int|
            0 <= i < staged@.len() ==> (#[trigger] staged@[i]).publishes_to(old(executions)@[i]),
        storage@.len() == 0,
    ensures
        all_published(old(executions)@, final(executions)@, staged@, logits@),
{
    let ghost before = executions@;
    let ghost steps = staged@;
    let mut rest: Vec<StagedExecution<R, P>> = staged;
    let mut logits: Vec<Vec<u32>> = storage;
    let mut sequence: usize = 0;
    assert(rest@ =~= steps.skip(0));
    while rest.len() > 0
        invariant
            sequence + rest@.len() == steps.len() == before.len() == executions@.len(),
            sequence <= executions.len(),
            logits@.len() == sequence,
            rest@ == steps.skip(sequence as int),
            forall|i: int| 0 <= i < steps.len() ==> (#[trigger] steps[i]).publishes_to(before[i]),
            forall|i: int| sequence <= i < steps.len() ==> #[trigger] executions@[i] == before[i],
            forall|i: int|
                0 <= i < sequence ==> (#[trigger] executions@[i]).published_from(
                    before[i],
                    steps[i]@,
                ),
            forall|i: int| 0 <= i < sequence ==> (#[trigger] logits@[i])@ == steps[i]@.logits,
        decreases rest@.len(),
    {
        let step = rest.remove(0);
        assert(step == steps[sequence as int]);
        assert(executions@[sequence as int] == before[sequence as int]);
        logits.push(executions[sequence].publish(step));
        sequence = sequence + 1;
        assert(rest@ =~= steps.skip(sequence as int));
    }
    logits
}

} // verus!
