//! Transactional bounded execution sessions.
//!
//! A session publishes recurrent layers, key-value rows, and its position only
//! after a whole step succeeded. The numerical stages of a step run outside: a
//! staged step says which stage comes next, takes its result, checks it, and
//! collects the retained logit rows. `R` is the state of one recurrent layer
//! and `P` the key-value pool with the rows of its open append.

use crate::allocation::reserve;
use crate::error::Error;
use crate::qwen35::{Qwen35RecurrentLayout, Qwen35StructuralProfile};
use crate::qwen35_execution;
use crate::qwen35_execution::{
    ensure_execution_plan, extend_window, finite, returned_logits_elements, Layout,
    Qwen35LogitSelection,
};
use crate::qwen35_inventory;
use crate::qwen35_requirements::{
    KernelExtents, Qwen35CpuRequirements, Qwen35RequirementElements,
};
use vstd::prelude::*;

verus! {

/// The private state of one main block: a recurrent state, or the index of its
/// layer in the key-value pool.
#[derive(Debug)]
pub enum LayerState<R> {
    Recurrent(R),
    Full(usize),
}

/// The extents of a key-value pool for every full-attention layer.
#[derive(Clone, Copy, Debug, PartialEq, Eq, Structural)]
pub struct PagedKvGeometry {
    pub layers: usize,
    pub row_width: usize,
    pub max_context: usize,
}

/// Derive the extents of the key-value pool; a model without full-attention
/// layers has none.
pub fn paged_kv_geometry(layout: Layout) -> (geometry: Option<PagedKvGeometry>)
    requires
        layout.full_interval > 0,
    ensures
        geometry == (if layout.full_layers() == 0 {
            None
        } else {
            Some(
                PagedKvGeometry {
                    layers: layout.full_layers() as usize,
                    row_width: layout.kv_width,
                    max_context: layout.max_context,
                },
            )
        }),
{
    if layout.full_layer_count() == 0 {
        return None;
    }
    Some(
        PagedKvGeometry {
            layers: layout.full_layer_count(),
            row_width: layout.kv_width,
            max_context: layout.max_context,
        },
    )
}

/// Whether the state of block `block` has the block's kind: full-attention
/// blocks are numbered in order, every other block is recurrent.
pub open spec fn layer_kind_fits<R>(layout: Layout, block: int, layer: LayerState<R>) -> bool {
    match layer {
        LayerState::Full(index) => {
            &&& layout.full(block)
            &&& index == block / (layout.full_interval as int)
        },
        LayerState::Recurrent(_) => !layout.full(block),
    }
}

/// Whether a list of states has one fitting state for every main block.
pub open spec fn layers_fit<R>(layout: Layout, layers: Seq<LayerState<R>>) -> bool {
    &&& layers.len() == layout.main_blocks
    &&& forall|block: int|
        0 <= block < layers.len() ==> layer_kind_fits(layout, block, #[trigger] layers[block])
}

/// Whether the recurrent states of a list of layers are a list of states, in order.
pub open spec fn recurrent_states<R>(layers: Seq<LayerState<R>>) -> Seq<R>
    decreases layers.len(),
{
    if layers.len() == 0 {
        Seq::empty()
    } else {
        match layers.last() {
            LayerState::Recurrent(state) => recurrent_states(layers.drop_last()).push(state),
            LayerState::Full(_) => recurrent_states(layers.drop_last()),
        }
    }
}

/// An artifact-bound construction plan for one execution session.
#[derive(Debug)]
pub struct Qwen35ExecutionPlan {
    layout: Layout,
    max_step_tokens: usize,
    selection: Qwen35LogitSelection,
    requirements: Qwen35CpuRequirements,
}

/// Why a step bound is refused, if it is.
pub open spec fn step_bound_failure(max_context: usize, max_step_tokens: usize) -> Option<Error> {
    if max_step_tokens == 0 || max_step_tokens > max_context {
        Some(
            Error::ExecutionContext {
                requested: max_step_tokens,
                rule: "maximum step tokens must be nonzero and no greater than caller context",
            },
        )
    } else {
        None
    }
}

/// Whether the capacity receipt of a layout is refused with an error.
pub open spec fn receipt_refused(
    layout: Layout,
    recurrent: Qwen35RecurrentLayout,
    max_step_tokens: usize,
    selection: Qwen35LogitSelection,
    extents: KernelExtents,
    error: Error,
) -> bool {
    match Qwen35RequirementElements::failure(layout, recurrent, max_step_tokens, selection, extents) {
        Some(failure) => error == failure,
        None => {
            &&& exists|elements: Qwen35RequirementElements| #[trigger]
                elements.describes(layout, recurrent, max_step_tokens, selection, extents) && 4
                    * elements.logical_upper_bound > u64::MAX
            &&& error == (Error::ArithmeticOverflow { context: "logical upper bound bytes" })
        },
    }
}

impl Qwen35ExecutionPlan {
    /// The execution geometry of the plan.
    pub closed spec fn spec_layout(self) -> Layout {
        self.layout
    }

    /// The largest number of tokens of one step.
    pub closed spec fn step_bound(self) -> usize {
        self.max_step_tokens
    }

    /// Which logit rows a step retains.
    pub closed spec fn spec_selection(self) -> Qwen35LogitSelection {
        self.selection
    }

    /// The precomputed host-capacity receipt.
    pub closed spec fn spec_requirements(self) -> Qwen35CpuRequirements {
        self.requirements
    }

    #[verifier::type_invariant]
    spec fn admitted(self) -> bool {
        &&& self.layout.wf()
        &&& 0 < self.max_step_tokens <= self.layout.max_context
        &&& self.requirements.wf()
    }

    /// Whether the plan is that of a session over an artifact.
    pub open spec fn plans(
        self,
        profile: Qwen35StructuralProfile<'_>,
        max_context: usize,
        max_step_tokens: usize,
        selection: Qwen35LogitSelection,
        extents: KernelExtents,
    ) -> bool {
        let metadata = profile.artifact().metadata@;
        let dimensions = profile.spec_dimensions().execution_dimensions_spec();
        &&& qwen35_execution::layout_failure(metadata, dimensions, max_context) is None
        &&& step_bound_failure(max_context, max_step_tokens) is None
        &&& self.spec_layout().describes(metadata, dimensions, max_context)
        &&& self.spec_layout().wf()
        &&& self.step_bound() == max_step_tokens
        &&& self.spec_selection() == selection
        &&& self.spec_requirements().wf()
        &&& self.spec_requirements().artifact_digest == profile.artifact().digest
        &&& self.spec_requirements().serialized_backing_bytes == profile.artifact().file_len
        &&& self.spec_requirements().max_context == max_context
        &&& self.spec_requirements().max_step_tokens == max_step_tokens
        &&& self.spec_requirements().selection == selection
        &&& exists|elements: Qwen35RequirementElements| #[trigger]
            elements.describes(
                self.spec_layout(),
                profile.spec_dimensions().recurrent_layout_spec(),
                max_step_tokens,
                selection,
                extents,
            )
                && self.spec_requirements().counts(elements)
    }

    /// Whether a session over an artifact is refused with an error: its layout is
    /// checked first, then its step bound, then its capacity receipt.
    pub open spec fn refused(
        profile: Qwen35StructuralProfile<'_>,
        max_context: usize,
        max_step_tokens: usize,
        selection: Qwen35LogitSelection,
        extents: KernelExtents,
        error: Error,
    ) -> bool {
        let metadata = profile.artifact().metadata@;
        let dimensions = profile.spec_dimensions().execution_dimensions_spec();
        if let Some(refused) = qwen35_execution::layout_failure(
            metadata,
            dimensions,
            max_context,
        ) {
            error == refused
        } else if let Some(refused) = step_bound_failure(max_context, max_step_tokens) {
            error == refused
        } else {
            exists|layout: Layout| #[trigger]
                layout.describes(metadata, dimensions, max_context) && layout.wf()
                    && receipt_refused(
                    layout,
                    profile.spec_dimensions().recurrent_layout_spec(),
                    max_step_tokens,
                    selection,
                    extents,
                    error,
                )
        }
    }

    /// Admit a session over an artifact: its layout, then its step bound, then the
    /// representability of its capacity receipt.
    pub fn try_from_weights(
        profile: &Qwen35StructuralProfile<'_>,
        max_context: usize,
        max_step_tokens: usize,
        selection: Qwen35LogitSelection,
        extents: KernelExtents,
    ) -> (plan: Result<Qwen35ExecutionPlan, Error>)
        ensures
            match plan {
                Ok(plan) => plan.plans(
                    *profile,
                    max_context,
                    max_step_tokens,
                    selection,
                    extents,
                ),
                Err(error) => Self::refused(
                    *profile,
                    max_context,
                    max_step_tokens,
                    selection,
                    extents,
                    error,
                ),
            },
    {
        let layout = Layout::from_metadata(profile, max_context)?;
        if max_step_tokens == 0 || max_step_tokens > max_context {
            return Err(
                Error::ExecutionContext {
                    requested: max_step_tokens,
                    rule: "maximum step tokens must be nonzero and no greater than caller context",
                },
            );
        }
        let elements = Qwen35RequirementElements::try_from_layout(
            layout,
            profile.recurrent_layout(),
            max_step_tokens,
            selection,
            extents,
        )?;
        let requirements = Qwen35CpuRequirements::try_from_elements(
            profile.observed().digest,
            profile.observed().file_len,
            max_context,
            max_step_tokens,
            selection,
            elements,
        )?;
        let plan = Qwen35ExecutionPlan { layout, max_step_tokens, selection, requirements };
        assert(elements.describes(
            plan.spec_layout(),
            profile.spec_dimensions().recurrent_layout_spec(),
            max_step_tokens,
            selection,
            extents,
        ));
        Ok(plan)
    }

    /// Return the precomputed host-capacity receipt.
    pub fn cpu_requirements(&self) -> (requirements: Qwen35CpuRequirements)
        ensures
            requirements == self.spec_requirements(),
    {
        self.requirements
    }

    /// Return the execution geometry.
    pub fn layout(&self) -> (layout: Layout)
        ensures
            layout == self.spec_layout(),
            layout.wf(),
    {
        proof {
            use_type_invariant(self);
        }
        self.layout
    }

    /// Construct the session of this plan from the recurrent states of its
    /// recurrent blocks, in block order, and its key-value pool. `session` tells the
    /// session from the others: its steps carry it, and no other session takes them.
    pub fn execution<R, P>(self, session: u64, recurrent: Vec<R>, pool: Option<P>) -> (execution:
        Result<Qwen35Execution<R, P>, Error>)
        ensures
            match execution {
                Ok(execution) => {
                    &&& recurrent@.len() == self.spec_layout().main_blocks
                        - self.spec_layout().full_layers()
                    &&& (pool is Some) == (self.spec_layout().full_layers() > 0)
                    &&& execution.spec_session() == session
                    &&& execution.spec_layout() == self.spec_layout()
                    &&& execution.step_bound() == self.step_bound()
                    &&& execution.spec_selection() == self.spec_selection()
                    &&& execution.spec_requirements() == self.spec_requirements()
                    &&& execution.position() == 0
                    &&& execution.spec_pool() == pool
                    &&& layers_fit(self.spec_layout(), execution.spec_layers())
                    &&& recurrent_states(execution.spec_layers()) == recurrent@
                },
                Err(error) => if recurrent@.len() != self.spec_layout().main_blocks
                    - self.spec_layout().full_layers() {
                    error == (Error::ExecutionContext {
                        requested: recurrent@.len() as usize,
                        rule: "main-block state must exist for every artifact main block",
                    })
                } else if (pool is Some) != (self.spec_layout().full_layers() > 0) {
                    error == (Error::ExecutionContext {
                        requested: self.spec_layout().full_layers() as usize,
                        rule: "full-attention execution must own a paged KV transaction",
                    })
                } else {
                    &&& self.spec_layout().main_blocks > 0
                    &&& error.execution_allocation(
                        "main-block execution slots",
                        self.spec_layout().main_blocks,
                    )
                },
            },
    {
        proof {
            use_type_invariant(&self);
        }
        let layout = self.layout;
        let recurrent_count: usize = layout.recurrent_layer_count()?;
        if recurrent.len() != recurrent_count {
            return Err(
                Error::ExecutionContext {
                    requested: recurrent.len(),
                    rule: "main-block state must exist for every artifact main block",
                },
            );
        }
        if pool.is_some() != (layout.full_layer_count() > 0) {
            return Err(
                Error::ExecutionContext {
                    requested: layout.full_layer_count(),
                    rule: "full-attention execution must own a paged KV transaction",
                },
            );
        }
        let storage: Vec<LayerState<R>> = reserve("main-block execution slots", layout.main_blocks)?;
        let layers = arrange_layers(layout, recurrent, storage);
        Ok(
            Qwen35Execution {
                session,
                layout,
                max_step_tokens: self.max_step_tokens,
                selection: self.selection,
                requirements: self.requirements,
                layers,
                pool,
                position: 0,
            },
        )
    }
}

/// Give every main block its state: full-attention blocks are numbered in order,
/// and the recurrent states go to the other blocks in order.
pub fn arrange_layers<R>(
    layout: Layout,
    recurrent: Vec<R>,
    storage: Vec<LayerState<R>>,
) -> (layers: Vec<LayerState<R>>)
    requires
        layout.full_interval > 0,
        recurrent@.len() == layout.main_blocks - layout.full_layers(),
        storage@.len() == 0,
    ensures
        layers_fit(layout, layers@),
        recurrent_states(layers@) == recurrent@,
{
    let mut layers: Vec<LayerState<R>> = storage;
    let mut rest: Vec<R> = recurrent;
    let ghost states = rest@;
    let ghost interval = layout.full_interval as int;
    let mut block: usize = 0;
    let mut full_layer: usize = 0;
    assert(recurrent_states(layers@) + rest@ =~= states);
    assert(0int / interval == 0) by (nonlinear_arith)
        requires
            interval > 0,
    ;
    while block < layout.main_blocks
        invariant
            layout.full_interval > 0,
            interval == layout.full_interval,
            0 <= block <= layout.main_blocks,
            full_layer == block as int / interval,
            layers@.len() == block,
            rest@.len() == (layout.main_blocks - layout.full_layers()) - (block - full_layer),
            forall|i: int|
                0 <= i < layers@.len() ==> layer_kind_fits(layout, i, #[trigger] layers@[i]),
            recurrent_states(layers@) + rest@ == states,
        decreases layout.main_blocks - block,
    {
        let ghost before = layers@;
        let ghost left = rest@;
        proof {
            qwen35_inventory::lemma_next_quotient(block as int, interval);
            lemma_quotient_below(block + 1, interval);
            lemma_recurrent_below(layout, block + 1);
        }
        if layout.is_full(block) {
            layers.push(LayerState::Full(full_layer));
            full_layer = full_layer + 1;
        } else {
            layers.push(LayerState::Recurrent(rest.remove(0)));
        }
        proof {
            assert(layers@.drop_last() =~= before);
            assert(recurrent_states(layers@) + rest@ =~= recurrent_states(before) + left);
        }
        block = block + 1;
    }
    assert(rest@ =~= Seq::<R>::empty());
    assert(recurrent_states(layers@) =~= states);
    layers
}

proof fn lemma_quotient_below(number: int, divisor: int)
    requires
        number >= 0,
        divisor > 0,
    ensures
        0 <= number / divisor <= number,
{
    assert(0 <= number / divisor <= number) by (nonlinear_arith)
        requires
            number >= 0,
            divisor > 0,
    ;
}

proof fn lemma_recurrent_below(layout: Layout, blocks: int)
    requires
        layout.full_interval > 0,
        0 <= blocks <= layout.main_blocks,
    ensures
        blocks - blocks / (layout.full_interval as int) <= layout.main_blocks
            - layout.full_layers(),
    decreases layout.main_blocks - blocks,
{
    if blocks < layout.main_blocks {
        qwen35_inventory::lemma_next_quotient(blocks, layout.full_interval as int);
        lemma_recurrent_below(layout, blocks + 1);
    }
}

/// A stateful bounded session over one artifact.
#[derive(Debug)]
pub struct Qwen35Execution<R, P> {
    session: u64,
    layout: Layout,
    max_step_tokens: usize,
    selection: Qwen35LogitSelection,
    requirements: Qwen35CpuRequirements,
    layers: Vec<LayerState<R>>,
    pool: Option<P>,
    position: usize,
}

impl<R, P> Qwen35Execution<R, P> {
    /// What tells the session from the others.
    pub closed spec fn spec_session(self) -> u64 {
        self.session
    }

    /// The execution geometry.
    pub closed spec fn spec_layout(self) -> Layout {
        self.layout
    }

    /// The largest number of tokens of one step.
    pub closed spec fn step_bound(self) -> usize {
        self.max_step_tokens
    }

    /// Which logit rows a step retains.
    pub closed spec fn spec_selection(self) -> Qwen35LogitSelection {
        self.selection
    }

    /// The host-capacity receipt of the plan.
    pub closed spec fn spec_requirements(self) -> Qwen35CpuRequirements {
        self.requirements
    }

    /// The published layer states.
    pub closed spec fn spec_layers(self) -> Seq<LayerState<R>> {
        self.layers@
    }

    /// The published key-value pool.
    pub closed spec fn spec_pool(self) -> Option<P> {
        self.pool
    }

    /// The number of published tokens.
    pub closed spec fn position(self) -> usize {
        self.position
    }

    /// Whether this is a session after one of its steps was published: the step's
    /// layers and pool replace the old ones, the position advances by the step's
    /// tokens, and everything else stays.
    pub open spec fn published_from(self, before: Self, step: StepModel<R, P>) -> bool {
        &&& self.spec_session() == before.spec_session()
        &&& self.spec_layout() == before.spec_layout()
        &&& self.step_bound() == before.step_bound()
        &&& self.spec_selection() == before.spec_selection()
        &&& self.spec_requirements() == before.spec_requirements()
        &&& self.spec_layers() == step.layers
        &&& self.spec_pool() == step.pool
        &&& self.position() == before.position() + step.tokens.len()
    }

    #[verifier::type_invariant]
    spec fn fits(self) -> bool {
        &&& self.layout.wf()
        &&& 0 < self.max_step_tokens <= self.layout.max_context
        &&& layers_fit(self.layout, self.layers@)
        &&& self.position <= self.layout.max_context
    }
}

/// Why a token sequence is refused before anything is staged, if it is.
pub open spec fn token_failure(tokens: Seq<u32>, vocabulary: int) -> Option<Error>
    decreases tokens.len(),
{
    if tokens.len() == 0 {
        None
    } else if let Some(error) = token_failure(tokens.drop_last(), vocabulary) {
        Some(error)
    } else if tokens.last() >= vocabulary {
        Some(
            Error::ExecutionToken {
                token_id: tokens.last(),
                vocabulary: vocabulary as usize,
            },
        )
    } else {
        None
    }
}

proof fn lemma_token_failure_prefix(tokens: Seq<u32>, vocabulary: int, count: int)
    requires
        0 <= count <= tokens.len(),
        token_failure(tokens.take(count), vocabulary) is Some,
    ensures
        token_failure(tokens, vocabulary) == token_failure(tokens.take(count), vocabulary),
    decreases tokens.len(),
{
    if count == tokens.len() {
        assert(tokens.take(count) =~= tokens);
    } else {
        assert(tokens.drop_last().take(count) =~= tokens.take(count));
        lemma_token_failure_prefix(tokens.drop_last(), vocabulary, count);
    }
}

/// Why a number of tokens is refused before anything is staged, if it is: there must
/// be one, and they must fit the step and context bounds.
pub open spec fn bounds_failure(
    layout: Layout,
    max_step_tokens: usize,
    position: usize,
    tokens: int,
) -> Option<Error> {
    if tokens == 0 {
        Some(
            Error::ExecutionContext { requested: 0, rule: "token batches must be non-empty" },
        )
    } else if position + tokens > usize::MAX {
        Some(Error::ArithmeticOverflow { context: "execution position plus token count" })
    } else if tokens > max_step_tokens || position + tokens > layout.max_context {
        Some(
            Error::ExecutionContext {
                requested: (position + tokens) as usize,
                rule: "must not exceed the plan's step or caller-bounded context",
            },
        )
    } else {
        None
    }
}

/// Why a step is refused by a check of all its tokens, if it is: they must fit their
/// bounds and be in the vocabulary.
pub open spec fn step_failure(
    layout: Layout,
    max_step_tokens: usize,
    position: usize,
    tokens: Seq<u32>,
) -> Option<Error> {
    if let Some(error) = bounds_failure(layout, max_step_tokens, position, tokens.len() as int) {
        Some(error)
    } else {
        token_failure(tokens, layout.vocabulary as int)
    }
}

/// Require every token to be in the vocabulary; the first that is not refuses.
pub fn check_tokens(tokens: &[u32], vocabulary: usize) -> (checked: Result<(), Error>)
    ensures
        match checked {
            Ok(_) => token_failure(tokens@, vocabulary as int) is None,
            Err(error) => token_failure(tokens@, vocabulary as int) == Some(error),
        },
{
    let mut i: usize = 0;
    assert(tokens@.take(0) =~= Seq::<u32>::empty());
    while i < tokens.len()
        invariant
            0 <= i <= tokens.len(),
            token_failure(tokens@.take(i as int), vocabulary as int) is None,
        decreases tokens.len() - i,
    {
        proof {
            let longer = tokens@.take(i + 1);
            assert(longer.drop_last() =~= tokens@.take(i as int));
            assert(longer.last() == tokens@[i as int]);
            if token_failure(longer, vocabulary as int) is Some {
                lemma_token_failure_prefix(tokens@, vocabulary as int, i + 1);
            }
        }
        if tokens[i] as usize >= vocabulary {
            return Err(Error::ExecutionToken { token_id: tokens[i], vocabulary });
        }
        i = i + 1;
    }
    assert(tokens@.take(i as int) =~= tokens@);
    Ok(())
}

impl<R, P> Qwen35Execution<R, P> {
    /// Check the number of tokens of a step.
    pub fn validate_bounds(&self, tokens: usize) -> (checked: Result<(), Error>)
        ensures
            match checked {
                Ok(_) => bounds_failure(
                    self.spec_layout(),
                    self.step_bound(),
                    self.position(),
                    tokens as int,
                ) is None,
                Err(error) => bounds_failure(
                    self.spec_layout(),
                    self.step_bound(),
                    self.position(),
                    tokens as int,
                ) == Some(error),
            },
    {
        if tokens == 0 {
            return Err(
                Error::ExecutionContext { requested: 0, rule: "token batches must be non-empty" },
            );
        }
        let requested: usize = match self.position.checked_add(tokens) {
            Some(requested) => requested,
            None => {
                return Err(
                    Error::ArithmeticOverflow { context: "execution position plus token count" },
                );
            },
        };
        if tokens > self.max_step_tokens || requested > self.layout.max_context {
            return Err(
                Error::ExecutionContext {
                    requested,
                    rule: "must not exceed the plan's step or caller-bounded context",
                },
            );
        }
        Ok(())
    }

    /// Check a step before anything is staged: its bounds and all its tokens.
    pub fn validate_step(&self, token_ids: &[u32]) -> (checked: Result<(), Error>)
        ensures
            match checked {
                Ok(_) => step_failure(
                    self.spec_layout(),
                    self.step_bound(),
                    self.position(),
                    token_ids@,
                ) is None,
                Err(error) => step_failure(
                    self.spec_layout(),
                    self.step_bound(),
                    self.position(),
                    token_ids@,
                ) == Some(error),
            },
    {
        self.validate_bounds(token_ids.len())?;
        check_tokens(token_ids, self.layout.vocabulary)
    }

    /// Return the number of published tokens.
    pub fn published_tokens(&self) -> (position: usize)
        ensures
            position == self.position(),
    {
        self.position
    }

    /// Return the caller-bounded context.
    pub fn context_bound(&self) -> (context: usize)
        ensures
            context == self.spec_layout().max_context,
    {
        self.layout.max_context
    }

    /// Borrow the published layer states.
    pub fn layers(&self) -> (layers: &Vec<LayerState<R>>)
        ensures
            layers@ == self.spec_layers(),
            layers_fit(self.spec_layout(), layers@),
            self.spec_layout().wf(),
    {
        proof {
            use_type_invariant(self);
        }
        &self.layers
    }

    /// Borrow the published key-value pool.
    pub fn pool(&self) -> (pool: &Option<P>)
        ensures
            *pool == self.spec_pool(),
    {
        &self.pool
    }

    /// Return the host-capacity receipt of the plan.
    pub fn cpu_requirements(&self) -> (requirements: Qwen35CpuRequirements)
        ensures
            requirements == self.spec_requirements(),
    {
        self.requirements
    }

    /// Stage a step over private copies of the recurrent states and an open
    /// key-value append; the session itself is not touched. A token outside the
    /// vocabulary is refused when its turn comes.
    pub fn stage(
        &self,
        token_ids: &[u32],
        recurrent: Vec<R>,
        append: Option<P>,
    ) -> (staged: Result<StagedExecution<R, P>, Error>)
        ensures
            match staged {
                Ok(staged) => {
                    &&& bounds_failure(
                        self.spec_layout(),
                        self.step_bound(),
                        self.position(),
                        token_ids@.len() as int,
                    ) is None
                    &&& staged.spec_session() == self.spec_session()
                    &&& staged@.layout == self.spec_layout()
                    &&& staged@.selection == self.spec_selection()
                    &&& staged@.tokens == token_ids@
                    &&& layers_fit(self.spec_layout(), staged@.layers)
                    &&& recurrent_states(staged@.layers) == recurrent@
                    &&& staged@.pool == append
                    &&& staged@.start == self.position()
                    &&& staged@.token_index == 0
                    &&& staged@.stage == StepStage::Embed
                    &&& staged@.logits.len() == 0
                    &&& staged@.fits()
                },
                Err(error) => {
                    let failure = bounds_failure(
                        self.spec_layout(),
                        self.step_bound(),
                        self.position(),
                        token_ids@.len() as int,
                    );
                    let logits = self.spec_selection().rows(token_ids@.len() as int)
                        * self.spec_layout().vocabulary;
                    if failure is Some {
                        failure == Some(error)
                    } else if recurrent@.len() != self.spec_layout().main_blocks
                        - self.spec_layout().full_layers() {
                        error == (Error::ExecutionContext {
                            requested: recurrent@.len() as usize,
                            rule: "main-block state must exist for every artifact main block",
                        })
                    } else {
                        ||| {
                            &&& logits > usize::MAX
                            &&& error == (Error::ArithmeticOverflow {
                                context: "returned logits allocation",
                            })
                        }
                        ||| {
                            &&& self.spec_layout().main_blocks > 0
                            &&& error.execution_allocation(
                                "transaction main-block slots",
                                self.spec_layout().main_blocks,
                            )
                        }
                        ||| {
                            &&& 0 < logits <= usize::MAX
                            &&& error.execution_allocation("token logits", logits as usize)
                        }
                    }
                },
            },
    {
        proof {
            use_type_invariant(self);
        }
        self.validate_bounds(token_ids.len())?;
        let layout = self.layout;
        let recurrent_count: usize = layout.recurrent_layer_count()?;
        if recurrent.len() != recurrent_count {
            return Err(
                Error::ExecutionContext {
                    requested: recurrent.len(),
                    rule: "main-block state must exist for every artifact main block",
                },
            );
        }
        let storage: Vec<LayerState<R>> = reserve(
            "transaction main-block slots",
            layout.main_blocks,
        )?;
        let total: usize = returned_logits_elements(layout, token_ids.len(), self.selection)?;
        let logits: Vec<u32> = reserve("token logits", total)?;
        let layers = arrange_layers(layout, recurrent, storage);
        let mut tokens: Vec<u32> = Vec::new();
        extend_window(&mut tokens, token_ids, 0, token_ids.len());
        assert(tokens@ =~= token_ids@);
        assert(0 * layout.vocabulary == 0) by (nonlinear_arith);
        Ok(
            StagedExecution {
                session: self.session,
                layout,
                selection: self.selection,
                tokens,
                layers,
                pool: append,
                start: self.position,
                token_index: 0,
                stage: StepStage::Embed,
                hidden: Vec::new(),
                logits,
            },
        )
    }

    /// Publish a staged step, or discard a failed one.
    ///
    /// A failed step leaves the session as it was. A completed one replaces the
    /// layer states and the pool, advances the position by its tokens, and hands
    /// out its logits.
    pub fn step(&mut self, staged: Result<StagedExecution<R, P>, Error>) -> (logits: Result<
        Vec<u32>,
        Error,
    >)
        ensures
            match logits {
                Ok(logits) => staged matches Ok(step) && {
                    &&& step.publishes_to(*old(self))
                    &&& logits@ == step@.logits
                    &&& final(self).published_from(*old(self), step@)
                },
                Err(error) => {
                    &&& *final(self) == *old(self)
                    &&& match staged {
                        Err(failure) => error == failure,
                        Ok(step) => {
                            &&& !step.publishes_to(*old(self))
                            &&& error == (Error::ExecutionContext {
                                requested: (step@.start + step@.token_index) as usize,
                                rule:
                                    "paged KV transaction rows must match token-serial full-attention state",
                            })
                        },
                    }
                },
            },
    {
        let staged = staged?;
        proof {
            use_type_invariant(&staged);
            use_type_invariant(&*self);
        }
        if !staged.can_publish(self) {
            return Err(
                Error::ExecutionContext {
                    requested: staged.start + staged.token_index,
                    rule: "paged KV transaction rows must match token-serial full-attention state",
                },
            );
        }
        Ok(self.publish(staged))
    }

    /// Publish a completed step: infallible and free of allocation.
    pub fn publish(&mut self, staged: StagedExecution<R, P>) -> (logits: Vec<u32>)
        requires
            staged.publishes_to(*old(self)),
        ensures
            logits@ == staged@.logits,
            final(self).published_from(*old(self), staged@),
    {
        proof {
            use_type_invariant(&staged);
            use_type_invariant(&*self);
        }
        let position: usize = staged.start + staged.token_index;
        let StagedExecution { layers, pool, logits, .. } = staged;
        self.layers = layers;
        self.pool = pool;
        self.position = position;
        logits
    }
}

/// Where in a token's pass a staged step stands.
#[derive(Clone, Copy, Debug, PartialEq, Eq, Structural)]
pub enum StepStage {
    /// The token is to be embedded.
    Embed,
    /// A main block is to run.
    Block(usize),
    /// The final normalization and the vocabulary projection are to run.
    Head,
}

/// One full-attention call of a staged step.
#[derive(Clone, Copy, Debug, PartialEq, Eq, Structural)]
pub struct FullAttentionStep {
    pub position: usize,
    pub block: usize,
    pub full_layer: usize,
    pub append_token: usize,
}

/// What a staged step needs next.
#[derive(Clone, Copy, Debug, PartialEq, Eq, Structural)]
pub enum StepAction {
    /// Decode the embedding row of a token.
    Embed { token: usize },
    /// Run a recurrent block and finish its layer.
    Recurrent { block: usize },
    /// Run a full-attention block and finish its layer.
    FullAttention(FullAttentionStep),
    /// Normalize, and project to the vocabulary where the row is retained.
    Head { retain: bool },
    /// Nothing: every token is complete.
    Complete,
}

/// A step in progress over private copies of a session's state.
#[derive(Debug)]
pub struct StagedExecution<R, P> {
    session: u64,
    layout: Layout,
    selection: Qwen35LogitSelection,
    tokens: Vec<u32>,
    layers: Vec<LayerState<R>>,
    pool: Option<P>,
    start: usize,
    token_index: usize,
    stage: StepStage,
    hidden: Vec<u32>,
    logits: Vec<u32>,
}

/// The contents of a staged step.
pub struct StepModel<R, P> {
    pub layout: Layout,
    pub selection: Qwen35LogitSelection,
    pub tokens: Seq<u32>,
    pub layers: Seq<LayerState<R>>,
    pub pool: Option<P>,
    pub start: int,
    pub token_index: int,
    pub stage: StepStage,
    pub hidden: Seq<u32>,
    pub logits: Seq<u32>,
}

impl<R, P> StepModel<R, P> {
    /// The number of logit rows collected so far.
    pub open spec fn collected_rows(self) -> int {
        match self.selection {
            Qwen35LogitSelection::AllTokens => self.token_index,
            Qwen35LogitSelection::LastToken => if self.token_index == self.tokens.len() {
                1
            } else {
                0
            },
        }
    }

    /// What every staged step keeps: it stays inside the context bound, its layers
    /// fit the model, its embedded tokens are in the vocabulary, and it has exactly
    /// the logit rows of its completed tokens.
    pub open spec fn fits(self) -> bool {
        &&& self.layout.wf()
        &&& layers_fit(self.layout, self.layers)
        &&& self.tokens.len() > 0
        &&& 0 <= self.start
        &&& self.start + self.tokens.len() <= self.layout.max_context
        &&& 0 <= self.token_index <= self.tokens.len()
        &&& self.token_index == self.tokens.len() ==> self.stage == StepStage::Embed
        &&& forall|i: int|
            0 <= i < self.token_index ==> #[trigger] self.tokens[i] < self.layout.vocabulary
        &&& self.stage != StepStage::Embed ==> self.tokens[self.token_index]
            < self.layout.vocabulary
        &&& self.stage matches StepStage::Block(block) ==> block < self.layout.main_blocks
        &&& self.hidden.len() == (if self.stage == StepStage::Embed {
            0
        } else {
            self.layout.hidden as int
        })
        &&& self.logits.len() == self.collected_rows() * self.layout.vocabulary
    }

    /// Whether every token is complete.
    pub open spec fn complete(self) -> bool {
        self.token_index == self.tokens.len()
    }

    /// What the step needs next.
    pub open spec fn action(self) -> StepAction {
        if self.complete() {
            StepAction::Complete
        } else {
            match self.stage {
                StepStage::Embed => StepAction::Embed {
                    token: self.tokens[self.token_index] as usize,
                },
                StepStage::Block(block) => match self.layers[block as int] {
                    LayerState::Recurrent(_) => StepAction::Recurrent { block },
                    LayerState::Full(full_layer) => StepAction::FullAttention(
                        FullAttentionStep {
                            position: (self.start + self.token_index) as usize,
                            block,
                            full_layer,
                            append_token: self.token_index as usize,
                        },
                    ),
                },
                StepStage::Head => StepAction::Head {
                    retain: self.selection.retains(self.token_index, self.tokens.len() as int),
                },
            }
        }
    }

    /// Why the current token is refused, if it is: it is outside the vocabulary.
    pub open spec fn token_refusal(self) -> Option<Error> {
        let token_id = self.tokens[self.token_index];
        if token_id >= self.layout.vocabulary {
            Some(Error::ExecutionToken { token_id, vocabulary: self.layout.vocabulary })
        } else {
            None
        }
    }

    /// How many stages of the step are complete: each token is embedded, passes every
    /// main block, and is finished.
    pub open spec fn progress(self) -> int {
        self.token_index * (self.layout.main_blocks + 2) + match self.stage {
            StepStage::Embed => 0,
            StepStage::Block(block) => 1 + block,
            StepStage::Head => 1 + self.layout.main_blocks,
        }
    }

    /// The stage after block `block`.
    pub open spec fn stage_after(self, block: int) -> StepStage {
        if block + 1 < self.layout.main_blocks {
            StepStage::Block((block + 1) as usize)
        } else {
            StepStage::Head
        }
    }
}

impl<R, P> View for StagedExecution<R, P> {
    type V = StepModel<R, P>;

    closed spec fn view(&self) -> StepModel<R, P> {
        StepModel {
            layout: self.layout,
            selection: self.selection,
            tokens: self.tokens@,
            layers: self.layers@,
            pool: self.pool,
            start: self.start as int,
            token_index: self.token_index as int,
            stage: self.stage,
            hidden: self.hidden@,
            logits: self.logits@,
        }
    }
}

/// A step passes its tokens one after the other, and each token passes every main
/// block once and in order: whatever stage completes, the next one follows, and a
/// complete step has passed all of them.
pub proof fn lemma_stages_in_order<R, P>(step: StepModel<R, P>)
    requires
        step.fits(),
    ensures
        step.stage == StepStage::Embed && !step.complete() ==> (StepModel {
            stage: step.stage_after(-1),
            ..step
        }).progress() == step.progress() + 1,
        step.stage matches StepStage::Block(block) ==> (StepModel {
            stage: step.stage_after(block as int),
            ..step
        }).progress() == step.progress() + 1,
        step.stage == StepStage::Head ==> step.next_token(seq![]).progress() == step.progress() + 1,
        step.complete() ==> step.progress() == step.tokens.len() * (step.layout.main_blocks + 2),
{
    let width = step.layout.main_blocks + 2;
    assert((step.token_index + 1) * width == step.token_index * width + width)
        by (nonlinear_arith);
}

impl<R, P> StepModel<R, P> {
    /// The number of logit rows that the first tokens of the step contribute.
    pub open spec fn rows_before(self, count: int) -> int {
        match self.selection {
            Qwen35LogitSelection::AllTokens => count,
            Qwen35LogitSelection::LastToken => 0,
        }
    }

    /// The step within the same token, with another state.
    pub open spec fn with_state(
        self,
        hidden: Seq<u32>,
        stage: StepStage,
        layers: Seq<LayerState<R>>,
        pool: Option<P>,
    ) -> StepModel<R, P> {
        StepModel { hidden, stage, layers, pool, ..self }
    }

    /// The step at its next token, with the logit row that the last one left.
    pub open spec fn next_token(self, row: Seq<u32>) -> StepModel<R, P> {
        StepModel {
            token_index: self.token_index + 1,
            stage: StepStage::Embed,
            hidden: seq![],
            logits: self.logits + row,
            ..self
        }
    }

    /// The step over its first tokens alone.
    pub open spec fn front(self, count: int) -> StepModel<R, P> {
        StepModel { tokens: self.tokens.take(count), ..self }
    }

    /// What is left of the step once its first tokens are a step of their own.
    pub open spec fn tail(self, count: int) -> StepModel<R, P> {
        StepModel {
            tokens: self.tokens.skip(count),
            start: self.start + count,
            token_index: self.token_index - count,
            logits: self.logits.skip(self.rows_before(count) * self.layout.vocabulary),
            ..self
        }
    }
}

/// An action of a step as a later step has it: a row goes to another place of its
/// append, and nothing else changes.
pub open spec fn action_in_tail(action: StepAction, count: int) -> StepAction {
    match action {
        StepAction::FullAttention(step) => StepAction::FullAttention(
            FullAttentionStep { append_token: (step.append_token - count) as usize, ..step },
        ),
        _ => action,
    }
}

/// Tokens are served one after the other, whatever their chunks: once the first
/// tokens of a step are complete, the step goes on exactly as a later step over the
/// other tokens would, with the same actions at the same positions, and ends with
/// the same state at the same position and the same logit rows.
pub proof fn lemma_chunks_are_serial<R, P>(step: StepModel<R, P>, count: int)
    requires
        step.fits(),
        0 <= count <= step.token_index,
        count < step.tokens.len(),
    ensures
        step.tail(count).fits(),
        step.tail(count).action() == action_in_tail(step.action(), count),
        step.tail(count).complete() == step.complete(),
        step.tail(count).start + step.tail(count).token_index == step.start + step.token_index,
        forall|hidden: Seq<u32>, stage: StepStage, layers: Seq<LayerState<R>>, pool: Option<P>|
            #[trigger] step.with_state(hidden, stage, layers, pool).tail(count) == step.tail(
                count,
            ).with_state(hidden, stage, layers, pool),
        forall|row: Seq<u32>|
            !step.complete() ==> #[trigger] step.next_token(row).tail(count) == step.tail(
                count,
            ).next_token(row),
{
    let vocabulary = step.layout.vocabulary as int;
    let rows = step.rows_before(count);
    let tail = step.tail(count);
    assert(0 <= rows * vocabulary <= step.collected_rows() * vocabulary) by (nonlinear_arith)
        requires
            0 <= rows <= step.collected_rows(),
            0 <= vocabulary,
    ;
    assert((step.collected_rows() - rows) * vocabulary == step.collected_rows() * vocabulary
        - rows * vocabulary) by (nonlinear_arith);
    assert(tail.collected_rows() == step.collected_rows() - rows);
    assert forall|i: int| 0 <= i < tail.token_index implies #[trigger] tail.tokens[i]
        < tail.layout.vocabulary by {
        assert(tail.tokens[i] == step.tokens[i + count]);
    }
    if !step.complete() {
        assert(tail.tokens[tail.token_index] == step.tokens[step.token_index]);
    }
    assert forall|row: Seq<u32>| !step.complete() implies #[trigger] step.next_token(row).tail(
        count,
    ) == tail.next_token(row) by {
        assert((step.logits + row).skip(rows * vocabulary) =~= step.logits.skip(rows * vocabulary)
            + row);
    }
}

/// The first tokens of a step are served as a step over those tokens alone serves
/// them, with the same actions at the same positions; only which head row is
/// retained depends on the tokens that follow, and only for the last row.
pub proof fn lemma_first_chunk_is_serial<R, P>(step: StepModel<R, P>, count: int)
    requires
        step.fits(),
        step.token_index < count <= step.tokens.len(),
    ensures
        step.front(count).fits(),
        !step.front(count).complete(),
        step.action() is Head ==> step.front(count).action() is Head,
        step.action() !is Head || step.selection is AllTokens ==> step.front(count).action()
            == step.action(),
        forall|hidden: Seq<u32>, stage: StepStage, layers: Seq<LayerState<R>>, pool: Option<P>|
            #[trigger] step.with_state(hidden, stage, layers, pool).front(count) == step.front(
                count,
            ).with_state(hidden, stage, layers, pool),
        forall|row: Seq<u32>|
            #[trigger] step.next_token(row).front(count) == step.front(count).next_token(row),
{
    let front = step.front(count);
    assert forall|i: int| 0 <= i < front.token_index implies #[trigger] front.tokens[i]
        < front.layout.vocabulary by {
        assert(front.tokens[i] == step.tokens[i]);
    }
    assert(front.tokens[front.token_index] == step.tokens[step.token_index]);
}

/// A completed step has exactly the logit rows that its selection retains, and
/// has advanced by all its tokens.
pub proof fn lemma_complete_step<R, P>(step: StepModel<R, P>)
    requires
        step.fits(),
        step.complete(),
    ensures
        step.logits.len() == step.selection.rows(step.tokens.len() as int)
            * step.layout.vocabulary,
        step.start + step.token_index == step.start + step.tokens.len() <= step.layout.max_context,
{
}

impl<R, P> StagedExecution<R, P> {
    #[verifier::type_invariant]
    spec fn sound(self) -> bool {
        self@.fits()
    }

    /// The session that the step was staged from.
    pub closed spec fn spec_session(self) -> u64 {
        self.session
    }

    /// Whether this step may be published to a session: it is complete, it was staged
    /// from the session at its position, and it has the session's layout and selection.
    pub open spec fn publishes_to(self, execution: Qwen35Execution<R, P>) -> bool {
        &&& self@.complete()
        &&& self.spec_session() == execution.spec_session()
        &&& self@.start == execution.position()
        &&& self@.layout == execution.spec_layout()
        &&& self@.selection == execution.spec_selection()
    }

    /// Report whether this step may be published to a session.
    pub fn can_publish(&self, execution: &Qwen35Execution<R, P>) -> (can: bool)
        ensures
            can == self.publishes_to(*execution),
    {
        proof {
            use_type_invariant(self);
            use_type_invariant(execution);
        }
        self.token_index == self.tokens.len() && self.session == execution.session && self.start
            == execution.position && self.layout.same(execution.layout) && self.selection
            == execution.selection
    }

    /// Report whether this is a step over a list of tokens.
    pub fn serves(&self, tokens: &[u32]) -> (serves: bool)
        ensures
            serves == (self@.tokens == tokens@),
    {
        if self.tokens.len() != tokens.len() {
            return false;
        }
        let mut i: usize = 0;
        while i < tokens.len()
            invariant
                0 <= i <= tokens@.len(),
                self@.tokens.len() == tokens@.len(),
                forall|j: int| 0 <= j < i ==> self@.tokens[j] == tokens@[j],
            decreases tokens@.len() - i,
        {
            if self.tokens[i] != tokens[i] {
                return false;
            }
            i = i + 1;
        }
        assert(self@.tokens =~= tokens@);
        true
    }

    /// Return what the step needs next.
    pub fn next_action(&self) -> (action: StepAction)
        ensures
            action == self@.action(),
            self@.fits(),
    {
        proof {
            use_type_invariant(self);
        }
        if self.token_index == self.tokens.len() {
            return StepAction::Complete;
        }
        match self.stage {
            StepStage::Embed => StepAction::Embed { token: self.tokens[self.token_index] as usize },
            StepStage::Block(block) => match &self.layers[block] {
                LayerState::Recurrent(_) => StepAction::Recurrent { block },
                LayerState::Full(full_layer) => StepAction::FullAttention(
                    FullAttentionStep {
                        position: self.start + self.token_index,
                        block,
                        full_layer: *full_layer,
                        append_token: self.token_index,
                    },
                ),
            },
            StepStage::Head => StepAction::Head {
                retain: match self.selection {
                    Qwen35LogitSelection::AllTokens => true,
                    Qwen35LogitSelection::LastToken => self.token_index + 1 == self.tokens.len(),
                },
            },
        }
    }

    /// Borrow the bit patterns of the current hidden row.
    pub fn hidden(&self) -> (hidden: &Vec<u32>)
        ensures
            hidden@ == self@.hidden,
    {
        &self.hidden
    }

    /// Borrow the state of a recurrent block.
    pub fn recurrent_state(&self, block: usize) -> (state: Option<&R>)
        ensures
            match state {
                Some(state) => {
                    &&& block < self@.layers.len()
                    &&& self@.layers[block as int] == LayerState::Recurrent(*state)
                },
                None => block >= self@.layers.len() || self@.layers[block as int] is Full,
            },
    {
        if block >= self.layers.len() {
            return None;
        }
        match &self.layers[block] {
            LayerState::Recurrent(state) => Some(state),
            LayerState::Full(_) => None,
        }
    }

    /// Borrow the open key-value append of the current full-attention block.
    pub fn append(&self) -> (pool: Result<&P, Error>)
        requires
            self@.action() is FullAttention,
        ensures
            match pool {
                Ok(pool) => self@.pool == Some(*pool),
                Err(error) => {
                    &&& self@.pool is None
                    &&& error == (Error::ExecutionContext {
                        requested: self@.stage->Block_0,
                        rule: "full-attention execution must own a paged KV transaction",
                    })
                },
            },
    {
        match &self.pool {
            Some(pool) => Ok(pool),
            None => Err(
                Error::ExecutionContext {
                    requested: match self.stage {
                        StepStage::Block(block) => block,
                        _ => 0,
                    },
                    rule: "full-attention execution must own a paged KV transaction",
                },
            ),
        }
    }

    /// Require the current token to be in the vocabulary, and return its embedding row.
    pub fn embedding_row(&self) -> (row: Result<usize, Error>)
        requires
            self@.action() is Embed,
        ensures
            match row {
                Ok(row) => row == self@.action()->Embed_token && row < self@.layout.vocabulary,
                Err(error) => self@.token_refusal() == Some(error),
            },
            row is Ok <==> self@.token_refusal() is None,
    {
        proof {
            use_type_invariant(self);
        }
        let token_id: u32 = self.tokens[self.token_index];
        if token_id as usize >= self.layout.vocabulary {
            return Err(
                Error::ExecutionToken { token_id, vocabulary: self.layout.vocabulary },
            );
        }
        Ok(token_id as usize)
    }

    /// Take the embedding row of the current token.
    pub fn complete_embed(self, row: Vec<u32>) -> (staged: Result<StagedExecution<R, P>, Error>)
        requires
            self@.action() is Embed,
        ensures
            match staged {
                Ok(staged) => {
                    &&& self@.token_refusal() is None
                    &&& row@.len() == self@.layout.hidden
                    &&& qwen35_execution::all_finite(row@)
                    &&& staged.spec_session() == self.spec_session()
                    &&& staged@ == (StepModel {
                        hidden: row@,
                        stage: self@.stage_after(-1),
                        ..self@
                    })
                },
                Err(error) => if let Some(refusal) = self@.token_refusal() {
                    error == refusal
                } else if row@.len() != self@.layout.hidden {
                    error == (Error::ExecutionContext {
                        requested: row@.len() as usize,
                        rule: "token embedding row must match artifact-derived hidden width",
                    })
                } else {
                    error matches Error::ExecutionArithmetic { stage, index } && stage
                        == "token embedding" && qwen35_execution::first_nonfinite(
                        row@,
                        index as int,
                    )
                },
            },
    {
        proof {
            use_type_invariant(&self);
        }
        self.embedding_row()?;
        if row.len() != self.layout.hidden {
            return Err(
                Error::ExecutionContext {
                    requested: row.len(),
                    rule: "token embedding row must match artifact-derived hidden width",
                },
            );
        }
        finite(&row, "token embedding")?;
        let stage = if 0 < self.layout.main_blocks {
            StepStage::Block(0)
        } else {
            StepStage::Head
        };
        Ok(
            StagedExecution {
                session: self.session,
                layout: self.layout,
                selection: self.selection,
                tokens: self.tokens,
                layers: self.layers,
                pool: self.pool,
                start: self.start,
                token_index: self.token_index,
                stage,
                hidden: row,
                logits: self.logits,
            },
        )
    }

    /// Take the result of the current recurrent block: its next state and the
    /// finished hidden row.
    pub fn complete_recurrent(self, state: R, hidden: Vec<u32>) -> (staged: Result<
        StagedExecution<R, P>,
        Error,
    >)
        requires
            self@.action() is Recurrent,
        ensures
            match staged {
                Ok(staged) => {
                    let block = self@.stage->Block_0;
                    &&& finished_row_admitted(self@.layout, hidden@)
                    &&& staged.spec_session() == self.spec_session()
                    &&& staged@ == (StepModel {
                        hidden: hidden@,
                        stage: self@.stage_after(block as int),
                        layers: self@.layers.update(block as int, LayerState::Recurrent(state)),
                        ..self@
                    })
                },
                Err(error) => finished_row_refused(self@.layout, hidden@, error),
            },
    {
        proof {
            use_type_invariant(&self);
        }
        check_finished_row(self.layout, &hidden)?;
        let block: usize = match self.stage {
            StepStage::Block(block) => block,
            _ => 0,
        };
        let stage = next_stage(self.layout, block);
        let ghost before = self.layers@;
        let mut layers: Vec<LayerState<R>> = self.layers;
        layers.set(block, LayerState::Recurrent(state));
        assert(layers_fit(self.layout, layers@)) by {
            assert forall|b: int| 0 <= b < layers@.len() implies layer_kind_fits(
                self.layout,
                b,
                #[trigger] layers@[b],
            ) by {
                assert(layer_kind_fits(self.layout, b, before[b]));
            }
        }
        Ok(
            StagedExecution {
                session: self.session,
                layout: self.layout,
                selection: self.selection,
                tokens: self.tokens,
                layers,
                pool: self.pool,
                start: self.start,
                token_index: self.token_index,
                stage,
                hidden,
                logits: self.logits,
            },
        )
    }

    /// Take the result of the current full-attention block: the pool with the
    /// block's appended row and the finished hidden row.
    pub fn complete_full_attention(self, pool: P, hidden: Vec<u32>) -> (staged: Result<
        StagedExecution<R, P>,
        Error,
    >)
        requires
            self@.action() is FullAttention,
        ensures
            match staged {
                Ok(staged) => {
                    let block = self@.stage->Block_0;
                    &&& finished_row_admitted(self@.layout, hidden@)
                    &&& staged.spec_session() == self.spec_session()
                    &&& staged@ == (StepModel {
                        hidden: hidden@,
                        stage: self@.stage_after(block as int),
                        pool: Some(pool),
                        ..self@
                    })
                },
                Err(error) => finished_row_refused(self@.layout, hidden@, error),
            },
    {
        proof {
            use_type_invariant(&self);
        }
        check_finished_row(self.layout, &hidden)?;
        let block: usize = match self.stage {
            StepStage::Block(block) => block,
            _ => 0,
        };
        let stage = next_stage(self.layout, block);
        Ok(
            StagedExecution {
                session: self.session,
                layout: self.layout,
                selection: self.selection,
                tokens: self.tokens,
                layers: self.layers,
                pool: Some(pool),
                start: self.start,
                token_index: self.token_index,
                stage,
                hidden,
                logits: self.logits,
            },
        )
    }

    /// Finish the current token without a retained logit row. Its hidden row is
    /// normalized all the same.
    pub fn complete_token(self, normalized: usize) -> (staged: Result<
        StagedExecution<R, P>,
        Error,
    >)
        requires
            self@.action() == (StepAction::Head { retain: false }),
        ensures
            match staged {
                Ok(staged) => {
                    &&& normalized == self@.layout.hidden
                    &&& staged.spec_session() == self.spec_session()
                    &&& staged@ == self@.next_token(seq![])
                },
                Err(error) => normalized != self@.layout.hidden && error == head_error(
                    self@.layout,
                    normalized,
                ),
            },
    {
        proof {
            use_type_invariant(&self);
        }
        ensure_execution_plan("LM-head normalized hidden", normalized, self.layout.hidden)?;
        assert(self.logits@ + Seq::<u32>::empty() =~= self.logits@);
        Ok(
            StagedExecution {
                session: self.session,
                layout: self.layout,
                selection: self.selection,
                tokens: self.tokens,
                layers: self.layers,
                pool: self.pool,
                start: self.start,
                token_index: self.token_index + 1,
                stage: StepStage::Embed,
                hidden: Vec::new(),
                logits: self.logits,
            },
        )
    }

    /// Finish the current token with its retained logit row.
    pub fn complete_head(self, normalized: usize, row: Vec<u32>) -> (staged: Result<
        StagedExecution<R, P>,
        Error,
    >)
        requires
            self@.action() == (StepAction::Head { retain: true }),
        ensures
            match staged {
                Ok(staged) => {
                    &&& normalized == self@.layout.hidden
                    &&& row@.len() == self@.layout.vocabulary
                    &&& staged.spec_session() == self.spec_session()
                    &&& staged@ == self@.next_token(row@)
                },
                Err(error) => if normalized != self@.layout.hidden {
                    error == head_error(self@.layout, normalized)
                } else {
                    &&& row@.len() != self@.layout.vocabulary
                    &&& error == (Error::ExecutionAllocationPlan {
                        target: "matrix projection",
                        planned: self@.layout.vocabulary,
                        derived: row@.len() as usize,
                    })
                },
            },
    {
        proof {
            use_type_invariant(&self);
        }
        ensure_execution_plan("LM-head normalized hidden", normalized, self.layout.hidden)?;
        ensure_execution_plan("matrix projection", row.len(), self.layout.vocabulary)?;
        let ghost before = self.logits@;
        let ghost rows = self@.collected_rows();
        let mut logits: Vec<u32> = self.logits;
        extend_window(&mut logits, &row, 0, row.len());
        assert(logits@ =~= before + row@);
        assert((rows + 1) * self.layout.vocabulary == rows * self.layout.vocabulary
            + self.layout.vocabulary) by (nonlinear_arith);
        let staged = StagedExecution {
            session: self.session,
            layout: self.layout,
            selection: self.selection,
            tokens: self.tokens,
            layers: self.layers,
            pool: self.pool,
            start: self.start,
            token_index: self.token_index + 1,
            stage: StepStage::Embed,
            hidden: Vec::new(),
            logits,
        };
        Ok(staged)
    }
}

/// The error of a normalized hidden row of another width.
pub open spec fn head_error(layout: Layout, normalized: usize) -> Error {
    Error::ExecutionAllocationPlan {
        target: "LM-head normalized hidden",
        planned: layout.hidden,
        derived: normalized,
    }
}

/// Whether a finished hidden row is admitted: it is as wide as the model and finite.
pub open spec fn finished_row_admitted(layout: Layout, row: Seq<u32>) -> bool {
    row.len() == layout.hidden && qwen35_execution::all_finite(row)
}

/// Whether a finished hidden row is refused with an error.
pub open spec fn finished_row_refused(layout: Layout, row: Seq<u32>, error: Error) -> bool {
    if row.len() != layout.hidden {
        error == (Error::ExecutionContext {
            requested: row.len() as usize,
            rule: "residual operands must have the same hidden width",
        })
    } else {
        error matches Error::ExecutionArithmetic { stage, index } && stage == "FFN residual"
            && qwen35_execution::first_nonfinite(row, index as int)
    }
}

fn check_finished_row(layout: Layout, row: &Vec<u32>) -> (checked: Result<(), Error>)
    ensures
        match checked {
            Ok(_) => finished_row_admitted(layout, row@),
            Err(error) => finished_row_refused(layout, row@, error),
        },
{
    if row.len() != layout.hidden {
        return Err(
            Error::ExecutionContext {
                requested: row.len(),
                rule: "residual operands must have the same hidden width",
            },
        );
    }
    finite(row, "FFN residual")
}

fn next_stage(layout: Layout, block: usize) -> (stage: StepStage)
    requires
        block < layout.main_blocks,
    ensures
        stage == (if block + 1 < layout.main_blocks {
            StepStage::Block((block + 1) as usize)
        } else {
            StepStage::Head
        }),
{
    if block + 1 < layout.main_blocks {
        StepStage::Block(block + 1)
    } else {
        StepStage::Head
    }
}

} // verus!
