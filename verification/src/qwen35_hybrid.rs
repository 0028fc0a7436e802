//! Hybrid sessions over one verified artifact: every recurrent block starts from its
//! own parameters, and every step works on private copies.

use crate::error::Error;
use crate::gguf::VerifiedArtifact;
use crate::qwen35::{Qwen35RecurrentLayout, Qwen35StructuralProfile};
use crate::qwen35_execution::{Layout, Qwen35LogitSelection};
use crate::qwen35_inventory;
use crate::qwen35_recurrent;
use crate::qwen35_recurrent::Qwen35RecurrentExecution;
use crate::qwen35_requirements::KernelExtents;
use crate::qwen35_session;
use crate::qwen35_session::{
    LayerState, Qwen35Execution, Qwen35ExecutionPlan, StagedExecution, StepStage,
};
use vstd::prelude::*;

verus! {

/// A session whose recurrent states are those of verified blocks.
pub type HybridExecution<P> = Qwen35Execution<Qwen35RecurrentExecution, P>;

/// The place of a recurrent block among the recurrent blocks.
pub open spec fn recurrent_index(layout: Layout, block: int) -> int {
    block - block / (layout.full_interval as int)
}

/// The recurrent states of fitting layers stand in the order of their blocks.
pub proof fn lemma_recurrent_place<R>(layout: Layout, layers: Seq<LayerState<R>>, block: int)
    requires
        layout.full_interval > 0,
        forall|b: int|
            0 <= b < layers.len() ==> qwen35_session::layer_kind_fits(
                layout,
                b,
                #[trigger] layers[b],
            ),
        0 <= block < layers.len(),
        !layout.full(block),
    ensures
        0 <= recurrent_index(layout, block) < qwen35_session::recurrent_states(layers).len(),
        layers[block] == LayerState::Recurrent(
            qwen35_session::recurrent_states(layers)[recurrent_index(layout, block)],
        ),
    decreases layers.len(),
{
    let init = layers.drop_last();
    let last = layers.len() - 1;
    lemma_recurrent_count(layout, layers);
    lemma_recurrent_count(layout, init);
    assert forall|b: int| 0 <= b < init.len() implies qwen35_session::layer_kind_fits(
        layout,
        b,
        #[trigger] init[b],
    ) by {
        assert(init[b] == layers[b]);
    }
    assert(qwen35_session::layer_kind_fits(layout, last, layers[last]));
    if block < last {
        lemma_recurrent_place(layout, init, block);
        assert(init[block] == layers[block]);
    } else {
        assert(layers[block] is Recurrent);
    }
}

proof fn lemma_recurrent_count<R>(layout: Layout, layers: Seq<LayerState<R>>)
    requires
        layout.full_interval > 0,
        forall|b: int|
            0 <= b < layers.len() ==> qwen35_session::layer_kind_fits(
                layout,
                b,
                #[trigger] layers[b],
            ),
    ensures
        qwen35_session::recurrent_states(layers).len() == recurrent_index(
            layout,
            layers.len() as int,
        ),
    decreases layers.len(),
{
    let interval = layout.full_interval as int;
    if layers.len() == 0 {
        assert(0int / interval == 0) by (nonlinear_arith)
            requires
                interval > 0,
        ;
    } else {
        let init = layers.drop_last();
        let last = layers.len() - 1;
        assert forall|b: int| 0 <= b < init.len() implies qwen35_session::layer_kind_fits(
            layout,
            b,
            #[trigger] init[b],
        ) by {
            assert(init[b] == layers[b]);
        }
        lemma_recurrent_count(layout, init);
        assert(qwen35_session::layer_kind_fits(layout, last, layers[last]));
        qwen35_inventory::lemma_next_quotient(last, interval);
    }
}

/// Whether states are those of the recurrent blocks below a block at their start.
pub open spec fn states_constructed(
    artifact: VerifiedArtifact,
    recurrent: Qwen35RecurrentLayout,
    layout: Layout,
    states: Seq<Qwen35RecurrentExecution>,
    blocks: int,
) -> bool {
    &&& states.len() == recurrent_index(layout, blocks)
    &&& forall|block: int|
        #![trigger layout.full(block)]
        0 <= block < blocks && !layout.full(block) ==> qwen35_recurrent::constructed(
            artifact,
            recurrent,
            block as u64,
            states[recurrent_index(layout, block)],
        )
}

/// Whether a block is the first recurrent block that is refused, with an error.
pub open spec fn first_block_refused(
    artifact: VerifiedArtifact,
    recurrent: Qwen35RecurrentLayout,
    layout: Layout,
    block: int,
    error: Error,
) -> bool {
    &&& 0 <= block < layout.main_blocks
    &&& !layout.full(block)
    &&& qwen35_recurrent::construction_refused(artifact, recurrent, block as u64, error)
    &&& forall|earlier: int|
        0 <= earlier < block && !(#[trigger] layout.full(earlier)) ==> block_constructible(
            artifact,
            recurrent,
            earlier,
        )
}

/// Whether a recurrent block can be constructed.
pub open spec fn block_constructible(
    artifact: VerifiedArtifact,
    recurrent: Qwen35RecurrentLayout,
    block: int,
) -> bool {
    exists|execution: Qwen35RecurrentExecution| #[trigger]
        qwen35_recurrent::constructed(artifact, recurrent, block as u64, execution)
}

/// Whether every recurrent block of a model can be constructed.
pub open spec fn all_constructible(
    artifact: VerifiedArtifact,
    recurrent: Qwen35RecurrentLayout,
    layout: Layout,
) -> bool {
    forall|block: int|
        0 <= block < layout.main_blocks && !(#[trigger] layout.full(block)) ==> block_constructible(
            artifact,
            recurrent,
            block,
        )
}

/// Construct the states of every recurrent block of a model, in block order.
pub fn recurrent_executions(
    artifact: &VerifiedArtifact,
    recurrent: Qwen35RecurrentLayout,
    layout: Layout,
) -> (states: Result<Vec<Qwen35RecurrentExecution>, Error>)
    requires
        layout.full_interval > 0,
    ensures
        match states {
            Ok(states) => {
                &&& states_constructed(
                    *artifact,
                    recurrent,
                    layout,
                    states@,
                    layout.main_blocks as int,
                )
                &&& all_constructible(*artifact, recurrent, layout)
            },
            Err(error) => exists|block: int| #[trigger]
                first_block_refused(*artifact, recurrent, layout, block, error),
        },
{
    let mut states: Vec<Qwen35RecurrentExecution> = Vec::new();
    let ghost interval = layout.full_interval as int;
    let mut block: usize = 0;
    proof {
        assert(0int / interval == 0) by (nonlinear_arith)
            requires
                interval > 0,
        ;
    }
    while block < layout.main_blocks
        invariant
            layout.full_interval > 0,
            interval == layout.full_interval,
            0 <= block <= layout.main_blocks,
            states_constructed(*artifact, recurrent, layout, states@, block as int),
            forall|earlier: int|
                0 <= earlier < block && !(#[trigger] layout.full(earlier)) ==> block_constructible(
                    *artifact,
                    recurrent,
                    earlier,
                ),
        decreases layout.main_blocks - block,
    {
        let ghost before = states@;
        proof {
            qwen35_inventory::lemma_next_quotient(block as int, interval);
        }
        if !layout.is_full(block) {
            match Qwen35RecurrentExecution::try_from_weights(artifact, recurrent, block as u64) {
                Ok(state) => {
                    assert(qwen35_recurrent::constructed(*artifact, recurrent, block as u64, state));
                    assert(block_constructible(*artifact, recurrent, block as int));
                    states.push(state);
                },
                Err(error) => {
                    assert(first_block_refused(
                        *artifact,
                        recurrent,
                        layout,
                        block as int,
                        error,
                    ));
                    return Err(error);
                },
            }
        }
        proof {
            assert forall|b: int|
                #![trigger layout.full(b)]
                0 <= b < block + 1 && !layout.full(b) implies qwen35_recurrent::constructed(
                *artifact,
                recurrent,
                b as u64,
                states@[recurrent_index(layout, b)],
            ) by {
                if b < block {
                    lemma_index_below(layout, b, block as int);
                    assert(states@[recurrent_index(layout, b)] == before[recurrent_index(
                        layout,
                        b,
                    )]);
                }
            }
        }
        block = block + 1;
    }
    Ok(states)
}

proof fn lemma_index_below(layout: Layout, block: int, blocks: int)
    requires
        layout.full_interval > 0,
        0 <= block < blocks,
        !layout.full(block),
    ensures
        0 <= recurrent_index(layout, block) < recurrent_index(layout, blocks),
    decreases blocks,
{
    let interval = layout.full_interval as int;
    qwen35_inventory::lemma_next_quotient(blocks - 1, interval);
    assert(0 <= block / interval <= block) by (nonlinear_arith)
        requires
            block >= 0,
            interval > 0,
    ;
    if block < blocks - 1 {
        lemma_index_below(layout, block, blocks - 1);
    }
}

/// Whether a session is that of a plan over an artifact at its start.
pub open spec fn opened<P>(
    artifact: VerifiedArtifact,
    recurrent: Qwen35RecurrentLayout,
    plan: Qwen35ExecutionPlan,
    session: u64,
    pool: Option<P>,
    execution: HybridExecution<P>,
) -> bool {
    let layout = plan.spec_layout();
    &&& execution.spec_session() == session
    &&& execution.spec_layout() == layout
    &&& execution.step_bound() == plan.step_bound()
    &&& execution.spec_selection() == plan.spec_selection()
    &&& execution.spec_requirements() == plan.spec_requirements()
    &&& execution.position() == 0
    &&& execution.spec_pool() == pool
    &&& (pool is Some) == (layout.full_layers() > 0)
    &&& qwen35_session::layers_fit(layout, execution.spec_layers())
    &&& forall|block: int|
        #![trigger execution.spec_layers()[block]]
        0 <= block < layout.main_blocks && !layout.full(block)
            ==> execution.spec_layers()[block] is Recurrent && qwen35_recurrent::constructed(
            artifact,
            recurrent,
            block as u64,
            execution.spec_layers()[block]->Recurrent_0,
        )
}

/// Whether the session of a plan is refused with an error: the first recurrent block
/// that is refused decides, then the pool, then the allocator.
pub open spec fn opening_refused<P>(
    artifact: VerifiedArtifact,
    recurrent: Qwen35RecurrentLayout,
    plan: Qwen35ExecutionPlan,
    pool: Option<P>,
    error: Error,
) -> bool {
    let layout = plan.spec_layout();
    ||| exists|block: int| #[trigger]
        first_block_refused(artifact, recurrent, layout, block, error)
    ||| {
        &&& all_constructible(artifact, recurrent, layout)
        &&& if (pool is Some) != (layout.full_layers() > 0) {
            error == (Error::ExecutionContext {
                requested: layout.full_layers() as usize,
                rule: "full-attention execution must own a paged KV transaction",
            })
        } else {
            &&& layout.main_blocks > 0
            &&& error.execution_allocation("main-block execution slots", layout.main_blocks)
        }
    }
}

impl Qwen35ExecutionPlan {
    /// Construct the session of this plan over an artifact: every recurrent block
    /// starts from its own parameters and a zero state.
    pub fn hybrid_execution<P>(
        self,
        artifact: &VerifiedArtifact,
        recurrent: Qwen35RecurrentLayout,
        session: u64,
        pool: Option<P>,
    ) -> (execution: Result<HybridExecution<P>, Error>)
        ensures
            match execution {
                Ok(execution) => opened(*artifact, recurrent, self, session, pool, execution),
                Err(error) => opening_refused(*artifact, recurrent, self, pool, error),
            },
    {
        let layout = self.layout();
        let states = recurrent_executions(artifact, recurrent, layout)?;
        let execution = self.execution(session, states, pool)?;
        proof {
            let layers = execution.spec_layers();
            assert forall|block: int|
                #![trigger layers[block]]
                0 <= block < layout.main_blocks && !layout.full(
                    block,
                ) implies layers[block] is Recurrent && qwen35_recurrent::constructed(
                *artifact,
                recurrent,
                block as u64,
                layers[block]->Recurrent_0,
            ) by {
                lemma_recurrent_place(layout, layers, block);
            }
        }
        Ok(execution)
    }
}

impl<P> Qwen35Execution<Qwen35RecurrentExecution, P> {
    /// Construct a session over an artifact whose steps may fill the whole context
    /// and retain every logit row.
    pub fn try_from_weights(
        profile: &Qwen35StructuralProfile<'_>,
        artifact: &VerifiedArtifact,
        max_context: usize,
        extents: KernelExtents,
        session: u64,
        pool: Option<P>,
    ) -> (execution: Result<HybridExecution<P>, Error>)
        ensures
            ({
                let recurrent = profile.spec_dimensions().recurrent_layout_spec();
                let all = Qwen35LogitSelection::AllTokens;
                match execution {
                    Ok(execution) => exists|plan: Qwen35ExecutionPlan| #[trigger]
                        plan.plans(*profile, max_context, max_context, all, extents) && opened(
                            *artifact,
                            recurrent,
                            plan,
                            session,
                            pool,
                            execution,
                        ),
                    Err(error) => {
                        ||| Qwen35ExecutionPlan::refused(
                            *profile,
                            max_context,
                            max_context,
                            all,
                            extents,
                            error,
                        )
                        ||| exists|plan: Qwen35ExecutionPlan| #[trigger]
                            plan.plans(*profile, max_context, max_context, all, extents)
                                && opening_refused(*artifact, recurrent, plan, pool, error)
                    },
                }
            }),
    {
        let plan = Qwen35ExecutionPlan::try_from_weights(
            profile,
            max_context,
            max_context,
            Qwen35LogitSelection::AllTokens,
            extents,
        )?;
        assert(plan.plans(
            *profile,
            max_context,
            max_context,
            Qwen35LogitSelection::AllTokens,
            extents,
        ));
        plan.hybrid_execution(artifact, profile.recurrent_layout(), session, pool)
    }
}

/// Whether a layer is a private copy of another: a recurrent state has equal values,
/// and a full-attention layer has the same place in the pool.
pub open spec fn layer_copied(
    copy: LayerState<Qwen35RecurrentExecution>,
    layer: LayerState<Qwen35RecurrentExecution>,
) -> bool {
    match (copy, layer) {
        (LayerState::Recurrent(copy), LayerState::Recurrent(state)) => copy.copies(state),
        (LayerState::Full(copy), LayerState::Full(index)) => copy == index,
        _ => false,
    }
}

/// Whether a list of layers is a private copy of another.
pub open spec fn layers_copied(
    copies: Seq<LayerState<Qwen35RecurrentExecution>>,
    layers: Seq<LayerState<Qwen35RecurrentExecution>>,
) -> bool {
    &&& copies.len() == layers.len()
    &&& forall|block: int|
        0 <= block < layers.len() ==> layer_copied(#[trigger] copies[block], layers[block])
}

fn copy_states(layers: &Vec<LayerState<Qwen35RecurrentExecution>>) -> (copies: Result<
    Vec<Qwen35RecurrentExecution>,
    Error,
>)
    ensures
        match copies {
            Ok(copies) => {
                let states = qwen35_session::recurrent_states(layers@);
                &&& copies@.len() == states.len()
                &&& forall|i: int| 0 <= i < states.len() ==> (#[trigger] copies@[i]).copies(states[i])
            },
            Err(error) => copy_refused(layers@, error),
        },
{
    let mut copies: Vec<Qwen35RecurrentExecution> = Vec::new();
    let mut block: usize = 0;
    assert(layers@.take(0) =~= Seq::<LayerState<Qwen35RecurrentExecution>>::empty());
    while block < layers.len()
        invariant
            0 <= block <= layers@.len(),
            copies@.len() == qwen35_session::recurrent_states(layers@.take(block as int)).len(),
            forall|i: int|
                0 <= i < copies@.len() ==> (#[trigger] copies@[i]).copies(
                    qwen35_session::recurrent_states(layers@.take(block as int))[i],
                ),
        decreases layers@.len() - block,
    {
        proof {
            let longer = layers@.take(block + 1);
            assert(longer.drop_last() =~= layers@.take(block as int));
            assert(longer.last() == layers@[block as int]);
        }
        match &layers[block] {
            LayerState::Recurrent(state) => match state.try_clone_for_transaction() {
                Ok(copy) => copies.push(copy),
                Err(error) => {
                    assert(layer_copy_refused(layers@[block as int], error));
                    return Err(error);
                },
            },
            LayerState::Full(_) => {},
        }
        block = block + 1;
    }
    assert(layers@.take(block as int) =~= layers@);
    Ok(copies)
}

/// Whether the allocator refused a copy of a recurrent layer.
pub open spec fn layer_copy_refused(
    layer: LayerState<Qwen35RecurrentExecution>,
    error: Error,
) -> bool {
    layer matches LayerState::Recurrent(state) && state.copy_refused(error)
}

/// Whether the allocator refused a copy of one of the recurrent layers.
pub open spec fn copy_refused(
    layers: Seq<LayerState<Qwen35RecurrentExecution>>,
    error: Error,
) -> bool {
    exists|block: int|
        0 <= block < layers.len() && #[trigger] layer_copy_refused(layers[block], error)
}

impl<P> Qwen35Execution<Qwen35RecurrentExecution, P> {
    /// Stage a step over private copies of the session's recurrent states and an open
    /// key-value append; the session itself is not touched.
    pub fn stage_copies(&self, token_ids: &[u32], append: Option<P>) -> (staged: Result<
        StagedExecution<Qwen35RecurrentExecution, P>,
        Error,
    >)
        ensures
            ({
                let failure = qwen35_session::bounds_failure(
                    self.spec_layout(),
                    self.step_bound(),
                    self.position(),
                    token_ids@.len() as int,
                );
                let logits = self.spec_selection().rows(token_ids@.len() as int)
                    * self.spec_layout().vocabulary;
                match staged {
                    Ok(staged) => {
                        &&& failure is None
                        &&& staged.spec_session() == self.spec_session()
                        &&& staged@.layout == self.spec_layout()
                        &&& staged@.selection == self.spec_selection()
                        &&& staged@.tokens == token_ids@
                        &&& layers_copied(staged@.layers, self.spec_layers())
                        &&& staged@.pool == append
                        &&& staged@.start == self.position()
                        &&& staged@.token_index == 0
                        &&& staged@.stage == StepStage::Embed
                        &&& staged@.logits.len() == 0
                        &&& staged@.fits()
                    },
                    Err(error) => if failure is Some {
                        failure == Some(error)
                    } else {
                        ||| copy_refused(self.spec_layers(), error)
                        ||| {
                            &&& logits > usize::MAX
                            &&& error == (Error::ArithmeticOverflow {
                                context: "returned logits allocation",
                            })
                        }
                        ||| {
                            &&& self.spec_layout().main_blocks > 0
                            &&& error.execution_allocation(
                                "transaction main-block slots",
                                self.spec_layout().main_blocks,
                            )
                        }
                        ||| {
                            &&& 0 < logits <= usize::MAX
                            &&& error.execution_allocation("token logits", logits as usize)
                        }
                    },
                }
            }),
    {
        self.validate_bounds(token_ids.len())?;
        let layers = self.layers();
        let copies = copy_states(layers)?;
        let ghost states = qwen35_session::recurrent_states(layers@);
        let ghost layout = self.spec_layout();
        proof {
            lemma_recurrent_count(layout, layers@);
        }
        let staged = self.stage(token_ids, copies, append)?;
        proof {
            let staged_layers = staged@.layers;
            assert forall|block: int| 0 <= block < layers@.len() implies layer_copied(
                #[trigger] staged_layers[block],
                layers@[block],
            ) by {
                assert(qwen35_session::layer_kind_fits(layout, block, staged_layers[block]));
                assert(qwen35_session::layer_kind_fits(layout, block, layers@[block]));
                if !layout.full(block) {
                    lemma_recurrent_place(layout, staged_layers, block);
                    lemma_recurrent_place(layout, layers@, block);
                    assert(copies@[recurrent_index(layout, block)].copies(
                        states[recurrent_index(layout, block)],
                    ));
                }
            }
        }
        Ok(staged)
    }
}

} // verus!
