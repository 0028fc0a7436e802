//! Laws of sessions over verified weights: every recurrent block starts from its own
//! stored parameters, and a step works on copies.

use crate::error::Error;
use crate::gguf::VerifiedArtifact;
use crate::laws::execution::{lemma_marked, marked};
use crate::laws::recurrent::holds_tensor;
use crate::qwen35::{Qwen35RecurrentLayout, Qwen35StructuralProfile};
use crate::qwen35_execution::{Layout, Qwen35LogitSelection};
use crate::qwen35_hybrid;
use crate::qwen35_hybrid::{recurrent_executions, HybridExecution};
use crate::qwen35_recurrent::Qwen35RecurrentExecution;
use crate::qwen35_requirements::KernelExtents;
use crate::qwen35_session;
use crate::qwen35_session::{LayerState, Qwen35ExecutionPlan, StagedExecution};
use crate::text;
use vstd::prelude::*;

verus! {

/// Whether an execution is that of one block of an artifact, at its start.
pub open spec fn fresh_block(
    artifact: VerifiedArtifact,
    recurrent: Qwen35RecurrentLayout,
    block: u64,
    execution: Qwen35RecurrentExecution,
) -> bool {
    let prefix = "blk."@ + text::decimal(block as nat) + "."@;
    let channels = (2 * (recurrent.state * recurrent.group_count) + recurrent.inner) as u64;
    &&& execution.block_index == block
    &&& holds_tensor(
        artifact,
        prefix + "attn_norm.weight"@,
        seq![recurrent.hidden],
        execution.attention_norm@,
    )
    &&& holds_tensor(
        artifact,
        prefix + "ssm_a"@,
        seq![recurrent.time_step_rank],
        execution.ssm_a@,
    )
    &&& holds_tensor(
        artifact,
        prefix + "ssm_dt.bias"@,
        seq![recurrent.time_step_rank],
        execution.ssm_dt@,
    )
    &&& holds_tensor(
        artifact,
        prefix + "ssm_norm.weight"@,
        seq![(recurrent.inner / recurrent.time_step_rank)],
        execution.ssm_norm@,
    )
    &&& holds_tensor(
        artifact,
        prefix + "ssm_conv1d.weight"@,
        seq![recurrent.conv_kernel, channels],
        execution.ssm_conv@,
    )
    &&& forall|i: int|
        0 <= i < execution.convolution_history@.len()
            ==> #[trigger] execution.convolution_history@[i]
            == 0
    &&& forall|i: int|
        0 <= i < execution.recurrent_state@.len() ==> #[trigger] execution.recurrent_state@[i] == 0
}

/// The recurrent states of a model are those of its recurrent blocks in order: as many
/// as there are blocks off the cadence, each of its own block.
pub proof fn law_recurrent_states_in_order(
    artifact: &VerifiedArtifact,
    recurrent: Qwen35RecurrentLayout,
    layout: Layout,
    states: Vec<Qwen35RecurrentExecution>,
    block: u64,
)
    requires
        call_ensures(
            recurrent_executions,
            (artifact, recurrent, layout),
            Ok::<Vec<Qwen35RecurrentExecution>, Error>(states),
        ),
        layout.full_interval > 0,
        block < layout.main_blocks,
        (block + 1) % (layout.full_interval as int) != 0,
    ensures
        states@.len() + marked(layout.full_interval as int, layout.main_blocks as nat)
            == layout.main_blocks,
        fresh_block(
            *artifact,
            recurrent,
            block,
            states@[block - marked(layout.full_interval as int, block as nat)],
        ),
{
    lemma_marked(layout.full_interval as int, layout.main_blocks as nat);
    lemma_marked(layout.full_interval as int, block as nat);
    assert(!layout.full(block as int));
}

/// A session over an artifact holds at every recurrent block the state of that very
/// block, and starts with nothing published.
pub proof fn law_hybrid_session_starts<P>(
    plan: Qwen35ExecutionPlan,
    artifact: &VerifiedArtifact,
    recurrent: Qwen35RecurrentLayout,
    session: u64,
    pool: Option<P>,
    execution: HybridExecution<P>,
    block: u64,
)
    requires
        call_ensures(
            Qwen35ExecutionPlan::hybrid_execution::<P>,
            (plan, artifact, recurrent, session, pool),
            Ok::<HybridExecution<P>, Error>(execution),
        ),
        plan.spec_layout().full_interval > 0,
        block < plan.spec_layout().main_blocks,
    ensures
        execution.position() == 0 && execution.spec_session() == session,
        execution.spec_layout() == plan.spec_layout() && execution.spec_pool() == pool,
        execution.step_bound() == plan.step_bound() && execution.spec_selection()
            == plan.spec_selection(),
        (block + 1) % (plan.spec_layout().full_interval as int) != 0
            ==> (execution.spec_layers()[block as int] matches LayerState::Recurrent(state)
            && fresh_block(*artifact, recurrent, block, state)),
        (block + 1) % (plan.spec_layout().full_interval as int) == 0
            ==> execution.spec_layers()[block as int] == LayerState::<
            Qwen35RecurrentExecution,
        >::Full(marked(plan.spec_layout().full_interval as int, block as nat) as usize),
{
    let layout = plan.spec_layout();
    lemma_marked(layout.full_interval as int, block as nat);
    assert(qwen35_session::layer_kind_fits(
        layout,
        block as int,
        execution.spec_layers()[block as int],
    ));
}

/// A session made from weights alone keeps every logit row and takes steps as long as
/// its context.
pub proof fn law_default_session<P>(
    profile: &Qwen35StructuralProfile<'_>,
    artifact: &VerifiedArtifact,
    max_context: usize,
    extents: KernelExtents,
    session: u64,
    pool: Option<P>,
    execution: HybridExecution<P>,
)
    requires
        call_ensures(
            HybridExecution::<P>::try_from_weights,
            (profile, artifact, max_context, extents, session, pool),
            Ok::<HybridExecution<P>, Error>(execution),
        ),
    ensures
        execution.spec_selection() == Qwen35LogitSelection::AllTokens,
        execution.step_bound() == max_context,
        execution.spec_layout().max_context == max_context,
        execution.position() == 0 && execution.spec_session() == session && execution.spec_pool()
            == pool,
{
}

/// A step is staged over copies: every recurrent state of the step has the values of
/// the session's state of the same block.
pub proof fn law_step_works_on_copies<P>(
    execution: &HybridExecution<P>,
    token_ids: &[u32],
    append: Option<P>,
    staged: StagedExecution<Qwen35RecurrentExecution, P>,
    block: int,
)
    requires
        call_ensures(
            HybridExecution::<P>::stage_copies,
            (execution, token_ids, append),
            Ok::<StagedExecution<Qwen35RecurrentExecution, P>, Error>(staged),
        ),
        0 <= block < execution.spec_layers().len(),
    ensures
        staged@.layers.len() == execution.spec_layers().len(),
        execution.spec_layers()[block] matches LayerState::Recurrent(state)
            ==> (staged@.layers[block] matches LayerState::Recurrent(copy) && copy.block_index
            == state.block_index && copy.recurrent_state@ == state.recurrent_state@
            && copy.convolution_history@ == state.convolution_history@ && copy.ssm_conv@
            == state.ssm_conv@ && copy.ssm_a@ == state.ssm_a@ && copy.ssm_dt@ == state.ssm_dt@
            && copy.ssm_norm@ == state.ssm_norm@ && copy.attention_norm@ == state.attention_norm@),
        execution.spec_layers()[block] is Full ==> staged@.layers[block]
            == execution.spec_layers()[block],
        staged@.tokens == token_ids@ && staged@.start == execution.position() && staged@.pool
            == append,
{
    assert(qwen35_hybrid::layer_copied(staged@.layers[block], execution.spec_layers()[block]));
}

} // verus!
