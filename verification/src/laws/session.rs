//! Laws of a Qwen3.5 session: the order of a step, the place of every layer's state and
//! of every logit row, and what publishing a step changes.

use crate::error::Error;
use crate::laws::execution::{lemma_marked, marked};
use crate::qwen35::Qwen35StructuralProfile;
use crate::qwen35_execution::{Layout, Qwen35LogitSelection};
use crate::qwen35_hybrid;
use crate::qwen35_requirements::KernelExtents;
use crate::qwen35_session;
use crate::qwen35_session::{
    check_tokens, paged_kv_geometry, FullAttentionStep, LayerState, PagedKvGeometry,
    Qwen35Execution, Qwen35ExecutionPlan, StagedExecution, StepAction, StepStage,
};
use vstd::prelude::*;

verus! {

/// The key and value pool of a model has a layer for every full-attention block and
/// rows of the joined key width, up to the context; without such a block there is none.
pub proof fn law_pool_geometry(layout: Layout, geometry: Option<PagedKvGeometry>)
    requires
        layout.full_interval > 0,
        call_ensures(paged_kv_geometry, (layout,), geometry),
    ensures
        geometry is None <==> marked(layout.full_interval as int, layout.main_blocks as nat) == 0,
        geometry matches Some(geometry) ==> geometry.layers == marked(
            layout.full_interval as int,
            layout.main_blocks as nat,
        ) && geometry.row_width == layout.kv_width && geometry.max_context == layout.max_context,
{
    lemma_marked(layout.full_interval as int, layout.main_blocks as nat);
}

/// A plan is made only for a step bound between one and the context, and it carries the
/// bound, the selection, and the receipt of its own artifact.
pub proof fn law_plan(
    profile: &Qwen35StructuralProfile<'_>,
    max_context: usize,
    max_step_tokens: usize,
    selection: Qwen35LogitSelection,
    extents: KernelExtents,
    plan: Qwen35ExecutionPlan,
)
    requires
        call_ensures(
            Qwen35ExecutionPlan::try_from_weights,
            (profile, max_context, max_step_tokens, selection, extents),
            Ok::<Qwen35ExecutionPlan, Error>(plan),
        ),
    ensures
        0 < max_step_tokens <= max_context,
        plan.spec_layout().max_context == max_context,
        plan.step_bound() == max_step_tokens,
        plan.spec_selection() == selection,
        plan.spec_requirements().artifact_digest == profile.artifact().digest,
        plan.spec_requirements().serialized_backing_bytes == profile.artifact().file_len,
        plan.spec_requirements().max_context == max_context,
        plan.spec_requirements().max_step_tokens == max_step_tokens,
        plan.spec_requirements().selection == selection,
{
}

/// A session starts at position zero with the plan's geometry; full-attention blocks
/// hold the number of full-attention blocks before them, and the recurrent blocks hold
/// the given states in order.
pub proof fn law_session_starts<R, P>(
    plan: Qwen35ExecutionPlan,
    session: u64,
    recurrent: Vec<R>,
    pool: Option<P>,
    execution: Qwen35Execution<R, P>,
    block: usize,
)
    requires
        call_ensures(
            Qwen35ExecutionPlan::execution::<R, P>,
            (plan, session, recurrent, pool),
            Ok::<Qwen35Execution<R, P>, Error>(execution),
        ),
        plan.spec_layout().full_interval > 0,
        block < plan.spec_layout().main_blocks,
    ensures
        execution.position() == 0,
        execution.spec_session() == session,
        execution.spec_layout() == plan.spec_layout(),
        execution.step_bound() == plan.step_bound(),
        execution.spec_selection() == plan.spec_selection(),
        execution.spec_requirements() == plan.spec_requirements(),
        execution.spec_pool() == pool,
        execution.spec_layers().len() == plan.spec_layout().main_blocks,
        ({
            let interval = plan.spec_layout().full_interval as int;
            let before = marked(interval, block as nat);
            if (block + 1) % interval == 0 {
                execution.spec_layers()[block as int] == LayerState::<R>::Full(before as usize)
            } else {
                execution.spec_layers()[block as int] == LayerState::Recurrent(
                    recurrent@[block - before],
                )
            }
        }),
        recurrent@.len() + marked(
            plan.spec_layout().full_interval as int,
            plan.spec_layout().main_blocks as nat,
        ) == plan.spec_layout().main_blocks,
{
    let layout = plan.spec_layout();
    lemma_marked(layout.full_interval as int, block as nat);
    lemma_marked(layout.full_interval as int, layout.main_blocks as nat);
    let layer = execution.spec_layers()[block as int];
    assert(qwen35_session::layer_kind_fits(layout, block as int, layer));
    if (block + 1) % (layout.full_interval as int) != 0 {
        qwen35_hybrid::lemma_recurrent_place(layout, execution.spec_layers(), block as int);
    }
}

/// A step is admitted exactly where it has a token, no more than the step bound, fits
/// behind what was published, and names entries of the vocabulary alone.
pub proof fn law_step_admission<R, P>(
    execution: &Qwen35Execution<R, P>,
    token_ids: &[u32],
    bounds: Result<(), Error>,
    step: Result<(), Error>,
)
    requires
        call_ensures(
            Qwen35Execution::<R, P>::validate_bounds,
            (execution, token_ids@.len() as usize),
            bounds,
        ),
        call_ensures(Qwen35Execution::<R, P>::validate_step, (execution, token_ids), step),
    ensures
        bounds is Ok <==> 0 < token_ids@.len() <= execution.step_bound() && execution.position()
            + token_ids@.len() <= execution.spec_layout().max_context,
        step is Ok <==> bounds is Ok && forall|i: int|
            0 <= i < token_ids@.len() ==> #[trigger] token_ids@[i]
                < execution.spec_layout().vocabulary,
{
    assert(token_ids.len() == token_ids@.len());
    lemma_tokens(token_ids@, execution.spec_layout().vocabulary as int);
}

proof fn lemma_tokens(tokens: Seq<u32>, vocabulary: int)
    ensures
        qwen35_session::token_failure(tokens, vocabulary) is None <==> forall|i: int|
            0 <= i < tokens.len() ==> #[trigger] tokens[i] < vocabulary,
        qwen35_session::token_failure(tokens, vocabulary) matches Some(error) ==> exists|i: int|
            {
                &&& 0 <= i < tokens.len()
                &&& #[trigger] tokens[i] >= vocabulary
                &&& error == (Error::ExecutionToken {
                    token_id: tokens[i],
                    vocabulary: vocabulary as usize,
                })
                &&& forall|j: int| 0 <= j < i ==> #[trigger] tokens[j] < vocabulary
            },
    decreases tokens.len(),
{
    if tokens.len() > 0 {
        let init = tokens.drop_last();
        lemma_tokens(init, vocabulary);
        if qwen35_session::token_failure(init, vocabulary) is None {
            assert forall|i: int| 0 <= i < tokens.len() - 1 implies #[trigger] tokens[i]
                < vocabulary by {
                assert(init[i] < vocabulary);
            }
            assert(tokens[tokens.len() - 1] == tokens.last());
        } else {
            let i = choose|i: int|
                {
                    &&& 0 <= i < init.len()
                    &&& #[trigger] init[i] >= vocabulary
                    &&& qwen35_session::token_failure(init, vocabulary) == Some(
                        Error::ExecutionToken {
                            token_id: init[i],
                            vocabulary: vocabulary as usize,
                        },
                    )
                    &&& forall|j: int| 0 <= j < i ==> #[trigger] init[j] < vocabulary
                };
            assert(tokens[i] == init[i]);
            assert forall|j: int| 0 <= j < i implies #[trigger] tokens[j] < vocabulary by {
                assert(init[j] < vocabulary);
            }
        }
    }
}

/// Tokens are refused exactly where one is outside the vocabulary, and the first such
/// one is named.
pub proof fn law_tokens_are_checked(
    tokens: &[u32],
    vocabulary: usize,
    checked: Result<(), Error>,
)
    requires
        call_ensures(check_tokens, (tokens, vocabulary), checked),
    ensures
        checked is Ok <==> forall|i: int|
            0 <= i < tokens@.len() ==> #[trigger] tokens@[i] < vocabulary,
        checked matches Err(error) ==> exists|i: int|
            {
                &&& 0 <= i < tokens@.len()
                &&& #[trigger] tokens@[i] >= vocabulary
                &&& error == (Error::ExecutionToken { token_id: tokens@[i], vocabulary })
                &&& forall|j: int| 0 <= j < i ==> #[trigger] tokens@[j] < vocabulary
            },
{
    lemma_tokens(tokens@, vocabulary as int);
}

/// A staged step begins at its session's position, with the session's geometry and
/// selection, its own tokens, copies of the states, and no logits.
pub proof fn law_step_is_staged<R, P>(
    execution: &Qwen35Execution<R, P>,
    token_ids: &[u32],
    recurrent: Vec<R>,
    append: Option<P>,
    staged: StagedExecution<R, P>,
    block: usize,
)
    requires
        call_ensures(
            Qwen35Execution::<R, P>::stage,
            (execution, token_ids, recurrent, append),
            Ok::<StagedExecution<R, P>, Error>(staged),
        ),
        execution.spec_layout().full_interval > 0,
        block < execution.spec_layout().main_blocks,
    ensures
        staged.spec_session() == execution.spec_session(),
        staged@.layout == execution.spec_layout() && staged@.selection
            == execution.spec_selection(),
        staged@.tokens == token_ids@ && staged@.start == execution.position(),
        staged@.pool == append,
        staged@.token_index == 0 && staged@.stage == StepStage::Embed,
        staged@.logits.len() == 0,
        0 < token_ids@.len() <= execution.step_bound(),
        execution.position() + token_ids@.len() <= execution.spec_layout().max_context,
        ({
            let interval = execution.spec_layout().full_interval as int;
            let before = marked(interval, block as nat);
            if (block + 1) % interval == 0 {
                staged@.layers[block as int] == LayerState::<R>::Full(before as usize)
            } else {
                staged@.layers[block as int] == LayerState::Recurrent(recurrent@[block - before])
            }
        }),
{
    let layout = execution.spec_layout();
    lemma_marked(layout.full_interval as int, block as nat);
    assert(qwen35_session::layer_kind_fits(layout, block as int, staged@.layers[block as int]));
    if (block + 1) % (layout.full_interval as int) != 0 {
        qwen35_hybrid::lemma_recurrent_place(layout, staged@.layers, block as int);
    }
}

/// What a step needs next follows from where it stands: its current token is embedded,
/// passes each block as the kind that the block is, at the token's own position, and
/// ends at the head, whose row is kept where the selection asks for it.
pub proof fn law_next_action<R, P>(
    staged: &StagedExecution<R, P>,
    action: StepAction,
)
    requires
        call_ensures(StagedExecution::<R, P>::next_action, (staged,), action),
    ensures
        staged@.token_index == staged@.tokens.len() ==> action == StepAction::Complete,
        staged@.token_index < staged@.tokens.len() ==> match staged@.stage {
            StepStage::Embed => action == (StepAction::Embed {
                token: staged@.tokens[staged@.token_index] as usize,
            }),
            StepStage::Block(block) => {
                let interval = staged@.layout.full_interval as int;
                if (block + 1) % interval == 0 {
                    action == StepAction::FullAttention(
                        FullAttentionStep {
                            position: (staged@.start + staged@.token_index) as usize,
                            block,
                            full_layer: marked(interval, block as nat) as usize,
                            append_token: staged@.token_index as usize,
                        },
                    )
                } else {
                    action == (StepAction::Recurrent { block })
                }
            },
            StepStage::Head => action == (StepAction::Head {
                retain: staged@.selection == Qwen35LogitSelection::AllTokens
                    || staged@.token_index == staged@.tokens.len() - 1,
            }),
        },
{
    if let StepStage::Block(block) = staged@.stage {
        lemma_marked(staged@.layout.full_interval as int, block as nat);
        if staged@.token_index < staged@.tokens.len() {
            assert(qwen35_session::layer_kind_fits(
                staged@.layout,
                block as int,
                staged@.layers[block as int],
            ));
        }
    }
}

/// The embedding row of a step is the row of its current token, where that is in the
/// vocabulary; the embedded row becomes the hidden row of the first block.
pub proof fn law_embedding_stage<R, P>(
    staged: StagedExecution<R, P>,
    lent: &StagedExecution<R, P>,
    chosen: Result<usize, Error>,
    row: Vec<u32>,
    next: StagedExecution<R, P>,
)
    requires
        *lent == staged,
        staged@.stage == StepStage::Embed,
        0 <= staged@.token_index < staged@.tokens.len(),
        call_ensures(StagedExecution::<R, P>::embedding_row, (lent,), chosen),
        call_ensures(
            StagedExecution::<R, P>::complete_embed,
            (staged, row),
            Ok::<StagedExecution<R, P>, Error>(next),
        ),
    ensures
        chosen == Ok::<usize, Error>(staged@.tokens[staged@.token_index] as usize),
        staged@.tokens[staged@.token_index] < staged@.layout.vocabulary,
        next@.hidden == row@ && row@.len() == staged@.layout.hidden,
        staged@.layout.main_blocks > 0 ==> next@.stage == StepStage::Block(0),
        staged@.layout.main_blocks == 0 ==> next@.stage == StepStage::Head,
        next@.layers == staged@.layers && next@.pool == staged@.pool && next@.logits
            == staged@.logits && next@.token_index == staged@.token_index && next@.tokens
            == staged@.tokens && next@.start == staged@.start,
{
}

/// A finished block replaces the hidden row and its own state alone, and the next block
/// follows it, or the head after the last block.
pub proof fn law_block_stage<R, P>(
    staged: StagedExecution<R, P>,
    block: usize,
    state: R,
    pool: P,
    hidden: Vec<u32>,
    recurred: StagedExecution<R, P>,
    attended: StagedExecution<R, P>,
)
    requires
        staged@.stage == StepStage::Block(block),
        block < staged@.layout.main_blocks,
        staged@.layers.len() == staged@.layout.main_blocks,
    ensures
        call_ensures(
            StagedExecution::<R, P>::complete_recurrent,
            (staged, state, hidden),
            Ok::<StagedExecution<R, P>, Error>(recurred),
        ) ==> {
            &&& recurred@.hidden == hidden@ && hidden@.len() == staged@.layout.hidden
            &&& recurred@.layers.len() == staged@.layers.len()
            &&& recurred@.layers[block as int] == LayerState::Recurrent(state)
            &&& forall|other: int|
                0 <= other < staged@.layers.len() && other != block
                    ==> #[trigger] recurred@.layers[other] == staged@.layers[other]
            &&& recurred@.pool == staged@.pool && recurred@.logits == staged@.logits
            &&& recurred@.token_index == staged@.token_index
            &&& block + 1 < staged@.layout.main_blocks ==> recurred@.stage == StepStage::Block(
                (block + 1) as usize,
            )
            &&& block + 1 == staged@.layout.main_blocks ==> recurred@.stage == StepStage::Head
        },
        call_ensures(
            StagedExecution::<R, P>::complete_full_attention,
            (staged, pool, hidden),
            Ok::<StagedExecution<R, P>, Error>(attended),
        ) ==> {
            &&& attended@.hidden == hidden@ && hidden@.len() == staged@.layout.hidden
            &&& attended@.layers == staged@.layers
            &&& attended@.pool == Some(pool) && attended@.logits == staged@.logits
            &&& attended@.token_index == staged@.token_index
            &&& block + 1 < staged@.layout.main_blocks ==> attended@.stage == StepStage::Block(
                (block + 1) as usize,
            )
            &&& block + 1 == staged@.layout.main_blocks ==> attended@.stage == StepStage::Head
        },
{
}

/// The head ends a token: a kept row goes behind the rows of the tokens before it, a
/// row that is not kept adds none, and the next token is embedded.
pub proof fn law_head_stage<R, P>(
    staged: StagedExecution<R, P>,
    normalized: usize,
    row: Vec<u32>,
    kept: StagedExecution<R, P>,
    passed: StagedExecution<R, P>,
)
    ensures
        call_ensures(
            StagedExecution::<R, P>::complete_head,
            (staged, normalized, row),
            Ok::<StagedExecution<R, P>, Error>(kept),
        ) ==> {
            &&& normalized == staged@.layout.hidden && row@.len() == staged@.layout.vocabulary
            &&& kept@.logits.len() == staged@.logits.len() + staged@.layout.vocabulary
            &&& forall|i: int|
                0 <= i < staged@.logits.len() ==> #[trigger] kept@.logits[i] == staged@.logits[i]
            &&& forall|i: int|
                0 <= i < row@.len() ==> kept@.logits[staged@.logits.len() + i] == #[trigger] row@[i]
            &&& kept@.token_index == staged@.token_index + 1 && kept@.stage == StepStage::Embed
            &&& kept@.layers == staged@.layers && kept@.pool == staged@.pool
        },
        call_ensures(
            StagedExecution::<R, P>::complete_token,
            (staged, normalized),
            Ok::<StagedExecution<R, P>, Error>(passed),
        ) ==> {
            &&& normalized == staged@.layout.hidden
            &&& passed@.logits == staged@.logits
            &&& passed@.token_index == staged@.token_index + 1 && passed@.stage == StepStage::Embed
            &&& passed@.layers == staged@.layers && passed@.pool == staged@.pool
        },
{
    assert(staged@.logits + Seq::<u32>::empty() =~= staged@.logits);
}

/// A step may be published exactly to the session it was staged from, while nothing was
/// published in between, and only once every token is complete.
pub proof fn law_publication_check<R, P>(
    staged: &StagedExecution<R, P>,
    execution: &Qwen35Execution<R, P>,
    can: bool,
)
    requires
        call_ensures(StagedExecution::<R, P>::can_publish, (staged, execution), can),
    ensures
        can <==> staged@.token_index == staged@.tokens.len() && staged.spec_session()
            == execution.spec_session() && staged@.start == execution.position()
            && staged@.layout == execution.spec_layout() && staged@.selection
            == execution.spec_selection(),
{
}

/// Publishing a step advances its session by the step's tokens, puts the step's states
/// in place of the old ones, gives its logits, and changes nothing else.
pub proof fn law_publication<R, P>(
    execution: &mut Qwen35Execution<R, P>,
    staged: StagedExecution<R, P>,
    logits: Vec<u32>,
)
    requires
        call_ensures(Qwen35Execution::<R, P>::publish, (execution, staged), logits),
    ensures
        logits@ == staged@.logits,
        final(execution).position() == old(execution).position() + staged@.tokens.len(),
        final(execution).spec_layers() == staged@.layers,
        final(execution).spec_pool() == staged@.pool,
        final(execution).spec_session() == old(execution).spec_session(),
        final(execution).spec_layout() == old(execution).spec_layout(),
        final(execution).step_bound() == old(execution).step_bound(),
        final(execution).spec_selection() == old(execution).spec_selection(),
        final(execution).spec_requirements() == old(execution).spec_requirements(),
{
}

/// A step that fails leaves its session as it was; one that succeeds advances it by
/// its tokens and hands out its logits.
pub proof fn law_step<R, P>(
    execution: &mut Qwen35Execution<R, P>,
    staged: Result<StagedExecution<R, P>, Error>,
    logits: Result<Vec<u32>, Error>,
)
    requires
        call_ensures(Qwen35Execution::<R, P>::step, (execution, staged), logits),
    ensures
        logits is Err ==> *final(execution) == *old(execution),
        staged is Err ==> logits is Err && logits->Err_0 == staged->Err_0,
        logits matches Ok(logits) ==> staged matches Ok(step) && {
            &&& logits@ == step@.logits
            &&& step@.start == old(execution).position() && step@.token_index == step@.tokens.len()
            &&& final(execution).position() == old(execution).position() + step@.tokens.len()
            &&& final(execution).spec_layers() == step@.layers
            &&& final(execution).spec_pool() == step@.pool
            &&& final(execution).spec_layout() == old(execution).spec_layout()
            &&& final(execution).spec_session() == old(execution).spec_session()
        },
{
}

/// The state of a block that a step offers is that of this very block, and none where
/// the block uses full attention.
pub proof fn law_recurrent_state<R, P>(
    staged: &StagedExecution<R, P>,
    block: usize,
    state: Option<&R>,
)
    requires
        call_ensures(StagedExecution::<R, P>::recurrent_state, (staged, block), state),
    ensures
        state matches Some(state) ==> block < staged@.layers.len() && staged@.layers[block as int]
            == LayerState::Recurrent(*state),
        block < staged@.layers.len() && staged@.layers[block as int] is Recurrent ==> state is Some,
{
}

/// What a session reports is what it holds.
pub proof fn law_session_reports<R, P>(
    execution: &Qwen35Execution<R, P>,
    published: usize,
    context: usize,
    staged: &StagedExecution<R, P>,
    tokens: &[u32],
    serves: bool,
)
    requires
        call_ensures(Qwen35Execution::<R, P>::published_tokens, (execution,), published),
        call_ensures(Qwen35Execution::<R, P>::context_bound, (execution,), context),
        call_ensures(StagedExecution::<R, P>::serves, (staged, tokens), serves),
    ensures
        published == execution.position(),
        context == execution.spec_layout().max_context,
        serves <==> staged@.tokens == tokens@,
{
}

/// A full-attention call of a step appends to the step's own pool.
pub proof fn law_append_pool<R, P>(staged: &StagedExecution<R, P>, pool: Result<&P, Error>)
    requires
        call_ensures(StagedExecution::<R, P>::append, (staged,), pool),
    ensures
        pool is Ok <==> staged@.pool is Some,
        pool matches Ok(pool) ==> staged@.pool == Some(*pool),
{
}

/// Published tokens add up: two steps published one after the other advance a session by
/// the tokens of both.
pub proof fn law_positions_add_up<R, P>(
    execution: &mut Qwen35Execution<R, P>,
    first: StagedExecution<R, P>,
    first_logits: Vec<u32>,
    later: &mut Qwen35Execution<R, P>,
    second: StagedExecution<R, P>,
    second_logits: Vec<u32>,
)
    requires
        call_ensures(Qwen35Execution::<R, P>::publish, (execution, first), first_logits),
        *old(later) == *final(execution),
        call_ensures(Qwen35Execution::<R, P>::publish, (later, second), second_logits),
    ensures
        final(later).position() == old(execution).position() + first@.tokens.len()
            + second@.tokens.len(),
{
}

} // verus!
