//! What whole steps of a session do, whatever its numerical stages compute.
//!
//! A stage is a function of what it is handed. Under any such functions, steps over
//! joined chunks do what steps over the chunks do one after the other, and the logit
//! selection changes nothing but the rows that are returned.

use crate::qwen35_execution::Qwen35LogitSelection;
use crate::qwen35_hybrid;
use crate::qwen35_session;
use crate::qwen35_session::{LayerState, Qwen35Execution, StepAction, StepModel, StepStage};
use vstd::prelude::*;

verus! {

/// What the numerical stages of a model compute.
#[verifier::reject_recursive_types(R)]
#[verifier::reject_recursive_types(P)]
pub struct StageFunctions<R, P> {
    /// The embedding row of a token.
    pub embed: spec_fn(usize) -> Seq<u32>,
    /// The next state of a recurrent block and its finished hidden row.
    pub recurrent: spec_fn(usize, R, Seq<u32>) -> (R, Seq<u32>),
    /// The pool of a full-attention block with the row of a position, and the block's
    /// finished hidden row.
    pub attention: spec_fn(usize, usize, usize, Option<P>, Seq<u32>) -> (P, Seq<u32>),
    /// The logit row of a hidden row.
    pub head: spec_fn(Seq<u32>) -> Seq<u32>,
}

impl<R, P> StepModel<R, P> {
    /// The step once its next stage is complete.
    pub open spec fn following(self, stages: StageFunctions<R, P>) -> StepModel<R, P> {
        match self.action() {
            StepAction::Embed { token } => self.with_state(
                (stages.embed)(token),
                self.stage_after(-1),
                self.layers,
                self.pool,
            ),
            StepAction::Recurrent { block } => {
                let state = self.layers[block as int]->Recurrent_0;
                let (state, hidden) = (stages.recurrent)(block, state, self.hidden);
                self.with_state(
                    hidden,
                    self.stage_after(block as int),
                    self.layers.update(block as int, LayerState::Recurrent(state)),
                    self.pool,
                )
            },
            StepAction::FullAttention(full) => {
                let (pool, hidden) = (stages.attention)(
                    full.position,
                    full.block,
                    full.full_layer,
                    self.pool,
                    self.hidden,
                );
                self.with_state(
                    hidden,
                    self.stage_after(full.block as int),
                    self.layers,
                    Some(pool),
                )
            },
            StepAction::Head { retain } => self.next_token(
                if retain {
                    (stages.head)(self.hidden)
                } else {
                    seq![]
                },
            ),
            StepAction::Complete => self,
        }
    }

    /// The step once a number of stages are complete.
    pub open spec fn after(self, stages: StageFunctions<R, P>, count: nat) -> StepModel<R, P>
        decreases count,
    {
        if count == 0 {
            self
        } else {
            self.after(stages, (count - 1) as nat).following(stages)
        }
    }

    /// The number of stages of a whole step.
    pub open spec fn stage_count(self) -> nat {
        self.tokens.len() * (self.layout.main_blocks as nat + 2)
    }

    /// The step once all its stages are complete.
    pub open spec fn served(self, stages: StageFunctions<R, P>) -> StepModel<R, P> {
        self.after(stages, self.stage_count())
    }

    /// Whether the step is where a step of a session stands.
    pub open spec fn placed(self) -> bool {
        &&& 0 <= self.token_index <= self.tokens.len()
        &&& self.complete() ==> self.stage == StepStage::Embed
        &&& self.stage matches StepStage::Block(block) ==> block < self.layout.main_blocks
        &&& self.stage == StepStage::Embed ==> self.hidden == Seq::<u32>::empty()
    }
}

/// The step that a session opens over tokens.
pub open spec fn opened_step<R, P>(
    session: Qwen35Execution<R, P>,
    tokens: Seq<u32>,
) -> StepModel<R, P> {
    StepModel {
        layout: session.spec_layout(),
        selection: session.spec_selection(),
        tokens,
        layers: session.spec_layers(),
        pool: session.spec_pool(),
        start: session.position() as int,
        token_index: 0,
        stage: StepStage::Embed,
        hidden: seq![],
        logits: seq![],
    }
}

/// Whether two sessions are in equal state: the same layers, pool, and position of
/// the same model.
pub open spec fn equal_state<R, P>(
    left: Qwen35Execution<R, P>,
    right: Qwen35Execution<R, P>,
) -> bool {
    &&& left.spec_layout() == right.spec_layout()
    &&& left.spec_layers() == right.spec_layers()
    &&& left.spec_pool() == right.spec_pool()
    &&& left.position() == right.position()
}

/// A step that a session stages over copies equal to its own states is the step that
/// it opens.
pub proof fn lemma_staged_is_opened<R, P>(
    session: Qwen35Execution<R, P>,
    staged: StepModel<R, P>,
    tokens: Seq<u32>,
)
    requires
        qwen35_session::layers_fit(session.spec_layout(), session.spec_layers()),
        staged.fits(),
        staged.layout == session.spec_layout(),
        staged.selection == session.spec_selection(),
        staged.tokens == tokens,
        qwen35_session::recurrent_states(staged.layers) == qwen35_session::recurrent_states(
            session.spec_layers(),
        ),
        staged.pool == session.spec_pool(),
        staged.start == session.position(),
        staged.token_index == 0,
        staged.stage == StepStage::Embed,
        staged.logits.len() == 0,
    ensures
        staged == opened_step(session, tokens),
{
    let layout = staged.layout;
    let layers = session.spec_layers();
    assert forall|block: int| 0 <= block < layers.len() implies #[trigger] staged.layers[block]
        == layers[block] by {
        assert(qwen35_session::layer_kind_fits(layout, block, staged.layers[block]));
        assert(qwen35_session::layer_kind_fits(layout, block, layers[block]));
        if !layout.full(block) {
            qwen35_hybrid::lemma_recurrent_place(layout, staged.layers, block);
            qwen35_hybrid::lemma_recurrent_place(layout, layers, block);
        }
    }
    assert(staged.layers =~= layers);
    assert(staged.hidden =~= Seq::<u32>::empty());
    assert(staged.logits =~= Seq::<u32>::empty());
}

/// What every stage keeps, and how far a number of stages brings a step.
proof fn lemma_after<R, P>(step: StepModel<R, P>, stages: StageFunctions<R, P>, count: nat)
    requires
        step.placed(),
        step.token_index == 0,
        step.stage == StepStage::Embed,
    ensures
        step.after(stages, count).placed(),
        step.after(stages, count).layout == step.layout,
        step.after(stages, count).selection == step.selection,
        step.after(stages, count).tokens == step.tokens,
        step.after(stages, count).start == step.start,
        step.after(stages, count).progress() == (if count <= step.stage_count() {
            count
        } else {
            step.stage_count()
        }),
        step.after(stages, count).complete() == (count >= step.stage_count()),
    decreases count,
{
    let width = step.layout.main_blocks + 2;
    let total = step.stage_count();
    if count == 0 {
        assert(0 * width == 0) by (nonlinear_arith);
        assert(total == 0 <==> step.tokens.len() == 0) by (nonlinear_arith)
            requires
                total == step.tokens.len() * width,
                width > 0,
        ;
    } else {
        lemma_after(step, stages, (count - 1) as nat);
        let before = step.after(stages, (count - 1) as nat);
        let after = before.following(stages);
        let index = before.token_index;
        let tokens = step.tokens.len() as int;
        assert((index + 1) * width == index * width + width) by (nonlinear_arith);
        if !before.complete() {
            assert(index * width + width <= tokens * width) by (nonlinear_arith)
                requires
                    index + 1 <= tokens,
                    width > 0,
            ;
        }
        if !after.complete() {
            let next = after.token_index;
            assert(next * width + width <= tokens * width) by (nonlinear_arith)
                requires
                    next + 1 <= tokens,
                    width > 0,
            ;
        }
    }
}

/// A complete step is the served one, however many stages it took to notice.
pub proof fn lemma_served<R, P>(
    session: Qwen35Execution<R, P>,
    tokens: Seq<u32>,
    stages: StageFunctions<R, P>,
    count: nat,
)
    requires
        opened_step(session, tokens).after(stages, count).complete(),
    ensures
        opened_step(session, tokens).after(stages, count) == opened_step(session, tokens).served(
            stages,
        ),
        opened_step(session, tokens).served(stages).complete(),
    decreases count,
{
    let step = opened_step(session, tokens);
    lemma_after(step, stages, count);
    if count > step.stage_count() {
        lemma_after(step, stages, (count - 1) as nat);
        lemma_served(session, tokens, stages, (count - 1) as nat);
    }
}

/// Two steps one after the other, as one.
pub open spec fn joined<R, P>(first: StepModel<R, P>, second: StepModel<R, P>) -> StepModel<
    R,
    P,
> {
    StepModel {
        tokens: first.tokens + second.tokens,
        start: first.start,
        token_index: first.tokens.len() + second.token_index,
        logits: first.logits + second.logits,
        ..second
    }
}

proof fn lemma_front_stages<R, P>(
    step: StepModel<R, P>,
    stages: StageFunctions<R, P>,
    chunk: int,
    count: nat,
)
    requires
        step.placed(),
        step.token_index == 0,
        step.stage == StepStage::Embed,
        step.selection == Qwen35LogitSelection::AllTokens,
        0 < chunk <= step.tokens.len(),
        count <= step.front(chunk).stage_count(),
    ensures
        step.after(stages, count).front(chunk) == step.front(chunk).after(stages, count),
    decreases count,
{
    if count > 0 {
        let less = (count - 1) as nat;
        lemma_front_stages(step, stages, chunk, less);
        lemma_after(step, stages, less);
        lemma_after(step.front(chunk), stages, less);
        let whole = step.after(stages, less);
        let front = step.front(chunk).after(stages, less);
        assert(whole.tokens.take(chunk)[whole.token_index] == whole.tokens[whole.token_index]);
        assert(whole.following(stages).front(chunk) == front.following(stages));
    }
}

proof fn lemma_tail_stages<R, P>(
    first: StepModel<R, P>,
    second: StepModel<R, P>,
    stages: StageFunctions<R, P>,
    count: nat,
)
    requires
        second.placed(),
        second.token_index == 0,
        second.stage == StepStage::Embed,
        second.selection == Qwen35LogitSelection::AllTokens,
        second.start == first.start + first.tokens.len(),
    ensures
        joined(first, second).after(stages, count) == joined(first, second.after(stages, count)),
    decreases count,
{
    if count > 0 {
        let less = (count - 1) as nat;
        lemma_tail_stages(first, second, stages, less);
        lemma_after(second, stages, less);
        let part = second.after(stages, less);
        let whole = joined(first, part);
        if !part.complete() {
            assert(whole.tokens[whole.token_index] == part.tokens[part.token_index]);
        }
        assert forall|row: Seq<u32>| #[trigger] whole.next_token(row) == joined(
            first,
            part.next_token(row),
        ) by {
            assert((first.logits + part.logits) + row =~= first.logits + (part.logits + row));
        }
        assert(whole.following(stages) == joined(first, part.following(stages)));
    }
}

proof fn lemma_after_adds<R, P>(
    step: StepModel<R, P>,
    stages: StageFunctions<R, P>,
    first: nat,
    second: nat,
)
    ensures
        step.after(stages, first + second) == step.after(stages, first).after(stages, second),
    decreases second,
{
    if second > 0 {
        lemma_after_adds(step, stages, first, (second - 1) as nat);
        assert((first + second - 1) as nat == first + ((second - 1) as nat));
    }
}

/// One step over joined chunks does what the steps over the chunks do one after the
/// other: it returns their logit rows in order, and leaves the session in the same
/// state.
pub proof fn lemma_joined_chunks<R, P>(
    stages: StageFunctions<R, P>,
    whole: Qwen35Execution<R, P>,
    whole_after: Qwen35Execution<R, P>,
    split: Qwen35Execution<R, P>,
    split_between: Qwen35Execution<R, P>,
    split_after: Qwen35Execution<R, P>,
    first: Seq<u32>,
    second: Seq<u32>,
)
    requires
        equal_state(whole, split),
        whole.spec_selection() == Qwen35LogitSelection::AllTokens,
        split.spec_selection() == Qwen35LogitSelection::AllTokens,
        first.len() > 0,
        second.len() > 0,
        whole_after.published_from(whole, opened_step(whole, first + second).served(stages)),
        split_between.published_from(split, opened_step(split, first).served(stages)),
        split_after.published_from(
            split_between,
            opened_step(split_between, second).served(stages),
        ),
    ensures
        opened_step(whole, first + second).served(stages).logits == opened_step(
            split,
            first,
        ).served(stages).logits + opened_step(split_between, second).served(stages).logits,
        equal_state(whole_after, split_after),
{
    let long = opened_step(whole, first + second);
    let head = opened_step(split, first);
    let tail = opened_step(split_between, second);
    let width = whole.spec_layout().main_blocks as nat + 2;
    let chunk = first.len() as int;
    assert(long.front(chunk) == head) by {
        assert((first + second).take(chunk) =~= first);
    }
    let head_count = head.stage_count();
    lemma_after(head, stages, head_count);
    lemma_after(long, stages, head_count);
    lemma_front_stages(long, stages, chunk, head_count);
    let middle = long.after(stages, head_count);
    let done = head.served(stages);
    assert(middle.front(chunk) == done);
    assert(middle == joined(done, tail)) by {
        assert(middle.token_index == done.token_index == chunk);
        assert(done.logits + Seq::<u32>::empty() =~= done.logits);
    }
    let tail_count = tail.stage_count();
    lemma_tail_stages(done, tail, stages, tail_count);
    lemma_after(tail, stages, tail_count);
    lemma_after_adds(long, stages, head_count, tail_count);
    assert(long.stage_count() == head_count + tail_count) by (nonlinear_arith)
        requires
            long.stage_count() == (first.len() + second.len()) * width,
            head_count == first.len() * width,
            tail_count == second.len() * width,
    ;
    assert(long.served(stages) == joined(done, tail.served(stages)));
}

proof fn lemma_selected_stages<R, P>(
    all: StepModel<R, P>,
    last: StepModel<R, P>,
    stages: StageFunctions<R, P>,
    count: nat,
)
    requires
        all.placed(),
        all.token_index == 0,
        all.stage == StepStage::Embed,
        all.tokens.len() > 0,
        all.selection == Qwen35LogitSelection::AllTokens,
        all.logits == Seq::<u32>::empty(),
        last == (StepModel { selection: Qwen35LogitSelection::LastToken, ..all }),
        count <= all.stage_count(),
    ensures
        ({
            let full = all.after(stages, count);
            let short = last.after(stages, count);
            &&& short == (StepModel {
                selection: Qwen35LogitSelection::LastToken,
                logits: short.logits,
                ..full
            })
            &&& !full.complete() ==> short.logits == Seq::<u32>::empty()
            &&& full.complete() ==> short.logits.len() <= full.logits.len() && short.logits
                == full.logits.skip(full.logits.len() - short.logits.len())
        }),
    decreases count,
{
    lemma_after(all, stages, count);
    if count > 0 {
        let less = (count - 1) as nat;
        lemma_selected_stages(all, last, stages, less);
        lemma_after(all, stages, less);
        let full = all.after(stages, less);
        let short = last.after(stages, less);
        let next = full.following(stages);
        if full.action() is Head {
            let row = (stages.head)(full.hidden);
            assert(next.logits =~= full.logits + row);
            let short_next = short.following(stages);
            if next.complete() {
                assert(short_next.logits =~= row);
                assert(next.logits.skip(next.logits.len() - row.len()) =~= row);
            } else {
                assert(short_next.logits =~= Seq::<u32>::empty());
            }
        }
    }
}

/// The logit selection changes only the rows that a step returns: two sessions in
/// equal state end in equal state after the same tokens, and the last row alone is
/// the last of all rows.
pub proof fn lemma_selection_changes_rows<R, P>(
    stages: StageFunctions<R, P>,
    all: Qwen35Execution<R, P>,
    all_after: Qwen35Execution<R, P>,
    last: Qwen35Execution<R, P>,
    last_after: Qwen35Execution<R, P>,
    tokens: Seq<u32>,
)
    requires
        equal_state(all, last),
        all.spec_selection() == Qwen35LogitSelection::AllTokens,
        last.spec_selection() == Qwen35LogitSelection::LastToken,
        tokens.len() > 0,
        opened_step(all, tokens).served(stages).fits(),
        opened_step(last, tokens).served(stages).fits(),
        all_after.published_from(all, opened_step(all, tokens).served(stages)),
        last_after.published_from(last, opened_step(last, tokens).served(stages)),
    ensures
        ({
            let vocabulary = all.spec_layout().vocabulary as int;
            let all_rows = opened_step(all, tokens).served(stages).logits;
            let last_row = opened_step(last, tokens).served(stages).logits;
            &&& all_rows.len() == tokens.len() * vocabulary
            &&& last_row.len() == vocabulary
            &&& last_row == all_rows.skip((tokens.len() - 1) * vocabulary)
        }),
        equal_state(all_after, last_after),
        all_after.position() == all.position() + tokens.len(),
{
    let full = opened_step(all, tokens);
    let short = opened_step(last, tokens);
    let vocabulary = all.spec_layout().vocabulary as int;
    let count = full.stage_count();
    lemma_after(full, stages, count);
    lemma_after(short, stages, count);
    lemma_selected_stages(full, short, stages, count);
    assert(tokens.len() * vocabulary - vocabulary == (tokens.len() - 1) * vocabulary)
        by (nonlinear_arith);
    assert(1 * vocabulary == vocabulary);
}

} // verus!
