//! What whole Qwen3 passes do, whatever their numerical stages compute.
//!
//! A stage is a function of what it is handed. Under any such functions, a pass is
//! stateless, and every row depends on itself and on earlier rows alone.

use crate::qwen3::Layout;
use crate::qwen35_execution;
use crate::qwen3_execution::Qwen3AllocationShape;
use crate::qwen3_pass;
use crate::qwen3_pass::{PassModel, PassStage};
use crate::qwen3_token::{FeedForwardModel, TokenModel};
use vstd::prelude::*;

verus! {

/// What the numerical stages of a pass compute.
pub struct PassFunctions {
    /// The embedding row of a token.
    pub embed: spec_fn(u32) -> Seq<u32>,
    /// The rotated query and key and the value of a hidden row of a block, at the
    /// position of a token.
    pub project: spec_fn(usize, usize, Seq<u32>) -> (Seq<u32>, Seq<u32>, Seq<u32>),
    /// The projected attention output of a block, from a query and the visible keys
    /// and values.
    pub attend: spec_fn(usize, Seq<u32>, Seq<u32>, Seq<u32>) -> Seq<u32>,
    /// The feed-forward output of a hidden row of a block.
    pub feed_forward: spec_fn(usize, Seq<u32>) -> Seq<u32>,
    /// The sum of two values.
    pub sum: spec_fn(u32, u32) -> u32,
    /// The normalized final row.
    pub normalize: spec_fn(Seq<u32>) -> Seq<u32>,
}

impl PassFunctions {
    /// Whether every row has the width of the model.
    pub open spec fn fit(self, layout: Layout) -> bool {
        &&& forall|block: usize, token: usize, row: Seq<u32>|
            #![trigger (self.project)(block, token, row)]
            (self.project)(block, token, row).1.len() == layout.kv_width && (self.project)(
                block,
                token,
                row,
            ).2.len() == layout.kv_width
        &&& forall|block: usize, query: Seq<u32>, keys: Seq<u32>, values: Seq<u32>|
            (#[trigger] (self.attend)(block, query, keys, values)).len() == layout.hidden
        &&& forall|block: usize, row: Seq<u32>|
            (#[trigger] (self.feed_forward)(block, row)).len() == layout.hidden
    }
}

impl PassModel {
    /// The hidden rows with the residual added.
    pub open spec fn sums(self, functions: PassFunctions) -> Seq<u32> {
        Seq::new(
            self.hidden.len(),
            |i: int| (functions.sum)(self.hidden[i], self.residual[i]),
        )
    }

    /// The pass once its stage is complete.
    pub open spec fn advanced(self, functions: PassFunctions) -> PassModel {
        let kv_width = self.layout.kv_width as int;
        let length = self.tokens.len() * self.layout.kv_width;
        match self.stage {
            PassStage::Embed { token } => PassModel {
                stage: self.following(),
                hidden: self.hidden + (functions.embed)(self.tokens[token as int]),
                ..self
            },
            PassStage::OpenBlock { .. } => PassModel {
                stage: self.following(),
                keys: qwen3_pass::zeros(length),
                values: qwen3_pass::zeros(length),
                residual: seq![],
                ..self
            },
            PassStage::Project { block, token } => {
                let (query, key, value) = (functions.project)(
                    block,
                    token,
                    self.hidden_row(token as int),
                );
                PassModel {
                    stage: self.following(),
                    keys: qwen3_pass::spliced(self.keys, token * kv_width, key),
                    values: qwen3_pass::spliced(self.values, token * kv_width, value),
                    query,
                    ..self
                }
            },
            PassStage::Attend { block, token } => PassModel {
                stage: self.following(),
                residual: self.residual + (functions.attend)(
                    block,
                    self.query,
                    self.keys.take((token + 1) * kv_width),
                    self.values.take((token + 1) * kv_width),
                ),
                ..self
            },
            PassStage::AddAttention { .. } | PassStage::AddFeedForward { .. } => PassModel {
                stage: self.following(),
                hidden: self.sums(functions),
                ..self
            },
            PassStage::OpenFeedForward { .. } => PassModel {
                stage: self.following(),
                residual: seq![],
                ..self
            },
            PassStage::FeedForward { block, token } => PassModel {
                stage: self.following(),
                residual: self.residual + (functions.feed_forward)(
                    block,
                    self.hidden_row(token as int),
                ),
                ..self
            },
            PassStage::Normalize => PassModel {
                stage: self.following(),
                output: (functions.normalize)(self.hidden.skip(qwen3_pass::last_start(self))),
                ..self
            },
            PassStage::Finished => self,
        }
    }

    /// The pass once a number of stages are complete.
    pub open spec fn after(self, functions: PassFunctions, count: nat) -> PassModel
        decreases count,
    {
        if count == 0 {
            self
        } else {
            self.after(functions, (count - 1) as nat).advanced(functions)
        }
    }

    /// The number of stages of a whole pass.
    pub open spec fn stage_count(self) -> nat {
        (self.tokens.len() + self.layout.blocks * (3 * self.tokens.len() + 4) + 1) as nat
    }
}

proof fn lemma_position(pass: PassModel, functions: PassFunctions, count: nat)
    requires
        0 < pass.tokens.len() <= usize::MAX,
        0 < pass.layout.blocks,
        pass.stage == (PassStage::Embed { token: 0 }),
    ensures
        ({
            let after = pass.after(functions, count);
            let tokens = pass.tokens.len() as int;
            let blocks = pass.layout.blocks as int;
            &&& after.layout == pass.layout
            &&& after.tokens == pass.tokens
            &&& qwen3_pass::stage_wf(after.stage, tokens, blocks)
            &&& after.stage is Finished <==> count >= pass.stage_count()
            &&& !(after.stage is Finished) ==> qwen3_pass::stage_position(
                after.stage,
                tokens,
                blocks,
            ) == count
        }),
    decreases count,
{
    let tokens = pass.tokens.len() as int;
    let blocks = pass.layout.blocks as int;
    assert(blocks * (3 * tokens + 4) > 0) by (nonlinear_arith)
        requires
            blocks > 0,
            tokens > 0,
    ;
    if count > 0 {
        let less = (count - 1) as nat;
        lemma_position(pass, functions, less);
        let before = pass.after(functions, less);
        if before.stage != PassStage::Finished {
            qwen3_pass::lemma_stage_advances(before.stage, tokens, blocks);
            lemma_before_finish(before.advanced(functions).stage, tokens, blocks);
        }
    }
}

proof fn lemma_before_finish(stage: PassStage, tokens: int, blocks: int)
    requires
        0 < tokens,
        0 < blocks,
        qwen3_pass::stage_wf(stage, tokens, blocks),
    ensures
        qwen3_pass::stage_position(stage, tokens, blocks) <= tokens + blocks * (3 * tokens + 4) + 1,
        qwen3_pass::stage_position(stage, tokens, blocks) == tokens + blocks * (3 * tokens + 4) + 1
            <==> stage is Finished,
{
    let width = 3 * tokens + 4;
    assert(blocks * width > 0) by (nonlinear_arith)
        requires
            blocks > 0,
            width > 0,
    ;
    let block: int = match stage {
        PassStage::OpenBlock { block } => block as int,
        PassStage::Project { block, .. } => block as int,
        PassStage::Attend { block, .. } => block as int,
        PassStage::AddAttention { block } => block as int,
        PassStage::OpenFeedForward { block } => block as int,
        PassStage::FeedForward { block, .. } => block as int,
        PassStage::AddFeedForward { block } => block as int,
        _ => 0,
    };
    assert(block * width + width <= blocks * width) by (nonlinear_arith)
        requires
            block + 1 <= blocks,
            width > 0,
    ;
}

/// Whether states are those of a pass from one stage to the next until it is finished.
pub open spec fn whole_run(states: Seq<PassModel>, functions: PassFunctions) -> bool {
    &&& states.len() > 0
    &&& states.last().stage is Finished
    &&& forall|i: int|
        0 <= i < states.len() - 1 ==> {
            &&& (#[trigger] states[i]).stage !is Finished
            &&& states[i + 1] == states[i].advanced(functions)
        }
}

proof fn lemma_run_states(states: Seq<PassModel>, functions: PassFunctions, count: int)
    requires
        whole_run(states, functions),
        0 <= count < states.len(),
    ensures
        states[count] == states[0].after(functions, count as nat),
    decreases count,
{
    if count > 0 {
        lemma_run_states(states, functions, count - 1);
        assert(states[count - 1].stage !is Finished);
    }
}

proof fn lemma_run_length(
    layout: Layout,
    tokens: Seq<u32>,
    states: Seq<PassModel>,
    functions: PassFunctions,
)
    requires
        layout.wf(),
        0 < tokens.len() <= usize::MAX,
        whole_run(states, functions),
        states[0] == qwen3_pass::begun(layout, tokens),
    ensures
        states.len() == states[0].stage_count() + 1,
{
    let last = states.len() - 1;
    lemma_run_states(states, functions, last);
    lemma_position(states[0], functions, last as nat);
    if last > 0 {
        lemma_run_states(states, functions, last - 1);
        lemma_position(states[0], functions, (last - 1) as nat);
        assert(states[last - 1].stage !is Finished);
    }
}

/// A pass is stateless: two whole passes over the same tokens wait for the same stages
/// with the same contents, whatever ran in between, and end in the same row.
pub proof fn lemma_passes_repeat(
    layout: Layout,
    tokens: Seq<u32>,
    functions: PassFunctions,
    first: Seq<PassModel>,
    second: Seq<PassModel>,
)
    requires
        layout.wf(),
        0 < tokens.len() <= usize::MAX,
        whole_run(first, functions),
        whole_run(second, functions),
        first[0] == qwen3_pass::begun(layout, tokens),
        second[0] == qwen3_pass::begun(layout, tokens),
    ensures
        first == second,
        first.last().output == second.last().output,
        first.len() == first[0].stage_count() + 1,
{
    lemma_run_length(layout, tokens, first, functions);
    lemma_run_length(layout, tokens, second, functions);
    assert forall|i: int| 0 <= i < first.len() implies #[trigger] first[i] == second[i] by {
        lemma_run_states(first, functions, i);
        lemma_run_states(second, functions, i);
    }
    assert(first =~= second);
}

/// Whether two passes over as many tokens agree on their first rows.
pub open spec fn agree(left: PassModel, right: PassModel, rows: int) -> bool {
    let tokens = left.tokens.len() as int;
    let hidden = left.layout.hidden as int;
    let kv_width = left.layout.kv_width as int;
    &&& left.layout == right.layout
    &&& left.stage == right.stage
    &&& left.stage !is Embed
    &&& qwen3_pass::stage_wf(left.stage, tokens, left.layout.blocks as int)
    &&& 0 <= rows <= tokens
    &&& 0 < tokens == right.tokens.len() <= usize::MAX
    &&& 0 < left.layout.blocks
    &&& left.hidden.len() == right.hidden.len() == tokens * hidden
    &&& forall|i: int| 0 <= i < rows * hidden ==> #[trigger] left.hidden[i] == right.hidden[i]
    &&& match left.stage {
        PassStage::Project { token, .. } | PassStage::Attend { token, .. }
        | PassStage::FeedForward { token, .. } => left.residual.len() == right.residual.len()
            == token * hidden,
        PassStage::AddAttention { .. } | PassStage::AddFeedForward { .. } => left.residual.len()
            == right.residual.len() == tokens * hidden,
        _ => true,
    }
    &&& match left.stage {
        PassStage::OpenBlock { .. } | PassStage::OpenFeedForward { .. } | PassStage::Normalize
        | PassStage::Finished => true,
        _ => forall|i: int|
            0 <= i < rows * hidden && i < left.residual.len() ==> #[trigger] left.residual[i]
                == right.residual[i],
    }
    &&& match left.stage {
        PassStage::Project { .. } | PassStage::Attend { .. } => {
            &&& left.keys.len() == right.keys.len() == tokens * kv_width
            &&& left.values.len() == right.values.len() == tokens * kv_width
            &&& forall|i: int| 0 <= i < rows * kv_width ==> #[trigger] left.keys[i] == right.keys[i]
            &&& forall|i: int|
                0 <= i < rows * kv_width ==> #[trigger] left.values[i] == right.values[i]
        },
        _ => true,
    }
    &&& left.stage matches PassStage::Attend { token, .. } ==> token < rows ==> left.query
        == right.query
}

proof fn lemma_row_bounds(row: int, rows: int, width: int)
    requires
        0 <= row < rows,
        0 <= width,
    ensures
        0 <= row * width,
        (row + 1) * width == row * width + width,
        (row + 1) * width <= rows * width,
{
    assert(0 <= row * width) by (nonlinear_arith)
        requires
            0 <= row,
            0 <= width,
    ;
    assert((row + 1) * width == row * width + width) by (nonlinear_arith);
    assert((row + 1) * width <= rows * width) by (nonlinear_arith)
        requires
            row + 1 <= rows,
            0 <= width,
    ;
}

proof fn lemma_stage_agrees(
    left: PassModel,
    right: PassModel,
    functions: PassFunctions,
    rows: int,
)
    requires
        agree(left, right, rows),
        functions.fit(left.layout),
    ensures
        agree(left.advanced(functions), right.advanced(functions), rows),
{
    let tokens = left.tokens.len() as int;
    let hidden = left.layout.hidden as int;
    let kv_width = left.layout.kv_width as int;
    if left.stage != PassStage::Finished {
        qwen3_pass::lemma_stage_advances(left.stage, tokens, left.layout.blocks as int);
    }
    assert(0 <= rows * hidden <= tokens * hidden && 0 <= rows * kv_width <= tokens * kv_width)
        by (nonlinear_arith)
        requires
            0 <= rows <= tokens,
            0 <= hidden,
            0 <= kv_width,
    ;
    assert(0 * hidden == 0);
    match left.stage {
        PassStage::Project { block, token } => {
            lemma_row_bounds(token as int, tokens, hidden);
            lemma_row_bounds(token as int, tokens, kv_width);
            if token < rows {
                lemma_row_bounds(token as int, rows, hidden);
                assert(left.hidden_row(token as int) =~= right.hidden_row(token as int));
            } else {
                assert(rows * kv_width <= token * kv_width) by (nonlinear_arith)
                    requires
                        rows <= token,
                        0 <= kv_width,
                ;
            }
        },
        PassStage::Attend { block, token } => {
            lemma_row_bounds(token as int, tokens, hidden);
            lemma_row_bounds(token as int, tokens, kv_width);
            if token < rows {
                lemma_row_bounds(token as int, rows, kv_width);
                let end = (token + 1) * kv_width;
                assert(left.keys.take(end) =~= right.keys.take(end));
                assert(left.values.take(end) =~= right.values.take(end));
            } else {
                assert(rows * hidden <= token * hidden) by (nonlinear_arith)
                    requires
                        rows <= token,
                        0 <= hidden,
                ;
            }
        },
        PassStage::FeedForward { block, token } => {
            lemma_row_bounds(token as int, tokens, hidden);
            if token < rows {
                lemma_row_bounds(token as int, rows, hidden);
                assert(left.hidden_row(token as int) =~= right.hidden_row(token as int));
            } else {
                assert(rows * hidden <= token * hidden) by (nonlinear_arith)
                    requires
                        rows <= token,
                        0 <= hidden,
                ;
            }
        },
        _ => {},
    }
}

/// The stage of a block's run after a number of its stages.
pub open spec fn block_stage(block: usize, tokens: int, blocks: int, count: int) -> PassStage {
    if count <= 0 {
        PassStage::OpenBlock { block }
    } else if count <= 2 * tokens {
        let token = ((count - 1) / 2) as usize;
        if (count - 1) % 2 == 0 {
            PassStage::Project { block, token }
        } else {
            PassStage::Attend { block, token }
        }
    } else if count == 2 * tokens + 1 {
        PassStage::AddAttention { block }
    } else if count == 2 * tokens + 2 {
        PassStage::OpenFeedForward { block }
    } else if count <= 3 * tokens + 2 {
        PassStage::FeedForward { block, token: (count - 2 * tokens - 3) as usize }
    } else if count == 3 * tokens + 3 {
        PassStage::AddFeedForward { block }
    } else {
        qwen3_pass::next_stage(PassStage::AddFeedForward { block }, tokens, blocks)
    }
}

/// A block's run is `3 * tokens + 4` stages: it opens the block, serves every token's
/// attention and then every token's feed-forward network in order, and ends at the
/// next block or at the final normalization.
pub proof fn lemma_block_run(pass: PassModel, functions: PassFunctions, block: usize, count: nat)
    requires
        pass.wf(),
        pass.stage == (PassStage::OpenBlock { block }),
        count <= 3 * pass.tokens.len() + 4,
    ensures
        pass.after(functions, count).stage == block_stage(
            block,
            pass.tokens.len() as int,
            pass.layout.blocks as int,
            count as int,
        ),
        pass.after(functions, count).tokens == pass.tokens,
        pass.after(functions, count).layout == pass.layout,
    decreases count,
{
    if count > 0 {
        lemma_block_run(pass, functions, block, (count - 1) as nat);
    }
}

/// Rows are causal: where the hidden rows of two passes agree on their first rows
/// before a block, they agree on them after any number of stages, and so after the
/// block. A row depends only on itself and on earlier rows, and the number of hidden
/// values never changes.
pub proof fn lemma_rows_are_causal(
    left: PassModel,
    right: PassModel,
    functions: PassFunctions,
    rows: int,
    count: nat,
)
    requires
        left.wf(),
        right.wf(),
        left.stage is OpenBlock,
        left.layout == right.layout,
        left.stage == right.stage,
        left.tokens.len() == right.tokens.len(),
        functions.fit(left.layout),
        0 <= rows <= left.tokens.len(),
        left.hidden.take(rows * left.layout.hidden) == right.hidden.take(
            rows * left.layout.hidden,
        ),
    ensures
        left.after(functions, count).hidden.take(rows * left.layout.hidden) == right.after(
            functions,
            count,
        ).hidden.take(rows * left.layout.hidden),
        left.after(functions, count).hidden.len() == left.hidden.len(),
        right.after(functions, count).hidden.len() == right.hidden.len(),
{
    let width = rows * left.layout.hidden;
    assert(0 <= width <= left.tokens.len() * left.layout.hidden) by (nonlinear_arith)
        requires
            width == rows * left.layout.hidden,
            0 <= rows <= left.tokens.len(),
    ;
    assert forall|i: int| 0 <= i < width implies #[trigger] left.hidden[i] == right.hidden[i] by {
        assert(left.hidden.take(width)[i] == right.hidden.take(width)[i]);
    }
    lemma_agreement(left, right, functions, rows, count);
    let left_after = left.after(functions, count);
    let right_after = right.after(functions, count);
    assert(left_after.hidden.take(width) =~= right_after.hidden.take(width));
}

proof fn lemma_agreement(
    left: PassModel,
    right: PassModel,
    functions: PassFunctions,
    rows: int,
    count: nat,
)
    requires
        agree(left, right, rows),
        functions.fit(left.layout),
    ensures
        agree(left.after(functions, count), right.after(functions, count), rows),
        left.after(functions, count).layout == left.layout,
        left.after(functions, count).tokens == left.tokens,
    decreases count,
{
    if count > 0 {
        let less = (count - 1) as nat;
        lemma_agreement(left, right, functions, rows, less);
        lemma_stage_agrees(
            left.after(functions, less),
            right.after(functions, less),
            functions,
            rows,
        );
    }
}

impl PassFunctions {
    /// Whether every row, the query and the embedding included, has its width.
    pub open spec fn sized(self, layout: Layout) -> bool {
        &&& self.fit(layout)
        &&& forall|token: u32| (#[trigger] (self.embed)(token)).len() == layout.hidden
        &&& forall|block: usize, token: usize, row: Seq<u32>|
            #![trigger (self.project)(block, token, row)]
            (self.project)(block, token, row).0.len() == layout.q_width
    }
}

impl PassModel {
    /// The number of values that the pass holds besides its returned row.
    pub open spec fn held(self) -> int {
        (self.hidden.len() + self.keys.len() + self.values.len() + self.query.len()
            + self.residual.len()) as int
    }

    /// Whether every buffer of the pass has the extent of its stage.
    pub open spec fn sized(self) -> bool {
        let tokens = self.tokens.len() as int;
        let hidden = self.layout.hidden as int;
        let cache = tokens * self.layout.kv_width;
        &&& 0 < tokens <= usize::MAX
        &&& self.layout.wf()
        &&& qwen3_pass::stage_wf(self.stage, tokens, self.layout.blocks as int)
        &&& self.hidden.len() == (match self.stage {
            PassStage::Embed { token } => token * hidden,
            _ => tokens * hidden,
        })
        &&& self.query.len() <= self.layout.q_width
        &&& match self.stage {
            PassStage::Project { .. } | PassStage::Attend { .. } => self.keys.len()
                == self.values.len() == cache,
            _ => self.keys.len() <= cache && self.values.len() <= cache,
        }
        &&& match self.stage {
            PassStage::Project { token, .. } | PassStage::Attend { token, .. }
            | PassStage::FeedForward { token, .. } => self.residual.len() == token * hidden,
            _ => self.residual.len() <= tokens * hidden,
        }
    }
}

impl TokenModel {
    /// The number of values that a token's attention inputs hold besides the pass.
    pub open spec fn held(self) -> int {
        (self.normalized.len() + self.query.len() + self.key.len() + self.value.len()) as int
    }

    /// Whether every row is at most as wide as the model calls for.
    pub open spec fn sized(self, layout: Layout) -> bool {
        &&& self.normalized.len() <= layout.hidden
        &&& self.query.len() <= layout.q_width
        &&& self.key.len() <= layout.kv_width
        &&& self.value.len() <= layout.kv_width
    }
}

impl FeedForwardModel {
    /// The number of values that a token's feed-forward output holds besides the pass.
    pub open spec fn held(self) -> int {
        (self.normalized.len() + self.gate.len() + self.up.len() + self.fused.len()
            + self.down.len()) as int
    }

    /// Whether every row is at most as wide as the model calls for.
    pub open spec fn sized(self, layout: Layout) -> bool {
        &&& self.normalized.len() <= layout.hidden
        &&& self.gate.len() <= layout.feed_forward
        &&& self.up.len() <= layout.feed_forward
        &&& self.fused.len() <= layout.feed_forward
        &&& self.down.len() <= layout.hidden
    }
}

proof fn lemma_stage_is_sized(pass: PassModel, functions: PassFunctions)
    requires
        pass.sized(),
        functions.sized(pass.layout),
    ensures
        pass.advanced(functions).sized(),
        pass.advanced(functions).layout == pass.layout,
        pass.advanced(functions).tokens == pass.tokens,
{
    let tokens = pass.tokens.len() as int;
    let hidden = pass.layout.hidden as int;
    let kv_width = pass.layout.kv_width as int;
    if pass.stage != PassStage::Finished {
        qwen3_pass::lemma_stage_advances(pass.stage, tokens, pass.layout.blocks as int);
    }
    assert(0 * hidden == 0);
    assert(0 <= tokens * hidden && 0 <= tokens * kv_width) by (nonlinear_arith)
        requires
            0 <= tokens,
            0 <= hidden,
            0 <= kv_width,
    ;
    match pass.stage {
        PassStage::Embed { token } => {
            lemma_row_bounds(token as int, tokens, hidden);
        },
        PassStage::Project { token, .. } => {
            lemma_row_bounds(token as int, tokens, kv_width);
            lemma_row_bounds(token as int, tokens, hidden);
        },
        PassStage::Attend { token, .. } | PassStage::FeedForward { token, .. } => {
            lemma_row_bounds(token as int, tokens, hidden);
        },
        _ => {},
    }
}

proof fn lemma_states_are_sized(
    layout: Layout,
    tokens: Seq<u32>,
    functions: PassFunctions,
    count: nat,
)
    requires
        layout.wf(),
        0 < tokens.len() <= usize::MAX,
        functions.sized(layout),
    ensures
        qwen3_pass::begun(layout, tokens).after(functions, count).sized(),
        qwen3_pass::begun(layout, tokens).after(functions, count).layout == layout,
        qwen3_pass::begun(layout, tokens).after(functions, count).tokens == tokens,
    decreases count,
{
    if count == 0 {
        assert(0 * layout.hidden == 0);
        assert(0 <= tokens.len() * layout.hidden && 0 <= tokens.len() * layout.kv_width)
            by (nonlinear_arith);
    } else {
        lemma_states_are_sized(layout, tokens, functions, (count - 1) as nat);
        lemma_stage_is_sized(
            qwen3_pass::begun(layout, tokens).after(functions, (count - 1) as nat),
            functions,
        );
    }
}

/// A receipt covers its passes: whatever a pass over a number of tokens and the
/// attention inputs or the feed-forward output of its current token hold together fits
/// the workspace of the number of tokens, at every stage.
pub proof fn lemma_workspace_covers(
    layout: Layout,
    tokens: Seq<u32>,
    functions: PassFunctions,
    count: nat,
    shape: Qwen3AllocationShape,
    inputs: TokenModel,
    output: FeedForwardModel,
)
    requires
        layout.wf(),
        0 < tokens.len() <= usize::MAX,
        functions.sized(layout),
        shape.wf(layout),
        shape.tokens == tokens.len(),
        inputs.sized(layout),
        output.sized(layout),
    ensures
        qwen3_pass::begun(layout, tokens).after(functions, count).held() + inputs.held()
            <= qwen35_execution::total(shape.workspace()),
        qwen3_pass::begun(layout, tokens).after(functions, count).held() + output.held()
            <= qwen35_execution::total(shape.workspace()),
{
    lemma_states_are_sized(layout, tokens, functions, count);
    let pass = qwen3_pass::begun(layout, tokens).after(functions, count);
    let rows = tokens.len() as int;
    let hidden = layout.hidden as int;
    match pass.stage {
        PassStage::Embed { token } => {
            lemma_row_bounds(token as int, rows, hidden);
        },
        PassStage::Project { token, .. } | PassStage::Attend { token, .. }
        | PassStage::FeedForward { token, .. } => {
            lemma_row_bounds(token as int, rows, hidden);
        },
        _ => {},
    }
    reveal_with_fuel(qwen35_execution::total, 20);
}

} // verus!
