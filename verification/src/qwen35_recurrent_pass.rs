//! The order, arrangements, and checks of one recurrent block step.
//!
//! A kernel computes the values, given as `f32` bit patterns; a pass says which
//! come next, lays them out for the recurrence, and refuses what is not finite.

use crate::arrangement;
use crate::error::Error;
use crate::float_bits;
use crate::float_bits::is_finite;
use crate::qwen35::{ATTN_GATE_ROLE, ATTN_QKV_ROLE, SSM_ALPHA_ROLE, SSM_BETA_ROLE, SSM_OUT_ROLE};
use crate::qwen35_recurrent;
use crate::qwen35_recurrent::{
    block_tensor_name, checked_product, ensure_finite, heads_from_tokens, heads_to_tokens,
    tile_key_heads, ExecutionLayout, Qwen35RecurrentExecution, RecurrentOutput,
};
use crate::text;
use vstd::prelude::*;

verus! {

impl ExecutionLayout {
    /// Whether every extent that values are divided by is positive.
    pub open spec fn positive(self) -> bool {
        &&& self.hidden > 0
        &&& self.key_head_count > 0
        &&& self.value_head_count > 0
        &&& self.conv_width > 0
        &&& 2 * self.key_width <= usize::MAX
    }

    /// Report whether every extent that values are divided by is positive.
    pub fn is_positive(self) -> (is: bool)
        ensures
            is == self.positive(),
    {
        self.hidden > 0 && self.key_head_count > 0 && self.value_head_count > 0 && self.conv_width
            > 0 && self.key_width <= usize::MAX / 2
    }
}

/// Whether every value is finite.
pub open spec fn all_finite(values: Seq<u32>) -> bool {
    forall|i: int| 0 <= i < values.len() ==> float_bits::finite(#[trigger] values[i])
}

/// Whether an error refuses the first value of a stage that is not finite.
pub open spec fn nonfinite(values: Seq<u32>, stage: &'static str, error: Error) -> bool {
    exists|i: int| #[trigger] qwen35_recurrent::refuses_value(values, stage, 0, i, error)
}

/// Why heads cannot be laid out head by head, if they cannot.
pub open spec fn arrange_failure(
    length: int,
    token_count: usize,
    channel_count: usize,
    channel_offset: usize,
    head_count: usize,
    head_width: usize,
) -> Option<Error> {
    if let Some(error) = qwen35_recurrent::extent_failure(
        token_count,
        head_count,
        head_width,
        "recurrent head tokens",
        "recurrent head values",
    ) {
        Some(error)
    } else {
        qwen35_recurrent::heads_failure(
            qwen35_recurrent::offered_tokens(length, token_count as int, channel_count as int),
            channel_count,
            channel_offset,
            head_count as int,
            head_width,
        )
    }
}

/// Whether the layout of heads head by head is refused with an error: they do not fit,
/// or the allocator refuses their list.
pub open spec fn arrange_refused(
    length: int,
    token_count: usize,
    channel_count: usize,
    channel_offset: usize,
    head_count: usize,
    head_width: usize,
    error: Error,
) -> bool {
    ||| arrange_failure(
        length,
        token_count,
        channel_count,
        channel_offset,
        head_count,
        head_width,
    ) == Some(error)
    ||| {
        &&& 0 < token_count * head_count * head_width <= usize::MAX
        &&& error.recurrent_allocation(
            "head-major recurrence input",
            (token_count * head_count * head_width) as usize,
        )
    }
}

/// Heads laid out head by head.
pub open spec fn arranged(
    values: Seq<u32>,
    token_count: usize,
    channel_count: usize,
    channel_offset: usize,
    head_count: usize,
    head_width: usize,
) -> Seq<u32> {
    arrangement::head_major(
        values,
        qwen35_recurrent::offered_tokens(
            values.len() as int,
            token_count as int,
            channel_count as int,
        ),
        channel_count as int,
        channel_offset as int,
        head_count as int,
        head_width as int,
    )
}

/// Lay out heads head by head.
pub fn arrange_heads(
    values: &[u32],
    token_count: usize,
    channel_count: usize,
    channel_offset: usize,
    head_count: usize,
    head_width: usize,
) -> (heads: Result<Vec<u32>, Error>)
    requires
        channel_count > 0,
    ensures
        match heads {
            Ok(heads) => {
                &&& arrange_failure(
                    values@.len() as int,
                    token_count,
                    channel_count,
                    channel_offset,
                    head_count,
                    head_width,
                ) is None
                &&& heads@ == arranged(
                    values@,
                    token_count,
                    channel_count,
                    channel_offset,
                    head_count,
                    head_width,
                )
            },
            Err(error) => arrange_refused(
                values@.len() as int,
                token_count,
                channel_count,
                channel_offset,
                head_count,
                head_width,
                error,
            ),
        },
{
    heads_from_tokens(
        values,
        token_count,
        channel_count,
        channel_offset,
        head_count,
        head_width,
    )
}

/// Why key heads cannot be tiled over the value heads, if they cannot.
pub open spec fn tiling_failure(layout: ExecutionLayout, length: int, token_count: usize) -> Option<
    Error,
> {
    if let Some(error) = qwen35_recurrent::extent_failure(
        layout.value_head_count,
        token_count,
        layout.key_dim,
        "tiled Q/K heads",
        "tiled Q/K values",
    ) {
        Some(error)
    } else if token_count * layout.key_dim > usize::MAX {
        Some(Error::ArithmeticOverflow { context: "source Q/K head" })
    } else {
        qwen35_recurrent::tile_failure(
            length,
            (token_count * layout.key_dim) as usize,
            layout.key_head_count as int,
            layout.value_head_count as int,
        )
    }
}

/// Whether the tiling of key heads is refused with an error: they do not fit, or the
/// allocator refuses their list.
pub open spec fn tiling_refused(
    layout: ExecutionLayout,
    length: int,
    token_count: usize,
    error: Error,
) -> bool {
    let values = layout.value_head_count * token_count * layout.key_dim;
    ||| tiling_failure(layout, length, token_count) == Some(error)
    ||| {
        &&& 0 < values <= usize::MAX
        &&& error.recurrent_allocation("tiled Q/K heads", values as usize)
    }
}

/// Key heads tiled over the value heads.
pub open spec fn tiling(layout: ExecutionLayout, grouped: Seq<u32>, token_count: usize) -> Seq<
    u32,
> {
    arrangement::tiled(
        grouped,
        layout.key_head_count as int,
        layout.value_head_count as int,
        token_count * layout.key_dim,
    )
}

/// Tile key heads over the value heads.
pub fn tile_heads(layout: ExecutionLayout, grouped: &[u32], token_count: usize) -> (tiled: Result<
    Vec<u32>,
    Error,
>)
    requires
        layout.positive(),
    ensures
        match tiled {
            Ok(tiled) => {
                &&& tiling_failure(layout, grouped@.len() as int, token_count) is None
                &&& tiled@ == tiling(layout, grouped@, token_count)
            },
            Err(error) => tiling_refused(layout, grouped@.len() as int, token_count, error),
        },
{
    tile_key_heads(
        grouped,
        token_count,
        layout.key_head_count,
        layout.value_head_count,
        layout.key_dim,
    )
}

/// Why recurrence rows cannot be laid out token by token, if they cannot.
pub open spec fn rows_failure(layout: ExecutionLayout, length: int, token_count: usize) -> Option<
    Error,
> {
    if let Some(error) = qwen35_recurrent::extent_failure(
        token_count,
        layout.value_head_count,
        layout.value_dim,
        "recurrent output token heads",
        "recurrent output token values",
    ) {
        Some(error)
    } else {
        qwen35_recurrent::token_rows_failure(
            length,
            token_count as int,
            layout.value_head_count as int,
            layout.value_dim,
            token_count * layout.value_head_count,
        )
    }
}

/// Whether the layout of recurrence rows is refused with an error: they do not fit, or
/// the allocator refuses their list.
pub open spec fn rows_refused(
    layout: ExecutionLayout,
    length: int,
    token_count: usize,
    error: Error,
) -> bool {
    let values = token_count * layout.value_head_count * layout.value_dim;
    ||| rows_failure(layout, length, token_count) == Some(error)
    ||| {
        &&& 0 < values <= usize::MAX
        &&& error.recurrent_allocation("token-major recurrent output", values as usize)
    }
}

/// Recurrence rows laid out token by token.
pub open spec fn token_rows(layout: ExecutionLayout, values: Seq<u32>, token_count: usize) -> Seq<
    u32,
> {
    arrangement::token_major(
        values,
        token_count as int,
        layout.value_head_count as int,
        layout.value_dim as int,
    )
}

/// Lay out recurrence rows token by token.
pub fn arrange_rows(layout: ExecutionLayout, values: &[u32], token_count: usize) -> (rows: Result<
    Vec<u32>,
    Error,
>)
    requires
        layout.positive(),
    ensures
        match rows {
            Ok(rows) => {
                &&& rows_failure(layout, values@.len() as int, token_count) is None
                &&& rows@ == token_rows(layout, values@, token_count)
            },
            Err(error) => rows_refused(layout, values@.len() as int, token_count, error),
        },
{
    heads_to_tokens(values, token_count, layout.value_head_count, layout.value_dim)
}

/// What a recurrent pass waits for next.
#[derive(Clone, Copy, Debug, PartialEq, Eq, Structural)]
pub enum RecurrentStage {
    /// The normalized input rows.
    Normalize,
    /// The projected convolution channels.
    ProjectChannels,
    /// The projected output gating.
    ProjectGating,
    /// The projected decay inputs.
    ProjectDecay,
    /// The projected update strengths.
    ProjectStrength,
    /// The update strengths, squashed.
    Squash,
    /// The decay of every token and head.
    Decay,
    /// The convolved channels and the next history.
    Convolve,
    /// The activated channels.
    Activate,
    /// The query heads, scaled to unit length.
    ScaleQuery,
    /// The key heads, scaled to unit length.
    ScaleKey,
    /// The recurrence rows and the next state.
    Recur,
    /// The normalized recurrence rows.
    NormalizeRows,
    /// The gated recurrence rows.
    GateRows,
    /// The projected output rows.
    ProjectOutput,
    /// Nothing: the output rows and the next state are ready.
    Finished,
}

/// What a recurrent pass holds.
pub struct RecurrentModel {
    /// The geometry of the block.
    pub layout: ExecutionLayout,
    /// The main block.
    pub block_index: u64,
    /// The number of tokens of the step.
    pub token_count: usize,
    /// What the pass waits for.
    pub stage: RecurrentStage,
    /// The normalized input rows.
    pub normalized: Seq<u32>,
    /// The projected convolution channels.
    pub qkv: Seq<u32>,
    /// The projected output gating.
    pub z: Seq<u32>,
    /// The projected decay inputs.
    pub alpha: Seq<u32>,
    /// The update strengths: projected, then squashed and head by head.
    pub beta: Seq<u32>,
    /// The decays, head by head.
    pub decay: Seq<u32>,
    /// The next convolution history.
    pub history: Seq<u32>,
    /// The convolved channels, then the activated ones.
    pub convolved: Seq<u32>,
    /// The query heads, then tiled over the value heads.
    pub query: Seq<u32>,
    /// The key heads, then tiled over the value heads.
    pub key: Seq<u32>,
    /// The value heads.
    pub value: Seq<u32>,
    /// The next recurrent state.
    pub state: Seq<u32>,
    /// The recurrence rows, token by token: computed, then normalized, then gated.
    pub rows: Seq<u32>,
    /// The projected output rows.
    pub output: Seq<u32>,
}

impl RecurrentModel {
    /// The name of the matrix that the pass waits for, and the rows it is applied to.
    pub open spec fn projected(self) -> Option<(Seq<char>, Seq<u32>)> {
        let block = self.block_index as nat;
        match self.stage {
            RecurrentStage::ProjectChannels => Some(
                (text::block_name_spec(block, ATTN_QKV_ROLE@), self.normalized),
            ),
            RecurrentStage::ProjectGating => Some(
                (text::block_name_spec(block, ATTN_GATE_ROLE@), self.normalized),
            ),
            RecurrentStage::ProjectDecay => Some(
                (text::block_name_spec(block, SSM_ALPHA_ROLE@), self.normalized),
            ),
            RecurrentStage::ProjectStrength => Some(
                (text::block_name_spec(block, SSM_BETA_ROLE@), self.normalized),
            ),
            RecurrentStage::ProjectOutput => Some(
                (text::block_name_spec(block, SSM_OUT_ROLE@), self.rows),
            ),
            _ => None,
        }
    }
}

/// One recurrent block step, between two of its stages.
#[derive(Debug)]
pub struct RecurrentPass {
    layout: ExecutionLayout,
    block_index: u64,
    token_count: usize,
    stage: RecurrentStage,
    normalized: Vec<u32>,
    qkv: Vec<u32>,
    z: Vec<u32>,
    alpha: Vec<u32>,
    beta: Vec<u32>,
    decay: Vec<u32>,
    history: Vec<u32>,
    convolved: Vec<u32>,
    query: Vec<u32>,
    key: Vec<u32>,
    value: Vec<u32>,
    state: Vec<u32>,
    rows: Vec<u32>,
    output: Vec<u32>,
}

impl View for RecurrentPass {
    type V = RecurrentModel;

    closed spec fn view(&self) -> RecurrentModel {
        RecurrentModel {
            layout: self.layout,
            block_index: self.block_index,
            token_count: self.token_count,
            stage: self.stage,
            normalized: self.normalized@,
            qkv: self.qkv@,
            z: self.z@,
            alpha: self.alpha@,
            beta: self.beta@,
            decay: self.decay@,
            history: self.history@,
            convolved: self.convolved@,
            query: self.query@,
            key: self.key@,
            value: self.value@,
            state: self.state@,
            rows: self.rows@,
            output: self.output@,
        }
    }
}

/// A recurrent pass at its first stage.
pub open spec fn begun(
    layout: ExecutionLayout,
    block_index: u64,
    token_count: usize,
) -> RecurrentModel {
    RecurrentModel {
        layout,
        block_index,
        token_count,
        stage: RecurrentStage::Normalize,
        normalized: seq![],
        qkv: seq![],
        z: seq![],
        alpha: seq![],
        beta: seq![],
        decay: seq![],
        history: seq![],
        convolved: seq![],
        query: seq![],
        key: seq![],
        value: seq![],
        state: seq![],
        rows: seq![],
        output: seq![],
    }
}

/// Why the projected rows of a step are refused, if they are: there has to be one row
/// of the projection's width for each token.
pub open spec fn projection_failure(token_count: usize, width: usize, length: int) -> Option<
    Error,
> {
    if token_count * width > usize::MAX {
        Some(Error::ArithmeticOverflow { context: "recurrent projected output" })
    } else if length != token_count * width {
        Some(Error::RecurrentInput { hidden: width, actual: length as usize })
    } else {
        None
    }
}

/// Require one projected row of a width for each token.
pub fn check_projection(token_count: usize, width: usize, length: usize) -> (checked: Result<
    (),
    Error,
>)
    ensures
        match checked {
            Ok(_) => projection_failure(token_count, width, length as int) is None,
            Err(error) => projection_failure(token_count, width, length as int) == Some(error),
        },
{
    let planned: usize = checked_product(token_count, width, "recurrent projected output")?;
    if length != planned {
        return Err(Error::RecurrentInput { hidden: width, actual: length });
    }
    Ok(())
}

/// Whether decays are refused with an error: the first token and head whose decay
/// input, or else whose decay, is not finite.
pub open spec fn decay_refused(inputs: Seq<u32>, decays: Seq<u32>, error: Error) -> bool {
    exists|i: int| #[trigger] first_undecayed(inputs, decays, i) && error == (
    Error::RecurrentArithmetic {
        stage: if float_bits::finite(inputs[i]) {
            "recurrent log decay"
        } else {
            "recurrent log-decay input"
        },
        index: i as usize,
    })
}

/// Whether `i` is the first place whose decay input or decay is not finite.
pub open spec fn first_undecayed(inputs: Seq<u32>, decays: Seq<u32>, i: int) -> bool {
    &&& 0 <= i < decays.len()
    &&& !float_bits::finite(inputs[i]) || !float_bits::finite(decays[i])
    &&& forall|j: int|
        0 <= j < i ==> float_bits::finite(inputs[j]) && float_bits::finite(#[trigger] decays[j])
}

/// Require every decay input and every decay to be finite.
pub fn check_decay(inputs: &[u32], decays: &[u32]) -> (checked: Result<(), Error>)
    requires
        inputs@.len() == decays@.len(),
    ensures
        match checked {
            Ok(_) => all_finite(inputs@) && all_finite(decays@),
            Err(error) => decay_refused(inputs@, decays@, error),
        },
{
    let mut i: usize = 0;
    while i < decays.len()
        invariant
            0 <= i <= decays@.len(),
            inputs@.len() == decays@.len(),
            forall|j: int| 0 <= j < i ==> float_bits::finite(#[trigger] inputs@[j]),
            forall|j: int| 0 <= j < i ==> float_bits::finite(#[trigger] decays@[j]),
        decreases decays@.len() - i,
    {
        if !is_finite(inputs[i]) {
            assert(first_undecayed(inputs@, decays@, i as int));
            return Err(
                Error::RecurrentArithmetic { stage: "recurrent log-decay input", index: i },
            );
        }
        if !is_finite(decays[i]) {
            assert(first_undecayed(inputs@, decays@, i as int));
            return Err(Error::RecurrentArithmetic { stage: "recurrent log decay", index: i });
        }
        i = i + 1;
    }
    Ok(())
}

impl RecurrentPass {
    #[verifier::type_invariant]
    spec fn checked(self) -> bool {
        &&& self.layout.positive()
        &&& self.stage == RecurrentStage::Finished ==> self.output@.len() == self.token_count
            * self.layout.hidden
    }

    /// Begin a step over complete finite hidden rows.
    pub fn begin(execution: &Qwen35RecurrentExecution, hidden_tokens: &[u32]) -> (pass: Result<
        RecurrentPass,
        Error,
    >)
        requires
            execution.layout.positive(),
        ensures
            match pass {
                Ok(pass) => {
                    &&& execution.input_failure(hidden_tokens@.len() as int) is None
                    &&& all_finite(hidden_tokens@)
                    &&& pass@ == begun(
                        execution.layout,
                        execution.block_index,
                        (hidden_tokens@.len() as int / (execution.layout.hidden as int)) as usize,
                    )
                },
                Err(error) => if execution.input_failure(hidden_tokens@.len() as int) is Some {
                    execution.input_failure(hidden_tokens@.len() as int) == Some(error)
                } else {
                    nonfinite(hidden_tokens@, "input", error)
                },
            },
    {
        let token_count: usize = execution.admit_input(hidden_tokens)?;
        Ok(
            RecurrentPass {
                layout: execution.layout,
                block_index: execution.block_index,
                token_count,
                stage: RecurrentStage::Normalize,
                normalized: Vec::new(),
                qkv: Vec::new(),
                z: Vec::new(),
                alpha: Vec::new(),
                beta: Vec::new(),
                decay: Vec::new(),
                history: Vec::new(),
                convolved: Vec::new(),
                query: Vec::new(),
                key: Vec::new(),
                value: Vec::new(),
                state: Vec::new(),
                rows: Vec::new(),
                output: Vec::new(),
            },
        )
    }

    /// Say what the pass waits for.
    pub fn stage(&self) -> (stage: RecurrentStage)
        ensures
            stage == self@.stage,
    {
        self.stage
    }

    /// Take the normalized input rows.
    pub fn normalize(self, normalized: Vec<u32>) -> (pass: Result<RecurrentPass, Error>)
        requires
            self@.stage == RecurrentStage::Normalize,
        ensures
            match pass {
                Ok(pass) => {
                    &&& all_finite(normalized@)
                    &&& pass@ == (RecurrentModel {
                        stage: RecurrentStage::ProjectChannels,
                        normalized: normalized@,
                        ..self@
                    })
                },
                Err(error) => nonfinite(normalized@, "attention RMSNorm", error),
            },
    {
        proof {
            use_type_invariant(&self);
        }
        ensure_finite(normalized.as_slice(), "attention RMSNorm", 0)?;
        Ok(
            RecurrentPass {
                layout: self.layout,
                block_index: self.block_index,
                token_count: self.token_count,
                stage: RecurrentStage::ProjectChannels,
                normalized,
                qkv: self.qkv,
                z: self.z,
                alpha: self.alpha,
                beta: self.beta,
                decay: self.decay,
                history: self.history,
                convolved: self.convolved,
                query: self.query,
                key: self.key,
                value: self.value,
                state: self.state,
                rows: self.rows,
                output: self.output,
            },
        )
    }

    /// Take the projected convolution channels.
    pub fn project_channels(self, qkv: Vec<u32>) -> (pass: Result<RecurrentPass, Error>)
        requires
            self@.stage == RecurrentStage::ProjectChannels,
        ensures
            match pass {
                Ok(pass) => {
                    &&& projection_failure(
                        self@.token_count,
                        self@.layout.conv_width,
                        qkv@.len() as int,
                    ) is None
                    &&& pass@ == (RecurrentModel {
                        stage: RecurrentStage::ProjectGating,
                        qkv: qkv@,
                        ..self@
                    })
                },
                Err(error) => projection_failure(
                    self@.token_count,
                    self@.layout.conv_width,
                    qkv@.len() as int,
                ) == Some(error),
            },
    {
        proof {
            use_type_invariant(&self);
        }
        check_projection(self.token_count, self.layout.conv_width, qkv.len())?;
        Ok(
            RecurrentPass {
                layout: self.layout,
                block_index: self.block_index,
                token_count: self.token_count,
                stage: RecurrentStage::ProjectGating,
                normalized: self.normalized,
                qkv,
                z: self.z,
                alpha: self.alpha,
                beta: self.beta,
                decay: self.decay,
                history: self.history,
                convolved: self.convolved,
                query: self.query,
                key: self.key,
                value: self.value,
                state: self.state,
                rows: self.rows,
                output: self.output,
            },
        )
    }

    /// Take the projected output gating.
    pub fn project_gating(self, z: Vec<u32>) -> (pass: Result<RecurrentPass, Error>)
        requires
            self@.stage == RecurrentStage::ProjectGating,
        ensures
            match pass {
                Ok(pass) => {
                    &&& projection_failure(
                        self@.token_count,
                        self@.layout.inner,
                        z@.len() as int,
                    ) is None
                    &&& pass@ == (RecurrentModel {
                        stage: RecurrentStage::ProjectDecay,
                        z: z@,
                        ..self@
                    })
                },
                Err(error) => projection_failure(
                    self@.token_count,
                    self@.layout.inner,
                    z@.len() as int,
                ) == Some(error),
            },
    {
        proof {
            use_type_invariant(&self);
        }
        check_projection(self.token_count, self.layout.inner, z.len())?;
        Ok(
            RecurrentPass {
                layout: self.layout,
                block_index: self.block_index,
                token_count: self.token_count,
                stage: RecurrentStage::ProjectDecay,
                normalized: self.normalized,
                qkv: self.qkv,
                z,
                alpha: self.alpha,
                beta: self.beta,
                decay: self.decay,
                history: self.history,
                convolved: self.convolved,
                query: self.query,
                key: self.key,
                value: self.value,
                state: self.state,
                rows: self.rows,
                output: self.output,
            },
        )
    }

    /// Take the projected decay inputs.
    pub fn project_decay(self, alpha: Vec<u32>) -> (pass: Result<RecurrentPass, Error>)
        requires
            self@.stage == RecurrentStage::ProjectDecay,
        ensures
            match pass {
                Ok(pass) => {
                    &&& projection_failure(
                        self@.token_count,
                        self@.layout.value_head_count,
                        alpha@.len() as int,
                    ) is None
                    &&& pass@ == (RecurrentModel {
                        stage: RecurrentStage::ProjectStrength,
                        alpha: alpha@,
                        ..self@
                    })
                },
                Err(error) => projection_failure(
                    self@.token_count,
                    self@.layout.value_head_count,
                    alpha@.len() as int,
                ) == Some(error),
            },
    {
        proof {
            use_type_invariant(&self);
        }
        check_projection(self.token_count, self.layout.value_head_count, alpha.len())?;
        Ok(
            RecurrentPass {
                layout: self.layout,
                block_index: self.block_index,
                token_count: self.token_count,
                stage: RecurrentStage::ProjectStrength,
                normalized: self.normalized,
                qkv: self.qkv,
                z: self.z,
                alpha,
                beta: self.beta,
                decay: self.decay,
                history: self.history,
                convolved: self.convolved,
                query: self.query,
                key: self.key,
                value: self.value,
                state: self.state,
                rows: self.rows,
                output: self.output,
            },
        )
    }

    /// Take the projected update strengths.
    pub fn project_strength(self, beta: Vec<u32>) -> (pass: Result<RecurrentPass, Error>)
        requires
            self@.stage == RecurrentStage::ProjectStrength,
        ensures
            match pass {
                Ok(pass) => {
                    &&& projection_failure(
                        self@.token_count,
                        self@.layout.value_head_count,
                        beta@.len() as int,
                    ) is None
                    &&& pass@ == (RecurrentModel {
                        stage: RecurrentStage::Squash,
                        beta: beta@,
                        ..self@
                    })
                },
                Err(error) => projection_failure(
                    self@.token_count,
                    self@.layout.value_head_count,
                    beta@.len() as int,
                ) == Some(error),
            },
    {
        proof {
            use_type_invariant(&self);
        }
        check_projection(self.token_count, self.layout.value_head_count, beta.len())?;
        Ok(
            RecurrentPass {
                layout: self.layout,
                block_index: self.block_index,
                token_count: self.token_count,
                stage: RecurrentStage::Squash,
                normalized: self.normalized,
                qkv: self.qkv,
                z: self.z,
                alpha: self.alpha,
                beta,
                decay: self.decay,
                history: self.history,
                convolved: self.convolved,
                query: self.query,
                key: self.key,
                value: self.value,
                state: self.state,
                rows: self.rows,
                output: self.output,
            },
        )
    }

    /// Take the squashed update strengths, token by token, and lay them out head by head.
    pub fn squash(self, strengths: &[u32]) -> (pass: Result<RecurrentPass, Error>)
        requires
            self@.stage == RecurrentStage::Squash,
        ensures
            match pass {
                Ok(pass) => {
                    &&& all_finite(strengths@)
                    &&& arrange_failure(
                        strengths@.len() as int,
                        self@.token_count,
                        self@.layout.value_head_count,
                        0,
                        self@.layout.value_head_count,
                        1,
                    ) is None
                    &&& pass@ == (RecurrentModel {
                        stage: RecurrentStage::Decay,
                        beta: arranged(
                            strengths@,
                            self@.token_count,
                            self@.layout.value_head_count,
                            0,
                            self@.layout.value_head_count,
                            1,
                        ),
                        ..self@
                    })
                },
                Err(error) => {
                    ||| nonfinite(strengths@, "sigmoid beta", error)
                    ||| all_finite(strengths@) && arrange_refused(
                        strengths@.len() as int,
                        self@.token_count,
                        self@.layout.value_head_count,
                        0,
                        self@.layout.value_head_count,
                        1,
                        error,
                    )
                },
            },
    {
        proof {
            use_type_invariant(&self);
        }
        ensure_finite(strengths, "sigmoid beta", 0)?;
        let beta = arrange_heads(
            strengths,
            self.token_count,
            self.layout.value_head_count,
            0,
            self.layout.value_head_count,
            1,
        )?;
        Ok(
            RecurrentPass {
                layout: self.layout,
                block_index: self.block_index,
                token_count: self.token_count,
                stage: RecurrentStage::Decay,
                normalized: self.normalized,
                qkv: self.qkv,
                z: self.z,
                alpha: self.alpha,
                beta,
                decay: self.decay,
                history: self.history,
                convolved: self.convolved,
                query: self.query,
                key: self.key,
                value: self.value,
                state: self.state,
                rows: self.rows,
                output: self.output,
            },
        )
    }

    /// Take the decay inputs and the decays, token by token, and lay the decays out
    /// head by head.
    pub fn decay(self, inputs: &[u32], decays: &[u32]) -> (pass: Result<RecurrentPass, Error>)
        requires
            self@.stage == RecurrentStage::Decay,
            inputs@.len() == decays@.len(),
        ensures
            match pass {
                Ok(pass) => {
                    &&& self@.token_count * self@.layout.value_head_count <= usize::MAX
                    &&& all_finite(inputs@) && all_finite(decays@)
                    &&& arrange_failure(
                        decays@.len() as int,
                        self@.token_count,
                        self@.layout.value_head_count,
                        0,
                        self@.layout.value_head_count,
                        1,
                    ) is None
                    &&& pass@ == (RecurrentModel {
                        stage: RecurrentStage::Convolve,
                        decay: arranged(
                            decays@,
                            self@.token_count,
                            self@.layout.value_head_count,
                            0,
                            self@.layout.value_head_count,
                            1,
                        ),
                        ..self@
                    })
                },
                Err(error) => if self@.token_count * self@.layout.value_head_count > usize::MAX {
                    error == (Error::ArithmeticOverflow { context: "recurrent log decay" })
                } else {
                    ||| decay_refused(inputs@, decays@, error)
                    ||| all_finite(inputs@) && all_finite(decays@) && arrange_refused(
                        decays@.len() as int,
                        self@.token_count,
                        self@.layout.value_head_count,
                        0,
                        self@.layout.value_head_count,
                        1,
                        error,
                    )
                },
            },
    {
        proof {
            use_type_invariant(&self);
        }
        checked_product(self.token_count, self.layout.value_head_count, "recurrent log decay")?;
        check_decay(inputs, decays)?;
        let decay = arrange_heads(
            decays,
            self.token_count,
            self.layout.value_head_count,
            0,
            self.layout.value_head_count,
            1,
        )?;
        Ok(
            RecurrentPass {
                layout: self.layout,
                block_index: self.block_index,
                token_count: self.token_count,
                stage: RecurrentStage::Convolve,
                normalized: self.normalized,
                qkv: self.qkv,
                z: self.z,
                alpha: self.alpha,
                beta: self.beta,
                decay,
                history: self.history,
                convolved: self.convolved,
                query: self.query,
                key: self.key,
                value: self.value,
                state: self.state,
                rows: self.rows,
                output: self.output,
            },
        )
    }

    /// Take the convolved channels and the next convolution history.
    pub fn convolve(self, convolved: Vec<u32>, history: Vec<u32>) -> (pass: RecurrentPass)
        requires
            self@.stage == RecurrentStage::Convolve,
        ensures
            pass@ == (RecurrentModel {
                stage: RecurrentStage::Activate,
                convolved: convolved@,
                history: history@,
                ..self@
            }),
    {
        proof {
            use_type_invariant(&self);
        }
        RecurrentPass {
            layout: self.layout,
            block_index: self.block_index,
            token_count: self.token_count,
            stage: RecurrentStage::Activate,
            normalized: self.normalized,
            qkv: self.qkv,
            z: self.z,
            alpha: self.alpha,
            beta: self.beta,
            decay: self.decay,
            history,
            convolved,
            query: self.query,
            key: self.key,
            value: self.value,
            state: self.state,
            rows: self.rows,
            output: self.output,
        }
    }

    /// Take the activated channels.
    pub fn activate(self, convolved: Vec<u32>) -> (pass: Result<RecurrentPass, Error>)
        requires
            self@.stage == RecurrentStage::Activate,
        ensures
            match pass {
                Ok(pass) => {
                    &&& all_finite(convolved@)
                    &&& pass@ == (RecurrentModel {
                        stage: RecurrentStage::ScaleQuery,
                        convolved: convolved@,
                        ..self@
                    })
                },
                Err(error) => nonfinite(convolved@, "convolution SiLU", error),
            },
    {
        proof {
            use_type_invariant(&self);
        }
        ensure_finite(convolved.as_slice(), "convolution SiLU", 0)?;
        Ok(
            RecurrentPass {
                layout: self.layout,
                block_index: self.block_index,
                token_count: self.token_count,
                stage: RecurrentStage::ScaleQuery,
                normalized: self.normalized,
                qkv: self.qkv,
                z: self.z,
                alpha: self.alpha,
                beta: self.beta,
                decay: self.decay,
                history: self.history,
                convolved,
                query: self.query,
                key: self.key,
                value: self.value,
                state: self.state,
                rows: self.rows,
                output: self.output,
            },
        )
    }

    /// Lay out the query heads of the activated channels head by head.
    pub fn query_heads(&self) -> (heads: Result<Vec<u32>, Error>)
        ensures
            heads_of(self@, 0, heads),
    {
        proof {
            use_type_invariant(self);
        }
        arrange_heads(
            self.convolved.as_slice(),
            self.token_count,
            self.layout.conv_width,
            0,
            self.layout.key_head_count,
            self.layout.key_dim,
        )
    }

    /// Lay out the key heads of the activated channels head by head.
    pub fn key_heads(&self) -> (heads: Result<Vec<u32>, Error>)
        ensures
            heads_of(self@, self@.layout.key_width, heads),
    {
        proof {
            use_type_invariant(self);
        }
        arrange_heads(
            self.convolved.as_slice(),
            self.token_count,
            self.layout.conv_width,
            self.layout.key_width,
            self.layout.key_head_count,
            self.layout.key_dim,
        )
    }

    /// Take the query heads, scaled to unit length.
    pub fn scale_query(self, query: Vec<u32>) -> (pass: Result<RecurrentPass, Error>)
        requires
            self@.stage == RecurrentStage::ScaleQuery,
        ensures
            match pass {
                Ok(pass) => {
                    &&& all_finite(query@)
                    &&& pass@ == (RecurrentModel {
                        stage: RecurrentStage::ScaleKey,
                        query: query@,
                        ..self@
                    })
                },
                Err(error) => nonfinite(query@, "Q/K L2 output", error),
            },
    {
        proof {
            use_type_invariant(&self);
        }
        ensure_finite(query.as_slice(), "Q/K L2 output", 0)?;
        Ok(
            RecurrentPass {
                layout: self.layout,
                block_index: self.block_index,
                token_count: self.token_count,
                stage: RecurrentStage::ScaleKey,
                normalized: self.normalized,
                qkv: self.qkv,
                z: self.z,
                alpha: self.alpha,
                beta: self.beta,
                decay: self.decay,
                history: self.history,
                convolved: self.convolved,
                query,
                key: self.key,
                value: self.value,
                state: self.state,
                rows: self.rows,
                output: self.output,
            },
        )
    }

    /// Take the key heads, scaled to unit length; then lay out the value heads, which
    /// are the tail of the activated channels, and tile queries and keys over them.
    pub fn scale_key(self, key: Vec<u32>) -> (pass: Result<RecurrentPass, Error>)
        requires
            self@.stage == RecurrentStage::ScaleKey,
        ensures
            match pass {
                Ok(pass) => {
                    &&& all_finite(key@)
                    &&& value_failure(self@) is None
                    &&& tiling_failure(
                        self@.layout,
                        self@.query.len() as int,
                        self@.token_count,
                    ) is None
                    &&& tiling_failure(self@.layout, key@.len() as int, self@.token_count) is None
                    &&& pass@ == (RecurrentModel {
                        stage: RecurrentStage::Recur,
                        query: tiling(self@.layout, self@.query, self@.token_count),
                        key: tiling(self@.layout, key@, self@.token_count),
                        value: value_heads(self@),
                        ..self@
                    })
                },
                Err(error) => {
                    ||| nonfinite(key@, "Q/K L2 output", error)
                    ||| all_finite(key@) && value_refused(self@, error)
                    ||| all_finite(key@) && value_failure(self@) is None && tiling_refused(
                        self@.layout,
                        self@.query.len() as int,
                        self@.token_count,
                        error,
                    )
                    ||| all_finite(key@) && value_failure(self@) is None && tiling_failure(
                        self@.layout,
                        self@.query.len() as int,
                        self@.token_count,
                    ) is None && tiling_refused(
                        self@.layout,
                        key@.len() as int,
                        self@.token_count,
                        error,
                    )
                },
            },
    {
        proof {
            use_type_invariant(&self);
        }
        ensure_finite(key.as_slice(), "Q/K L2 output", 0)?;
        let offset: usize = checked_product(
            self.layout.key_width,
            2,
            "recurrent V channel offset",
        )?;
        let value = arrange_heads(
            self.convolved.as_slice(),
            self.token_count,
            self.layout.conv_width,
            offset,
            self.layout.value_head_count,
            self.layout.value_dim,
        )?;
        let query = tile_heads(self.layout, self.query.as_slice(), self.token_count)?;
        let key = tile_heads(self.layout, key.as_slice(), self.token_count)?;
        Ok(
            RecurrentPass {
                layout: self.layout,
                block_index: self.block_index,
                token_count: self.token_count,
                stage: RecurrentStage::Recur,
                normalized: self.normalized,
                qkv: self.qkv,
                z: self.z,
                alpha: self.alpha,
                beta: self.beta,
                decay: self.decay,
                history: self.history,
                convolved: self.convolved,
                query,
                key,
                value,
                state: self.state,
                rows: self.rows,
                output: self.output,
            },
        )
    }

    /// Take the recurrence rows, head by head, and the next state; the rows are laid
    /// out token by token.
    pub fn recur(self, heads: &[u32], state: Vec<u32>) -> (pass: Result<RecurrentPass, Error>)
        requires
            self@.stage == RecurrentStage::Recur,
        ensures
            match pass {
                Ok(pass) => {
                    &&& rows_failure(self@.layout, heads@.len() as int, self@.token_count) is None
                    &&& pass@ == (RecurrentModel {
                        stage: RecurrentStage::NormalizeRows,
                        rows: token_rows(self@.layout, heads@, self@.token_count),
                        state: state@,
                        ..self@
                    })
                },
                Err(error) => rows_refused(
                    self@.layout,
                    heads@.len() as int,
                    self@.token_count,
                    error,
                ),
            },
    {
        proof {
            use_type_invariant(&self);
        }
        let rows = arrange_rows(self.layout, heads, self.token_count)?;
        Ok(
            RecurrentPass {
                layout: self.layout,
                block_index: self.block_index,
                token_count: self.token_count,
                stage: RecurrentStage::NormalizeRows,
                normalized: self.normalized,
                qkv: self.qkv,
                z: self.z,
                alpha: self.alpha,
                beta: self.beta,
                decay: self.decay,
                history: self.history,
                convolved: self.convolved,
                query: self.query,
                key: self.key,
                value: self.value,
                state,
                rows,
                output: self.output,
            },
        )
    }

    /// Take the normalized recurrence rows.
    pub fn normalize_rows(self, rows: Vec<u32>) -> (pass: Result<RecurrentPass, Error>)
        requires
            self@.stage == RecurrentStage::NormalizeRows,
        ensures
            match pass {
                Ok(pass) => {
                    &&& self@.token_count * self@.layout.value_head_count <= usize::MAX
                    &&& all_finite(rows@)
                    &&& pass@ == (RecurrentModel {
                        stage: RecurrentStage::GateRows,
                        rows: rows@,
                        ..self@
                    })
                },
                Err(error) => if self@.token_count * self@.layout.value_head_count > usize::MAX {
                    error == (Error::ArithmeticOverflow {
                        context: "recurrent output RMSNorm rows",
                    })
                } else {
                    nonfinite(rows@, "recurrent RMSNorm", error)
                },
            },
    {
        proof {
            use_type_invariant(&self);
        }
        checked_product(
            self.token_count,
            self.layout.value_head_count,
            "recurrent output RMSNorm rows",
        )?;
        ensure_finite(rows.as_slice(), "recurrent RMSNorm", 0)?;
        Ok(
            RecurrentPass {
                layout: self.layout,
                block_index: self.block_index,
                token_count: self.token_count,
                stage: RecurrentStage::GateRows,
                normalized: self.normalized,
                qkv: self.qkv,
                z: self.z,
                alpha: self.alpha,
                beta: self.beta,
                decay: self.decay,
                history: self.history,
                convolved: self.convolved,
                query: self.query,
                key: self.key,
                value: self.value,
                state: self.state,
                rows,
                output: self.output,
            },
        )
    }

    /// Take the gated recurrence rows.
    pub fn gate_rows(self, rows: Vec<u32>) -> (pass: Result<RecurrentPass, Error>)
        requires
            self@.stage == RecurrentStage::GateRows,
        ensures
            match pass {
                Ok(pass) => {
                    &&& all_finite(rows@)
                    &&& pass@ == (RecurrentModel {
                        stage: RecurrentStage::ProjectOutput,
                        rows: rows@,
                        ..self@
                    })
                },
                Err(error) => nonfinite(rows@, "recurrent output gate", error),
            },
    {
        proof {
            use_type_invariant(&self);
        }
        ensure_finite(rows.as_slice(), "recurrent output gate", 0)?;
        Ok(
            RecurrentPass {
                layout: self.layout,
                block_index: self.block_index,
                token_count: self.token_count,
                stage: RecurrentStage::ProjectOutput,
                normalized: self.normalized,
                qkv: self.qkv,
                z: self.z,
                alpha: self.alpha,
                beta: self.beta,
                decay: self.decay,
                history: self.history,
                convolved: self.convolved,
                query: self.query,
                key: self.key,
                value: self.value,
                state: self.state,
                rows,
                output: self.output,
            },
        )
    }

    /// Take the projected output rows.
    pub fn project_output(self, output: Vec<u32>) -> (pass: Result<RecurrentPass, Error>)
        requires
            self@.stage == RecurrentStage::ProjectOutput,
        ensures
            match pass {
                Ok(pass) => {
                    &&& projection_failure(
                        self@.token_count,
                        self@.layout.hidden,
                        output@.len() as int,
                    ) is None
                    &&& pass@ == (RecurrentModel {
                        stage: RecurrentStage::Finished,
                        output: output@,
                        ..self@
                    })
                },
                Err(error) => projection_failure(
                    self@.token_count,
                    self@.layout.hidden,
                    output@.len() as int,
                ) == Some(error),
            },
    {
        proof {
            use_type_invariant(&self);
        }
        check_projection(self.token_count, self.layout.hidden, output.len())?;
        Ok(
            RecurrentPass {
                layout: self.layout,
                block_index: self.block_index,
                token_count: self.token_count,
                stage: RecurrentStage::Finished,
                normalized: self.normalized,
                qkv: self.qkv,
                z: self.z,
                alpha: self.alpha,
                beta: self.beta,
                decay: self.decay,
                history: self.history,
                convolved: self.convolved,
                query: self.query,
                key: self.key,
                value: self.value,
                state: self.state,
                rows: self.rows,
                output,
            },
        )
    }

    /// Borrow the projected convolution channels.
    pub fn convolution_inputs(&self) -> (values: &[u32])
        ensures
            values@ == self@.qkv,
    {
        self.qkv.as_slice()
    }

    /// Borrow the projected output gating.
    pub fn gating(&self) -> (values: &[u32])
        ensures
            values@ == self@.z,
    {
        self.z.as_slice()
    }

    /// Borrow the recurrence rows, token by token.
    pub fn rows(&self) -> (values: &[u32])
        ensures
            values@ == self@.rows,
    {
        self.rows.as_slice()
    }

    /// Borrow what the recurrence reads: queries, keys, values, update strengths, and
    /// decays, each head by head.
    pub fn recurrence_inputs(&self) -> (inputs: (&[u32], &[u32], &[u32], &[u32], &[u32]))
        ensures
            inputs.0@ == self@.query,
            inputs.1@ == self@.key,
            inputs.2@ == self@.value,
            inputs.3@ == self@.beta,
            inputs.4@ == self@.decay,
    {
        (
            self.query.as_slice(),
            self.key.as_slice(),
            self.value.as_slice(),
            self.beta.as_slice(),
            self.decay.as_slice(),
        )
    }

    /// Say which stored matrix the pass waits for, and which rows it is applied to.
    pub fn projection(&self) -> (projection: Option<(String, &[u32])>)
        ensures
            match projection {
                Some((name, rows)) => {
                    let block = "blk."@ + text::decimal(self@.block_index as nat) + "."@;
                    &&& self@.projected() == Some((name@, rows@))
                    &&& match self@.stage {
                        RecurrentStage::ProjectChannels => name@ == block + "attn_qkv.weight"@,
                        RecurrentStage::ProjectGating => name@ == block + "attn_gate.weight"@,
                        RecurrentStage::ProjectDecay => name@ == block + "ssm_alpha.weight"@,
                        RecurrentStage::ProjectStrength => name@ == block + "ssm_beta.weight"@,
                        _ => name@ == block + "ssm_out.weight"@,
                    }
                },
                None => self@.projected() is None,
            },
    {
        let role: &'static str = match self.stage {
            RecurrentStage::ProjectChannels => ATTN_QKV_ROLE,
            RecurrentStage::ProjectGating => ATTN_GATE_ROLE,
            RecurrentStage::ProjectDecay => SSM_ALPHA_ROLE,
            RecurrentStage::ProjectStrength => SSM_BETA_ROLE,
            RecurrentStage::ProjectOutput => {
                return Some(
                    (block_tensor_name(self.block_index, SSM_OUT_ROLE), self.rows.as_slice()),
                );
            },
            _ => {
                return None;
            },
        };
        Some((block_tensor_name(self.block_index, role), self.normalized.as_slice()))
    }

    /// Borrow the projected decay inputs.
    pub fn decay_inputs(&self) -> (values: &[u32])
        ensures
            values@ == self@.alpha,
    {
        self.alpha.as_slice()
    }

    /// Borrow the update strengths.
    pub fn strengths(&self) -> (values: &[u32])
        ensures
            values@ == self@.beta,
    {
        self.beta.as_slice()
    }

    /// Borrow the convolved channels.
    pub fn channels(&self) -> (values: &[u32])
        ensures
            values@ == self@.convolved,
    {
        self.convolved.as_slice()
    }

    /// Give up the finished pass for its output rows, one for each token, and the next
    /// state.
    pub fn into_output(self) -> (output: RecurrentOutput)
        requires
            self@.stage == RecurrentStage::Finished,
        ensures
            output.output@ == self@.output,
            output.output@.len() == self@.token_count * self@.layout.hidden,
            output.convolution_history@ == self@.history,
            output.state@ == self@.state,
    {
        proof {
            use_type_invariant(&self);
        }
        RecurrentOutput {
            output: self.output,
            convolution_history: self.history,
            state: self.state,
        }
    }
}

/// Whether the heads that start at a channel were laid out, or refused, as the
/// activated channels of a pass demand.
pub open spec fn heads_of(
    pass: RecurrentModel,
    channel_offset: usize,
    heads: Result<Vec<u32>, Error>,
) -> bool {
    let failure = arrange_failure(
        pass.convolved.len() as int,
        pass.token_count,
        pass.layout.conv_width,
        channel_offset,
        pass.layout.key_head_count,
        pass.layout.key_dim,
    );
    match heads {
        Ok(heads) => failure is None && heads@ == arranged(
            pass.convolved,
            pass.token_count,
            pass.layout.conv_width,
            channel_offset,
            pass.layout.key_head_count,
            pass.layout.key_dim,
        ),
        Err(error) => arrange_refused(
            pass.convolved.len() as int,
            pass.token_count,
            pass.layout.conv_width,
            channel_offset,
            pass.layout.key_head_count,
            pass.layout.key_dim,
            error,
        ),
    }
}

/// Whether the value heads of a pass are refused with an error.
pub open spec fn value_refused(pass: RecurrentModel, error: Error) -> bool {
    arrange_refused(
        pass.convolved.len() as int,
        pass.token_count,
        pass.layout.conv_width,
        (2 * pass.layout.key_width) as usize,
        pass.layout.value_head_count,
        pass.layout.value_dim,
        error,
    )
}

/// Why the value heads of a pass cannot be laid out, if they cannot.
pub open spec fn value_failure(pass: RecurrentModel) -> Option<Error> {
    arrange_failure(
        pass.convolved.len() as int,
        pass.token_count,
        pass.layout.conv_width,
        (2 * pass.layout.key_width) as usize,
        pass.layout.value_head_count,
        pass.layout.value_dim,
    )
}

/// The value heads of a pass: the channels after the queries and the keys.
pub open spec fn value_heads(pass: RecurrentModel) -> Seq<u32> {
    arranged(
        pass.convolved,
        pass.token_count,
        pass.layout.conv_width,
        (2 * pass.layout.key_width) as usize,
        pass.layout.value_head_count,
        pass.layout.value_dim,
    )
}

/// Value head `head` reads key head `head % key_head_count`: the key heads are
/// repeated in order, and every element keeps its place within its head.
pub proof fn lemma_tiling_element(
    layout: ExecutionLayout,
    grouped: Seq<u32>,
    token_count: usize,
    head: int,
    i: int,
)
    requires
        0 <= head < layout.value_head_count,
        0 <= i < token_count * layout.key_dim,
    ensures
        tiling(layout, grouped, token_count)[head * (token_count * layout.key_dim) + i]
            == grouped[(head % (layout.key_head_count as int)) * (token_count * layout.key_dim)
            + i],
{
    arrangement::lemma_window_element(
        grouped,
        token_count * layout.key_dim,
        layout.value_head_count as int,
        arrangement::tiled_start(layout.key_head_count as int, token_count * layout.key_dim),
        head,
        i,
    );
}

} // verus!
