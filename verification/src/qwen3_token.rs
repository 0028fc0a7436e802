//! The order and operands of one token's attention inputs and feed-forward output in a
//! Qwen3 pass.
//!
//! A kernel computes the values; each pass says which stored tensor comes next, which
//! values it is applied to, and refuses what is not finite.

use crate::error::Error;
use crate::qwen3::{block_name, Layout};
use crate::qwen35_execution;
use crate::qwen3_pass;
use crate::qwen3_pass::{finite, PassStage, Qwen3Pass};
use crate::text;
use vstd::prelude::*;

verus! {

/// What the attention inputs of a token wait for next.
#[derive(Clone, Copy, Debug, PartialEq, Eq, Structural)]
pub enum TokenStage {
    /// The normalized hidden row.
    Normalize,
    /// The projected query.
    ProjectQuery,
    /// The projected key.
    ProjectKey,
    /// The projected value.
    ProjectValue,
    /// The query, normalized per head.
    NormalizeQuery,
    /// The key, normalized per head.
    NormalizeKey,
    /// The rotated query.
    RotateQuery,
    /// The rotated key.
    RotateKey,
    /// Nothing: the query, key, and value are ready.
    Finished,
}

/// What the attention inputs of a token hold.
pub struct TokenModel {
    /// The geometry of the artifact.
    pub layout: Layout,
    /// The current block.
    pub block: usize,
    /// The token, which is also its position.
    pub token: usize,
    /// What is waited for.
    pub stage: TokenStage,
    /// The hidden row of the token.
    pub row: Seq<u32>,
    /// The normalized hidden row.
    pub normalized: Seq<u32>,
    /// The query: projected, then normalized, then rotated.
    pub query: Seq<u32>,
    /// The key: projected, then normalized, then rotated.
    pub key: Seq<u32>,
    /// The value.
    pub value: Seq<u32>,
}

impl TokenModel {
    /// The role of the tensor that the stage reads, if it reads one.
    pub open spec fn role(self) -> Option<&'static str> {
        match self.stage {
            TokenStage::Normalize => Some("attn_norm.weight"),
            TokenStage::ProjectQuery => Some("attn_q.weight"),
            TokenStage::ProjectKey => Some("attn_k.weight"),
            TokenStage::ProjectValue => Some("attn_v.weight"),
            TokenStage::NormalizeQuery => Some("attn_q_norm.weight"),
            TokenStage::NormalizeKey => Some("attn_k_norm.weight"),
            _ => None,
        }
    }

    /// The values that the stage is applied to.
    pub open spec fn input(self) -> Seq<u32> {
        match self.stage {
            TokenStage::Normalize => self.row,
            TokenStage::ProjectQuery | TokenStage::ProjectKey | TokenStage::ProjectValue => {
                self.normalized
            },
            TokenStage::NormalizeQuery | TokenStage::RotateQuery => self.query,
            TokenStage::NormalizeKey | TokenStage::RotateKey => self.key,
            TokenStage::Finished => self.value,
        }
    }

    /// Whether the stage's values have to be finite.
    pub open spec fn rotates(self) -> bool {
        self.stage == TokenStage::RotateQuery || self.stage == TokenStage::RotateKey
    }

    /// The attention inputs once the stage's values are taken.
    pub open spec fn taken(self, values: Seq<u32>) -> TokenModel {
        match self.stage {
            TokenStage::Normalize => TokenModel {
                stage: TokenStage::ProjectQuery,
                normalized: values,
                ..self
            },
            TokenStage::ProjectQuery => TokenModel {
                stage: TokenStage::ProjectKey,
                query: values,
                ..self
            },
            TokenStage::ProjectKey => TokenModel {
                stage: TokenStage::ProjectValue,
                key: values,
                ..self
            },
            TokenStage::ProjectValue => TokenModel {
                stage: TokenStage::NormalizeQuery,
                value: values,
                ..self
            },
            TokenStage::NormalizeQuery => TokenModel {
                stage: TokenStage::NormalizeKey,
                query: values,
                ..self
            },
            TokenStage::NormalizeKey => TokenModel {
                stage: TokenStage::RotateQuery,
                key: values,
                ..self
            },
            TokenStage::RotateQuery => TokenModel {
                stage: TokenStage::RotateKey,
                query: values,
                ..self
            },
            TokenStage::RotateKey => TokenModel {
                stage: TokenStage::Finished,
                key: values,
                ..self
            },
            TokenStage::Finished => self,
        }
    }
}

/// The attention inputs of one token, between two of their stages.
#[derive(Debug)]
pub struct TokenPass<'pass> {
    layout: Layout,
    block: usize,
    token: usize,
    stage: TokenStage,
    row: &'pass [u32],
    normalized: Vec<u32>,
    query: Vec<u32>,
    key: Vec<u32>,
    value: Vec<u32>,
}

impl<'pass> View for TokenPass<'pass> {
    type V = TokenModel;

    closed spec fn view(&self) -> TokenModel {
        TokenModel {
            layout: self.layout,
            block: self.block,
            token: self.token,
            stage: self.stage,
            row: self.row@,
            normalized: self.normalized@,
            query: self.query@,
            key: self.key@,
            value: self.value@,
        }
    }
}

impl<'pass> TokenPass<'pass> {
    /// Begin the attention inputs of the token that a pass waits for.
    pub fn begin(pass: &'pass Qwen3Pass) -> (token: TokenPass<'pass>)
        requires
            pass@.stage is Project,
        ensures
            token@ == (TokenModel {
                layout: pass@.layout,
                block: pass@.stage->Project_block,
                token: pass@.stage->Project_token,
                stage: TokenStage::Normalize,
                row: pass@.current_row(),
                normalized: seq![],
                query: seq![],
                key: seq![],
                value: seq![],
            }),
    {
        let (block, token): (usize, usize) = match pass.stage() {
            PassStage::Project { block, token } => (block, token),
            _ => (0, 0),
        };
        TokenPass {
            layout: pass.layout(),
            block,
            token,
            stage: TokenStage::Normalize,
            row: pass.token_row(),
            normalized: Vec::new(),
            query: Vec::new(),
            key: Vec::new(),
            value: Vec::new(),
        }
    }

    /// Say what the attention inputs wait for.
    pub fn stage(&self) -> (stage: TokenStage)
        ensures
            stage == self@.stage,
    {
        self.stage
    }

    /// Say which stored tensor the stage reads, if it reads one.
    pub fn operand(&self) -> (name: Option<String>)
        ensures
            match name {
                Some(name) => self@.role() matches Some(role) && name@ == qwen3_pass::tensor_name(
                    self@.block,
                    role,
                ) && name@ == "blk."@ + text::decimal(self@.block as nat) + "."@ + role@,
                None => self@.role() is None,
            },
    {
        let role: &'static str = match self.stage {
            TokenStage::Normalize => "attn_norm.weight",
            TokenStage::ProjectQuery => "attn_q.weight",
            TokenStage::ProjectKey => "attn_k.weight",
            TokenStage::ProjectValue => "attn_v.weight",
            TokenStage::NormalizeQuery => "attn_q_norm.weight",
            TokenStage::NormalizeKey => "attn_k_norm.weight",
            _ => {
                return None;
            },
        };
        Some(block_name(self.block, role))
    }

    /// Borrow the values that the stage is applied to.
    pub fn input(&self) -> (values: &[u32])
        ensures
            values@ == self@.input(),
    {
        match self.stage {
            TokenStage::Normalize => self.row,
            TokenStage::ProjectQuery | TokenStage::ProjectKey | TokenStage::ProjectValue => {
                self.normalized.as_slice()
            },
            TokenStage::NormalizeQuery | TokenStage::RotateQuery => self.query.as_slice(),
            TokenStage::NormalizeKey | TokenStage::RotateKey => self.key.as_slice(),
            TokenStage::Finished => self.value.as_slice(),
        }
    }

    /// Take the values of the stage; rotated values have to be finite.
    pub fn take(self, values: Vec<u32>) -> (token: Result<TokenPass<'pass>, Error>)
        requires
            self@.stage != TokenStage::Finished,
        ensures
            match token {
                Ok(token) => {
                    &&& self@.rotates() ==> qwen35_execution::all_finite(values@)
                    &&& token@ == self@.taken(values@)
                },
                Err(error) => {
                    &&& self@.rotates()
                    &&& !qwen35_execution::all_finite(values@)
                    &&& qwen3_pass::nonfinite_error(values@, "NeoX RoPE", error)
                },
            },
    {
        let mut token = self;
        match token.stage {
            TokenStage::Normalize => {
                token.normalized = values;
                token.stage = TokenStage::ProjectQuery;
            },
            TokenStage::ProjectQuery => {
                token.query = values;
                token.stage = TokenStage::ProjectKey;
            },
            TokenStage::ProjectKey => {
                token.key = values;
                token.stage = TokenStage::ProjectValue;
            },
            TokenStage::ProjectValue => {
                token.value = values;
                token.stage = TokenStage::NormalizeQuery;
            },
            TokenStage::NormalizeQuery => {
                token.query = values;
                token.stage = TokenStage::NormalizeKey;
            },
            TokenStage::NormalizeKey => {
                token.key = values;
                token.stage = TokenStage::RotateQuery;
            },
            TokenStage::RotateQuery => {
                finite(values.as_slice(), "NeoX RoPE")?;
                token.query = values;
                token.stage = TokenStage::RotateKey;
            },
            TokenStage::RotateKey => {
                finite(values.as_slice(), "NeoX RoPE")?;
                token.key = values;
                token.stage = TokenStage::Finished;
            },
            TokenStage::Finished => {},
        }
        Ok(token)
    }

    /// Give up the finished attention inputs: the query, the key, and the value.
    pub fn into_parts(self) -> (parts: (Vec<u32>, Vec<u32>, Vec<u32>))
        requires
            self@.stage == TokenStage::Finished,
        ensures
            parts.0@ == self@.query,
            parts.1@ == self@.key,
            parts.2@ == self@.value,
    {
        (self.query, self.key, self.value)
    }
}

/// What the feed-forward output of a token waits for next.
#[derive(Clone, Copy, Debug, PartialEq, Eq, Structural)]
pub enum FeedForwardStage {
    /// The normalized hidden row.
    Normalize,
    /// The projected gate.
    ProjectGate,
    /// The activated gate.
    Activate,
    /// The up projection.
    ProjectUp,
    /// The product of the activated gate and the up projection.
    Fuse,
    /// The down projection.
    ProjectDown,
    /// Nothing: the feed-forward output is ready.
    Finished,
}

/// What the feed-forward output of a token holds.
pub struct FeedForwardModel {
    /// The current block.
    pub block: usize,
    /// What is waited for.
    pub stage: FeedForwardStage,
    /// The hidden row of the token.
    pub row: Seq<u32>,
    /// The normalized hidden row.
    pub normalized: Seq<u32>,
    /// Gating values: projected, then activated.
    pub gate: Seq<u32>,
    /// The up projection.
    pub up: Seq<u32>,
    /// The product of the activated gate and the up projection.
    pub fused: Seq<u32>,
    /// The down projection.
    pub down: Seq<u32>,
}

impl FeedForwardModel {
    /// The role of the tensor that the stage reads, if it reads one.
    pub open spec fn role(self) -> Option<&'static str> {
        match self.stage {
            FeedForwardStage::Normalize => Some("ffn_norm.weight"),
            FeedForwardStage::ProjectGate => Some("ffn_gate.weight"),
            FeedForwardStage::ProjectUp => Some("ffn_up.weight"),
            FeedForwardStage::ProjectDown => Some("ffn_down.weight"),
            _ => None,
        }
    }

    /// The values that the stage is applied to; a product has the up projection as its
    /// other factor.
    pub open spec fn input(self) -> Seq<u32> {
        match self.stage {
            FeedForwardStage::Normalize => self.row,
            FeedForwardStage::ProjectGate | FeedForwardStage::ProjectUp => self.normalized,
            FeedForwardStage::Activate | FeedForwardStage::Fuse => self.gate,
            FeedForwardStage::ProjectDown => self.fused,
            FeedForwardStage::Finished => self.down,
        }
    }

    /// The feed-forward output once the stage's values are taken.
    pub open spec fn taken(self, values: Seq<u32>) -> FeedForwardModel {
        match self.stage {
            FeedForwardStage::Normalize => FeedForwardModel {
                stage: FeedForwardStage::ProjectGate,
                normalized: values,
                ..self
            },
            FeedForwardStage::ProjectGate => FeedForwardModel {
                stage: FeedForwardStage::Activate,
                gate: values,
                ..self
            },
            FeedForwardStage::Activate => FeedForwardModel {
                stage: FeedForwardStage::ProjectUp,
                gate: values,
                ..self
            },
            FeedForwardStage::ProjectUp => FeedForwardModel {
                stage: FeedForwardStage::Fuse,
                up: values,
                ..self
            },
            FeedForwardStage::Fuse => FeedForwardModel {
                stage: FeedForwardStage::ProjectDown,
                fused: values,
                ..self
            },
            FeedForwardStage::ProjectDown => FeedForwardModel {
                stage: FeedForwardStage::Finished,
                down: values,
                ..self
            },
            FeedForwardStage::Finished => self,
        }
    }
}

/// The feed-forward output of one token, between two of its stages.
#[derive(Debug)]
pub struct FeedForwardPass<'pass> {
    block: usize,
    stage: FeedForwardStage,
    row: &'pass [u32],
    normalized: Vec<u32>,
    gate: Vec<u32>,
    up: Vec<u32>,
    fused: Vec<u32>,
    down: Vec<u32>,
}

impl<'pass> View for FeedForwardPass<'pass> {
    type V = FeedForwardModel;

    closed spec fn view(&self) -> FeedForwardModel {
        FeedForwardModel {
            block: self.block,
            stage: self.stage,
            row: self.row@,
            normalized: self.normalized@,
            gate: self.gate@,
            up: self.up@,
            fused: self.fused@,
            down: self.down@,
        }
    }
}

impl<'pass> FeedForwardPass<'pass> {
    /// Begin the feed-forward output of the token that a pass waits for.
    pub fn begin(pass: &'pass Qwen3Pass) -> (token: FeedForwardPass<'pass>)
        requires
            pass@.stage is FeedForward,
        ensures
            token@ == (FeedForwardModel {
                block: pass@.stage->FeedForward_block,
                stage: FeedForwardStage::Normalize,
                row: pass@.current_row(),
                normalized: seq![],
                gate: seq![],
                up: seq![],
                fused: seq![],
                down: seq![],
            }),
    {
        let block: usize = match pass.stage() {
            PassStage::FeedForward { block, .. } => block,
            _ => 0,
        };
        FeedForwardPass {
            block,
            stage: FeedForwardStage::Normalize,
            row: pass.token_row(),
            normalized: Vec::new(),
            gate: Vec::new(),
            up: Vec::new(),
            fused: Vec::new(),
            down: Vec::new(),
        }
    }

    /// Say what the feed-forward output waits for.
    pub fn stage(&self) -> (stage: FeedForwardStage)
        ensures
            stage == self@.stage,
    {
        self.stage
    }

    /// Say which stored tensor the stage reads, if it reads one.
    pub fn operand(&self) -> (name: Option<String>)
        ensures
            match name {
                Some(name) => self@.role() matches Some(role) && name@ == qwen3_pass::tensor_name(
                    self@.block,
                    role,
                ) && name@ == "blk."@ + text::decimal(self@.block as nat) + "."@ + role@,
                None => self@.role() is None,
            },
    {
        let role: &'static str = match self.stage {
            FeedForwardStage::Normalize => "ffn_norm.weight",
            FeedForwardStage::ProjectGate => "ffn_gate.weight",
            FeedForwardStage::ProjectUp => "ffn_up.weight",
            FeedForwardStage::ProjectDown => "ffn_down.weight",
            _ => {
                return None;
            },
        };
        Some(block_name(self.block, role))
    }

    /// Borrow the values that the stage is applied to.
    pub fn input(&self) -> (values: &[u32])
        ensures
            values@ == self@.input(),
    {
        match self.stage {
            FeedForwardStage::Normalize => self.row,
            FeedForwardStage::ProjectGate | FeedForwardStage::ProjectUp => {
                self.normalized.as_slice()
            },
            FeedForwardStage::Activate | FeedForwardStage::Fuse => self.gate.as_slice(),
            FeedForwardStage::ProjectDown => self.fused.as_slice(),
            FeedForwardStage::Finished => self.down.as_slice(),
        }
    }

    /// Borrow the up projection, which is the other factor of a product.
    pub fn factor(&self) -> (values: &[u32])
        ensures
            values@ == self@.up,
    {
        self.up.as_slice()
    }

    /// Take the values of the stage; products have to be finite.
    pub fn take(self, values: Vec<u32>) -> (token: Result<FeedForwardPass<'pass>, Error>)
        requires
            self@.stage != FeedForwardStage::Finished,
        ensures
            match token {
                Ok(token) => {
                    &&& self@.stage == FeedForwardStage::Fuse ==> qwen35_execution::all_finite(
                        values@,
                    )
                    &&& token@ == self@.taken(values@)
                },
                Err(error) => {
                    &&& self@.stage == FeedForwardStage::Fuse
                    &&& !qwen35_execution::all_finite(values@)
                    &&& qwen3_pass::nonfinite_error(values@, "SwiGLU", error)
                },
            },
    {
        let mut token = self;
        match token.stage {
            FeedForwardStage::Normalize => {
                token.normalized = values;
                token.stage = FeedForwardStage::ProjectGate;
            },
            FeedForwardStage::ProjectGate => {
                token.gate = values;
                token.stage = FeedForwardStage::Activate;
            },
            FeedForwardStage::Activate => {
                token.gate = values;
                token.stage = FeedForwardStage::ProjectUp;
            },
            FeedForwardStage::ProjectUp => {
                token.up = values;
                token.stage = FeedForwardStage::Fuse;
            },
            FeedForwardStage::Fuse => {
                finite(values.as_slice(), "SwiGLU")?;
                token.fused = values;
                token.stage = FeedForwardStage::ProjectDown;
            },
            FeedForwardStage::ProjectDown => {
                token.down = values;
                token.stage = FeedForwardStage::Finished;
            },
            FeedForwardStage::Finished => {},
        }
        Ok(token)
    }

    /// Give up the finished pass for the feed-forward output.
    pub fn into_output(self) -> (output: Vec<u32>)
        requires
            self@.stage == FeedForwardStage::Finished,
        ensures
            output@ == self@.down,
    {
        self.down
    }
}

} // verus!
