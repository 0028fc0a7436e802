//! The Qwen3.5 tensor inventory: which tensors an admitted artifact stores.
//!
//! The role templates below are the sole structural role inventory: the count
//! of tensors and the expected names and shapes all derive from them. Every
//! main block has the common roles and the roles of exactly one block kind; a
//! `NextN` block has every full-attention role and four roles of its own.

use crate::error::Error;
use crate::gguf::TensorDescriptor;
use crate::qwen35::{
    Dimensions, ATTN_GATE_ROLE, ATTN_K_NORM_ROLE, ATTN_K_ROLE, ATTN_NORM_ROLE,
    ATTN_OUTPUT_ROLE, ATTN_QKV_ROLE, ATTN_Q_NORM_ROLE, ATTN_Q_ROLE, ATTN_V_ROLE,
    BLOCK_COUNT_KEY, FFN_DOWN_ROLE, FFN_GATE_ROLE, FFN_UP_ROLE, NEXTN_EH_PROJ_ROLE,
    NEXTN_ENORM_ROLE, NEXTN_HNORM_ROLE, NEXTN_SHARED_HEAD_NORM_ROLE, OUTPUT_NORM_TENSOR,
    OUTPUT_TENSOR, POST_ATTENTION_NORM_ROLE, Q_PROJECTION_MULTIPLIER, SSM_ALPHA_ROLE,
    SSM_A_ROLE, SSM_BETA_ROLE, SSM_CONV1D_ROLE, SSM_DT_ROLE, SSM_NORM_ROLE, SSM_OUT_ROLE,
    TOKEN_EMBEDDING_TENSOR,
};
use crate::text;
use vstd::prelude::*;

verus! {

/// How a template's shape derives from the structural dimensions.
#[derive(Clone, Copy, Debug, PartialEq, Eq, Structural)]
pub enum TemplateShape {
    HiddenVocabulary,
    Hidden,
    KeyWidth,
    FullAttentionKey,
    FullAttentionOutput,
    FullAttentionQuery,
    FullAttentionValue,
    FeedForwardDown,
    FeedForwardUp,
    RecurrentGate,
    RecurrentQkv,
    TimeStepRank,
    HiddenTimeStepRank,
    RecurrentConvolution,
    RecurrentHead,
    RecurrentOutput,
    NextNProjection,
}

/// One role of the inventory and the shape of its tensor.
#[derive(Clone, Copy, Debug)]
pub struct TensorTemplate {
    pub role: &'static str,
    pub shape: TemplateShape,
}

/// Projection widths of a full-attention block.
#[derive(Clone, Copy, Debug, PartialEq, Eq, Structural)]
pub struct FullAttentionShapes {
    pub query: u64,
    pub key: u64,
    pub value: u64,
    pub output: u64,
}

/// Projection widths of a recurrent block.
#[derive(Clone, Copy, Debug, PartialEq, Eq, Structural)]
pub struct RecurrentShapes {
    pub conv_width: u64,
    pub head_width: u64,
}

/// One expected tensor: its name and its shape.
#[derive(Debug)]
pub struct ExpectedTensor {
    pub name: String,
    pub shape: Vec<u64>,
}

impl View for ExpectedTensor {
    type V = (Seq<char>, Seq<u64>);

    open spec fn view(&self) -> (Seq<char>, Seq<u64>) {
        (self.name@, self.shape@)
    }
}

/// An overflowed derivation.
pub open spec fn overflow<T>(context: &'static str) -> Result<T, Error> {
    Err(Error::ArithmeticOverflow { context })
}

/// The product of two numbers, unless it overflows.
pub open spec fn product_of(left: u64, right: u64, context: &'static str) -> Result<u64, Error> {
    if left * right <= u64::MAX {
        Ok((left * right) as u64)
    } else {
        overflow(context)
    }
}

/// The sum of two numbers, unless it overflows.
pub open spec fn sum_of(left: u64, right: u64, context: &'static str) -> Result<u64, Error> {
    if left + right <= u64::MAX {
        Ok((left + right) as u64)
    } else {
        overflow(context)
    }
}

/// Multiply, refusing overflow.
pub fn checked_mul(left: u64, right: u64, context: &'static str) -> (product: Result<u64, Error>)
    ensures
        product == product_of(left, right, context),
{
    match left.checked_mul(right) {
        Some(product) => Ok(product),
        None => Err(Error::ArithmeticOverflow { context }),
    }
}

/// Add, refusing overflow.
pub fn checked_add(left: u64, right: u64, context: &'static str) -> (sum: Result<u64, Error>)
    ensures
        sum == sum_of(left, right, context),
{
    match left.checked_add(right) {
        Some(sum) => Ok(sum),
        None => Err(Error::ArithmeticOverflow { context }),
    }
}

impl TensorTemplate {
    /// Pair a role with its shape.
    pub fn new(role: &'static str, shape: TemplateShape) -> (template: TensorTemplate)
        ensures
            template == (TensorTemplate { role, shape }),
    {
        TensorTemplate { role, shape }
    }
}

/// Pair a role with its shape.
pub open spec fn template(role: &'static str, shape: TemplateShape) -> TensorTemplate {
    TensorTemplate { role, shape }
}

/// The roles of the tensors outside every block.
pub open spec fn global_roles() -> Seq<TensorTemplate> {
    seq![
        template(TOKEN_EMBEDDING_TENSOR, TemplateShape::HiddenVocabulary),
        template(OUTPUT_NORM_TENSOR, TemplateShape::Hidden),
        template(OUTPUT_TENSOR, TemplateShape::HiddenVocabulary),
    ]
}

/// List the roles of the tensors outside every block.
pub fn global_templates() -> (templates: Vec<TensorTemplate>)
    ensures
        templates@ == global_roles(),
{
    let templates = vec![
        TensorTemplate::new(TOKEN_EMBEDDING_TENSOR, TemplateShape::HiddenVocabulary),
        TensorTemplate::new(OUTPUT_NORM_TENSOR, TemplateShape::Hidden),
        TensorTemplate::new(OUTPUT_TENSOR, TemplateShape::HiddenVocabulary),
    ];
    assert(templates@ =~= global_roles());
    templates
}

/// The roles of every block.
pub open spec fn common_block_roles() -> Seq<TensorTemplate> {
    seq![
        template(ATTN_NORM_ROLE, TemplateShape::Hidden),
        template(FFN_DOWN_ROLE, TemplateShape::FeedForwardDown),
        template(FFN_GATE_ROLE, TemplateShape::FeedForwardUp),
        template(FFN_UP_ROLE, TemplateShape::FeedForwardUp),
        template(POST_ATTENTION_NORM_ROLE, TemplateShape::Hidden),
    ]
}

/// List the roles of every block.
pub fn common_block_templates() -> (templates: Vec<TensorTemplate>)
    ensures
        templates@ == common_block_roles(),
{
    let templates = vec![
        TensorTemplate::new(ATTN_NORM_ROLE, TemplateShape::Hidden),
        TensorTemplate::new(FFN_DOWN_ROLE, TemplateShape::FeedForwardDown),
        TensorTemplate::new(FFN_GATE_ROLE, TemplateShape::FeedForwardUp),
        TensorTemplate::new(FFN_UP_ROLE, TemplateShape::FeedForwardUp),
        TensorTemplate::new(POST_ATTENTION_NORM_ROLE, TemplateShape::Hidden),
    ];
    assert(templates@ =~= common_block_roles());
    templates
}

/// The roles of a full-attention block.
pub open spec fn full_attention_roles() -> Seq<TensorTemplate> {
    seq![
        template(ATTN_K_ROLE, TemplateShape::FullAttentionKey),
        template(ATTN_K_NORM_ROLE, TemplateShape::KeyWidth),
        template(ATTN_OUTPUT_ROLE, TemplateShape::FullAttentionOutput),
        template(ATTN_Q_ROLE, TemplateShape::FullAttentionQuery),
        template(ATTN_Q_NORM_ROLE, TemplateShape::KeyWidth),
        template(ATTN_V_ROLE, TemplateShape::FullAttentionValue),
    ]
}

/// List the roles of a full-attention block.
pub fn full_attention_templates() -> (templates: Vec<TensorTemplate>)
    ensures
        templates@ == full_attention_roles(),
{
    let templates = vec![
        TensorTemplate::new(ATTN_K_ROLE, TemplateShape::FullAttentionKey),
        TensorTemplate::new(ATTN_K_NORM_ROLE, TemplateShape::KeyWidth),
        TensorTemplate::new(ATTN_OUTPUT_ROLE, TemplateShape::FullAttentionOutput),
        TensorTemplate::new(ATTN_Q_ROLE, TemplateShape::FullAttentionQuery),
        TensorTemplate::new(ATTN_Q_NORM_ROLE, TemplateShape::KeyWidth),
        TensorTemplate::new(ATTN_V_ROLE, TemplateShape::FullAttentionValue),
    ];
    assert(templates@ =~= full_attention_roles());
    templates
}

/// The roles of a recurrent block.
pub open spec fn recurrent_roles() -> Seq<TensorTemplate> {
    seq![
        template(ATTN_GATE_ROLE, TemplateShape::RecurrentGate),
        template(ATTN_QKV_ROLE, TemplateShape::RecurrentQkv),
        template(SSM_A_ROLE, TemplateShape::TimeStepRank),
        template(SSM_ALPHA_ROLE, TemplateShape::HiddenTimeStepRank),
        template(SSM_BETA_ROLE, TemplateShape::HiddenTimeStepRank),
        template(SSM_CONV1D_ROLE, TemplateShape::RecurrentConvolution),
        template(SSM_DT_ROLE, TemplateShape::TimeStepRank),
        template(SSM_NORM_ROLE, TemplateShape::RecurrentHead),
        template(SSM_OUT_ROLE, TemplateShape::RecurrentOutput),
    ]
}

/// List the roles of a recurrent block.
pub fn recurrent_templates() -> (templates: Vec<TensorTemplate>)
    ensures
        templates@ == recurrent_roles(),
{
    let templates = vec![
        TensorTemplate::new(ATTN_GATE_ROLE, TemplateShape::RecurrentGate),
        TensorTemplate::new(ATTN_QKV_ROLE, TemplateShape::RecurrentQkv),
        TensorTemplate::new(SSM_A_ROLE, TemplateShape::TimeStepRank),
        TensorTemplate::new(SSM_ALPHA_ROLE, TemplateShape::HiddenTimeStepRank),
        TensorTemplate::new(SSM_BETA_ROLE, TemplateShape::HiddenTimeStepRank),
        TensorTemplate::new(SSM_CONV1D_ROLE, TemplateShape::RecurrentConvolution),
        TensorTemplate::new(SSM_DT_ROLE, TemplateShape::TimeStepRank),
        TensorTemplate::new(SSM_NORM_ROLE, TemplateShape::RecurrentHead),
        TensorTemplate::new(SSM_OUT_ROLE, TemplateShape::RecurrentOutput),
    ];
    assert(templates@ =~= recurrent_roles());
    templates
}

/// The roles of a `NextN` block beyond those of full attention.
pub open spec fn nextn_extension_roles() -> Seq<TensorTemplate> {
    seq![
        template(NEXTN_EH_PROJ_ROLE, TemplateShape::NextNProjection),
        template(NEXTN_ENORM_ROLE, TemplateShape::Hidden),
        template(NEXTN_HNORM_ROLE, TemplateShape::Hidden),
        template(NEXTN_SHARED_HEAD_NORM_ROLE, TemplateShape::Hidden),
    ]
}

/// List the roles of a `NextN` block beyond those of full attention.
pub fn nextn_extension_templates() -> (templates: Vec<TensorTemplate>)
    ensures
        templates@ == nextn_extension_roles(),
{
    let templates = vec![
        TensorTemplate::new(NEXTN_EH_PROJ_ROLE, TemplateShape::NextNProjection),
        TensorTemplate::new(NEXTN_ENORM_ROLE, TemplateShape::Hidden),
        TensorTemplate::new(NEXTN_HNORM_ROLE, TemplateShape::Hidden),
        TensorTemplate::new(NEXTN_SHARED_HEAD_NORM_ROLE, TemplateShape::Hidden),
    ];
    assert(templates@ =~= nextn_extension_roles());
    templates
}

impl Dimensions {
    /// The projection widths of a full-attention block, unless one overflows.
    pub open spec fn full_attention_shapes_spec(self) -> Result<FullAttentionShapes, Error> {
        if self.heads * self.key_width > u64::MAX {
            overflow("attention query heads times key width")
        } else if self.heads * self.key_width * Q_PROJECTION_MULTIPLIER > u64::MAX {
            overflow("attention query projection multiplier")
        } else if self.key_value_heads * self.key_width > u64::MAX {
            overflow("attention key-value heads times key width")
        } else if self.key_value_heads * self.value_width > u64::MAX {
            overflow("attention key-value heads times value width")
        } else {
            Ok(
                FullAttentionShapes {
                    query: (self.heads * self.key_width * Q_PROJECTION_MULTIPLIER) as u64,
                    key: (self.key_value_heads * self.key_width) as u64,
                    value: (self.key_value_heads * self.value_width) as u64,
                    output: (self.heads * self.key_width) as u64,
                },
            )
        }
    }

    /// The projection widths of a recurrent block, unless one overflows.
    pub open spec fn recurrent_shapes_spec(self) -> Result<RecurrentShapes, Error> {
        let key_width = self.state * self.group_count;
        if key_width > u64::MAX {
            overflow("SSM state size times group count")
        } else if key_width * Q_PROJECTION_MULTIPLIER > u64::MAX {
            overflow("double SSM key width")
        } else if key_width * Q_PROJECTION_MULTIPLIER + self.inner > u64::MAX {
            overflow("SSM convolution width")
        } else {
            Ok(
                RecurrentShapes {
                    conv_width: (key_width * Q_PROJECTION_MULTIPLIER + self.inner) as u64,
                    head_width: self.inner / self.time_step_rank,
                },
            )
        }
    }

    /// Whether main block `block` uses full attention.
    pub open spec fn is_full_attention(self, block: int) -> bool {
        (block + 1) % (self.full_attention_interval as int) == 0
    }

    /// The number of full-attention main blocks.
    pub open spec fn full_attention_blocks(self) -> int {
        self.main_block_count as int / self.full_attention_interval as int
    }

    /// The roles of stored block `block`, in inventory order.
    pub open spec fn block_roles(self, block: int) -> Seq<TensorTemplate> {
        if block >= self.main_block_count {
            common_block_roles() + full_attention_roles() + nextn_extension_roles()
        } else if self.is_full_attention(block) {
            common_block_roles() + full_attention_roles()
        } else {
            common_block_roles() + recurrent_roles()
        }
    }

    /// Derive the projection widths of a full-attention block.
    pub fn full_attention_shapes(&self) -> (shapes: Result<FullAttentionShapes, Error>)
        ensures
            shapes == self.full_attention_shapes_spec(),
    {
        let query: u64 = checked_mul(
            checked_mul(self.heads, self.key_width, "attention query heads times key width")?,
            Q_PROJECTION_MULTIPLIER,
            "attention query projection multiplier",
        )?;
        let key: u64 = checked_mul(
            self.key_value_heads,
            self.key_width,
            "attention key-value heads times key width",
        )?;
        let value: u64 = checked_mul(
            self.key_value_heads,
            self.value_width,
            "attention key-value heads times value width",
        )?;
        let output: u64 = checked_mul(
            self.heads,
            self.key_width,
            "attention output heads times key width",
        )?;
        Ok(FullAttentionShapes { query, key, value, output })
    }

    /// Whether the inner width is divided by a positive rank, if it is divided at all:
    /// an overflowed width is refused before.
    pub open spec fn divisible(self) -> bool {
        self.time_step_rank > 0 || self.recurrent_shapes_spec() is Err
    }

    /// Whether a main block is recurrent.
    pub open spec fn has_recurrent_block(self) -> bool {
        self.main_block_count > 0 && self.full_attention_interval != 1
    }

    /// Derive the projection widths of a recurrent block.
    pub fn recurrent_shapes(&self) -> (shapes: Result<RecurrentShapes, Error>)
        requires
            self.divisible(),
        ensures
            shapes == self.recurrent_shapes_spec(),
    {
        let key_width: u64 = checked_mul(
            self.state,
            self.group_count,
            "SSM state size times group count",
        )?;
        let double_key_width: u64 = checked_mul(
            key_width,
            Q_PROJECTION_MULTIPLIER,
            "double SSM key width",
        )?;
        let conv_width: u64 = checked_add(double_key_width, self.inner, "SSM convolution width")?;
        Ok(RecurrentShapes { conv_width, head_width: self.inner / self.time_step_rank })
    }

    /// Count the full-attention main blocks.
    pub fn full_attention_count(&self) -> (count: u64)
        requires
            self.full_attention_interval > 0,
        ensures
            count == self.full_attention_blocks(),
    {
        self.main_block_count / self.full_attention_interval
    }

    /// Count the recurrent main blocks.
    pub fn recurrent_count(&self) -> (count: u64)
        requires
            self.full_attention_interval > 0,
        ensures
            count == self.main_block_count - self.full_attention_blocks(),
    {
        proof {
            lemma_quotient_bound(self.main_block_count as int, self.full_attention_interval as int);
        }
        self.main_block_count - self.full_attention_count()
    }

    /// Report whether main block `block_index` uses full attention.
    pub fn full_attention_block(&self, block_index: u64) -> (full: bool)
        requires
            block_index < u64::MAX,
            self.full_attention_interval > 0,
        ensures
            full == self.is_full_attention(block_index as int),
    {
        (block_index + 1).is_multiple_of(self.full_attention_interval)
    }

    /// The number of tensors of the inventory, unless a partial count overflows.
    pub open spec fn expected_count(self) -> Result<u64, Error> {
        let full = self.full_attention_blocks() * 11;
        let recurrent = (self.main_block_count - self.full_attention_blocks()) * 14;
        let nextn = self.nextn_block_count * 15;
        if recurrent > u64::MAX {
            overflow("recurrent tensor inventory")
        } else if full > u64::MAX {
            overflow("full-attention tensor inventory")
        } else if nextn > u64::MAX {
            overflow("NextN tensor inventory")
        } else if 3 + recurrent > u64::MAX {
            overflow("global plus recurrent tensor inventory")
        } else if 3 + recurrent + full > u64::MAX {
            overflow("full structural tensor inventory")
        } else if 3 + recurrent + full + nextn > u64::MAX {
            overflow("complete structural tensor inventory")
        } else {
            Ok((3 + recurrent + full + nextn) as u64)
        }
    }

    /// Count the tensors of the inventory.
    pub fn expected_tensor_count(&self) -> (count: Result<u64, Error>)
        requires
            self.full_attention_interval > 0,
        ensures
            count == self.expected_count(),
    {
        let global: u64 = template_count(&global_templates(), "global tensor inventory")?;
        let full_attention_roles: u64 = block_template_count(
            &full_attention_templates(),
            "full-attention tensor inventory",
        )?;
        let recurrent_roles: u64 = block_template_count(
            &recurrent_templates(),
            "recurrent tensor inventory",
        )?;
        let extension_roles: u64 = template_count(
            &nextn_extension_templates(),
            "NextN extension tensor inventory",
        )?;
        let nextn_roles: u64 = checked_add(
            full_attention_roles,
            extension_roles,
            "NextN tensor inventory",
        )?;
        let recurrent: u64 = checked_mul(
            self.recurrent_count(),
            recurrent_roles,
            "recurrent tensor inventory",
        )?;
        let full_attention: u64 = checked_mul(
            self.full_attention_count(),
            full_attention_roles,
            "full-attention tensor inventory",
        )?;
        let nextn: u64 = checked_mul(
            self.nextn_block_count,
            nextn_roles,
            "NextN tensor inventory",
        )?;
        let main: u64 = checked_add(
            checked_add(global, recurrent, "global plus recurrent tensor inventory")?,
            full_attention,
            "full structural tensor inventory",
        )?;
        checked_add(main, nextn, "complete structural tensor inventory")
    }
}

impl TensorTemplate {
    /// The shape of the template's tensor, unless its derivation overflows.
    pub open spec fn shape_spec(self, dimensions: Dimensions) -> Result<Seq<u64>, Error> {
        let full = dimensions.full_attention_shapes_spec();
        let recurrent = dimensions.recurrent_shapes_spec();
        match self.shape {
            TemplateShape::HiddenVocabulary => Ok(seq![dimensions.hidden, dimensions.vocabulary]),
            TemplateShape::Hidden => Ok(seq![dimensions.hidden]),
            TemplateShape::KeyWidth => Ok(seq![dimensions.key_width]),
            TemplateShape::FullAttentionKey => match full {
                Ok(shapes) => Ok(seq![dimensions.hidden, shapes.key]),
                Err(error) => Err(error),
            },
            TemplateShape::FullAttentionOutput => match full {
                Ok(shapes) => Ok(seq![shapes.output, dimensions.hidden]),
                Err(error) => Err(error),
            },
            TemplateShape::FullAttentionQuery => match full {
                Ok(shapes) => Ok(seq![dimensions.hidden, shapes.query]),
                Err(error) => Err(error),
            },
            TemplateShape::FullAttentionValue => match full {
                Ok(shapes) => Ok(seq![dimensions.hidden, shapes.value]),
                Err(error) => Err(error),
            },
            TemplateShape::FeedForwardDown => Ok(
                seq![dimensions.feed_forward, dimensions.hidden],
            ),
            TemplateShape::FeedForwardUp => Ok(seq![dimensions.hidden, dimensions.feed_forward]),
            TemplateShape::RecurrentGate => Ok(seq![dimensions.hidden, dimensions.inner]),
            TemplateShape::RecurrentQkv => match recurrent {
                Ok(shapes) => Ok(seq![dimensions.hidden, shapes.conv_width]),
                Err(error) => Err(error),
            },
            TemplateShape::TimeStepRank => Ok(seq![dimensions.time_step_rank]),
            TemplateShape::HiddenTimeStepRank => Ok(
                seq![dimensions.hidden, dimensions.time_step_rank],
            ),
            TemplateShape::RecurrentConvolution => match recurrent {
                Ok(shapes) => Ok(seq![dimensions.conv_kernel, shapes.conv_width]),
                Err(error) => Err(error),
            },
            TemplateShape::RecurrentHead => match recurrent {
                Ok(shapes) => Ok(seq![shapes.head_width]),
                Err(error) => Err(error),
            },
            TemplateShape::RecurrentOutput => Ok(seq![dimensions.inner, dimensions.hidden]),
            TemplateShape::NextNProjection => if dimensions.hidden * Q_PROJECTION_MULTIPLIER
                > u64::MAX {
                overflow("NextN hidden projection width")
            } else {
                Ok(
                    seq![
                        (dimensions.hidden * Q_PROJECTION_MULTIPLIER) as u64,
                        dimensions.hidden,
                    ],
                )
            },
        }
    }

    /// Whether the shape comes from the projection widths of a recurrent block.
    pub open spec fn divides(self) -> bool {
        match self.shape {
            TemplateShape::RecurrentQkv | TemplateShape::RecurrentConvolution
            | TemplateShape::RecurrentHead => true,
            _ => false,
        }
    }

    /// Derive the shape of the template's tensor.
    pub fn shape(self, dimensions: &Dimensions) -> (shape: Result<Vec<u64>, Error>)
        requires
            self.divides() ==> dimensions.divisible(),
        ensures
            match shape {
                Ok(shape) => self.shape_spec(*dimensions) == Ok::<Seq<u64>, Error>(shape@),
                Err(error) => self.shape_spec(*dimensions) == Err::<Seq<u64>, Error>(error),
            },
    {
        let shape = match self.shape {
            TemplateShape::HiddenVocabulary => vec![dimensions.hidden, dimensions.vocabulary],
            TemplateShape::Hidden => vec![dimensions.hidden],
            TemplateShape::KeyWidth => vec![dimensions.key_width],
            TemplateShape::FullAttentionKey => {
                let shapes = dimensions.full_attention_shapes()?;
                vec![dimensions.hidden, shapes.key]
            },
            TemplateShape::FullAttentionOutput => {
                let shapes = dimensions.full_attention_shapes()?;
                vec![shapes.output, dimensions.hidden]
            },
            TemplateShape::FullAttentionQuery => {
                let shapes = dimensions.full_attention_shapes()?;
                vec![dimensions.hidden, shapes.query]
            },
            TemplateShape::FullAttentionValue => {
                let shapes = dimensions.full_attention_shapes()?;
                vec![dimensions.hidden, shapes.value]
            },
            TemplateShape::FeedForwardDown => vec![dimensions.feed_forward, dimensions.hidden],
            TemplateShape::FeedForwardUp => vec![dimensions.hidden, dimensions.feed_forward],
            TemplateShape::RecurrentGate => vec![dimensions.hidden, dimensions.inner],
            TemplateShape::RecurrentQkv => {
                let shapes = dimensions.recurrent_shapes()?;
                vec![dimensions.hidden, shapes.conv_width]
            },
            TemplateShape::TimeStepRank => vec![dimensions.time_step_rank],
            TemplateShape::HiddenTimeStepRank => {
                vec![dimensions.hidden, dimensions.time_step_rank]
            },
            TemplateShape::RecurrentConvolution => {
                let shapes = dimensions.recurrent_shapes()?;
                vec![dimensions.conv_kernel, shapes.conv_width]
            },
            TemplateShape::RecurrentHead => {
                let shapes = dimensions.recurrent_shapes()?;
                vec![shapes.head_width]
            },
            TemplateShape::RecurrentOutput => vec![dimensions.inner, dimensions.hidden],
            TemplateShape::NextNProjection => {
                let width: u64 = checked_mul(
                    dimensions.hidden,
                    Q_PROJECTION_MULTIPLIER,
                    "NextN hidden projection width",
                )?;
                vec![width, dimensions.hidden]
            },
        };
        proof {
            if let Ok(expected) = self.shape_spec(*dimensions) {
                assert(shape@ =~= expected);
            }
        }
        Ok(shape)
    }
}

/// Count the templates of a list.
pub fn template_count(templates: &[TensorTemplate], context: &'static str) -> (count: Result<
    u64,
    Error,
>)
    ensures
        count == Ok::<u64, Error>(templates@.len() as u64),
{
    match u64::try_from(templates.len()) {
        Ok(count) => Ok(count),
        Err(_) => Err(Error::ArithmeticOverflow { context }),
    }
}

/// Count the common roles together with the roles of one block kind.
pub fn block_template_count(
    specific_templates: &[TensorTemplate],
    context: &'static str,
) -> (count: Result<u64, Error>)
    ensures
        count == sum_of(5, specific_templates@.len() as u64, context),
{
    let common: u64 = template_count(&common_block_templates(), context)?;
    let specific: u64 = template_count(specific_templates, context)?;
    checked_add(common, specific, context)
}

proof fn lemma_quotient_bound(number: int, divisor: int)
    requires
        number >= 0,
        divisor > 0,
    ensures
        0 <= number / divisor <= number,
{
    assert(0 <= number / divisor <= number) by (nonlinear_arith)
        requires
            number >= 0,
            divisor > 0,
    ;
}

/// Whether no two roles of a list are named alike.
pub open spec fn distinct_roles(roles: Seq<TensorTemplate>) -> bool {
    forall|i: int, j: int|
        #![trigger roles[i], roles[j]]
        0 <= i < j < roles.len() ==> roles[i].role@ != roles[j].role@
}

/// The length and four characters of a role name: enough to tell the roles of a block apart.
spec fn mark(role: Seq<char>) -> (nat, char, char, char, char) {
    (role.len(), role[0], role[4], role[5], role[6])
}

proof fn lemma_role_marks()
    ensures
        mark(ATTN_NORM_ROLE@) == (16nat, 'a', '_', 'n', 'o'),
        mark(FFN_DOWN_ROLE@) == (15nat, 'f', 'd', 'o', 'w'),
        mark(FFN_GATE_ROLE@) == (15nat, 'f', 'g', 'a', 't'),
        mark(FFN_UP_ROLE@) == (13nat, 'f', 'u', 'p', '.'),
        mark(POST_ATTENTION_NORM_ROLE@) == (26nat, 'p', '_', 'a', 't'),
        mark(ATTN_K_ROLE@) == (13nat, 'a', '_', 'k', '.'),
        mark(ATTN_K_NORM_ROLE@) == (18nat, 'a', '_', 'k', '_'),
        mark(ATTN_OUTPUT_ROLE@) == (18nat, 'a', '_', 'o', 'u'),
        mark(ATTN_Q_ROLE@) == (13nat, 'a', '_', 'q', '.'),
        mark(ATTN_Q_NORM_ROLE@) == (18nat, 'a', '_', 'q', '_'),
        mark(ATTN_V_ROLE@) == (13nat, 'a', '_', 'v', '.'),
        mark(ATTN_GATE_ROLE@) == (16nat, 'a', '_', 'g', 'a'),
        mark(ATTN_QKV_ROLE@) == (15nat, 'a', '_', 'q', 'k'),
        SSM_A_ROLE@.len() == 5,
        mark(SSM_ALPHA_ROLE@) == (16nat, 's', 'a', 'l', 'p'),
        mark(SSM_BETA_ROLE@) == (15nat, 's', 'b', 'e', 't'),
        mark(SSM_CONV1D_ROLE@) == (17nat, 's', 'c', 'o', 'n'),
        mark(SSM_DT_ROLE@) == (11nat, 's', 'd', 't', '.'),
        mark(SSM_NORM_ROLE@) == (15nat, 's', 'n', 'o', 'r'),
        mark(SSM_OUT_ROLE@) == (14nat, 's', 'o', 'u', 't'),
        mark(NEXTN_EH_PROJ_ROLE@) == (20nat, 'n', 'n', '.', 'e'),
        mark(NEXTN_ENORM_ROLE@) == (18nat, 'n', 'n', '.', 'e'),
        mark(NEXTN_HNORM_ROLE@) == (18nat, 'n', 'n', '.', 'h'),
        mark(NEXTN_SHARED_HEAD_NORM_ROLE@) == (29nat, 'n', 'n', '.', 's'),
{
    reveal_strlit("attn_norm.weight");
    reveal_strlit("ffn_down.weight");
    reveal_strlit("ffn_gate.weight");
    reveal_strlit("ffn_up.weight");
    reveal_strlit("post_attention_norm.weight");
    reveal_strlit("attn_k.weight");
    reveal_strlit("attn_k_norm.weight");
    reveal_strlit("attn_output.weight");
    reveal_strlit("attn_q.weight");
    reveal_strlit("attn_q_norm.weight");
    reveal_strlit("attn_v.weight");
    reveal_strlit("attn_gate.weight");
    reveal_strlit("attn_qkv.weight");
    reveal_strlit("ssm_a");
    reveal_strlit("ssm_alpha.weight");
    reveal_strlit("ssm_beta.weight");
    reveal_strlit("ssm_conv1d.weight");
    reveal_strlit("ssm_dt.bias");
    reveal_strlit("ssm_norm.weight");
    reveal_strlit("ssm_out.weight");
    reveal_strlit("nextn.eh_proj.weight");
    reveal_strlit("nextn.enorm.weight");
    reveal_strlit("nextn.hnorm.weight");
    reveal_strlit("nextn.shared_head_norm.weight");
}

/// The roles of every block kind are named differently.
proof fn lemma_distinct_roles(dimensions: Dimensions, block: int)
    ensures
        distinct_roles(dimensions.block_roles(block)),
{
    let roles = dimensions.block_roles(block);
    lemma_role_marks();
    assert forall|i: int, j: int|
        #![trigger roles[i], roles[j]]
        0 <= i < j < roles.len() implies roles[i].role@ != roles[j].role@ by {
        if roles[i].role@ == roles[j].role@ {
            assert(mark(roles[i].role@) == mark(roles[j].role@));
        }
    }
}

/// One tensor of the inventory: a role, in a numbered block or outside every block.
pub type Slot = (Option<u64>, TensorTemplate);

/// The name of a slot's tensor.
pub open spec fn slot_name(slot: Slot) -> Seq<char> {
    match slot.0 {
        Some(block) => text::block_name_spec(block as nat, slot.1.role@),
        None => slot.1.role@,
    }
}

/// The slots of a list of roles in one block.
pub open spec fn slots_of(block: Option<u64>, roles: Seq<TensorTemplate>) -> Seq<Slot> {
    Seq::new(roles.len(), |i: int| (block, roles[i]))
}

/// The slots outside every block and those of the first `blocks` stored blocks.
pub open spec fn slots_upto(dimensions: Dimensions, blocks: int) -> Seq<Slot>
    decreases blocks,
{
    if blocks <= 0 {
        slots_of(None, global_roles())
    } else {
        slots_upto(dimensions, blocks - 1) + slots_of(
            Some((blocks - 1) as u64),
            dimensions.block_roles(blocks - 1),
        )
    }
}

/// Every slot of the inventory, in order.
pub open spec fn slots(dimensions: Dimensions) -> Seq<Slot> {
    slots_upto(dimensions, dimensions.main_block_count + dimensions.nextn_block_count)
}

/// Whether no two slots of a list name the same tensor.
pub open spec fn distinct_slots(slots: Seq<Slot>) -> bool {
    forall|i: int, j: int|
        #![trigger slots[i], slots[j]]
        0 <= i < j < slots.len() ==> slot_name(slots[i]) != slot_name(slots[j])
}

/// Every block slot belongs to one of the first `blocks` blocks.
proof fn lemma_slot_blocks(dimensions: Dimensions, blocks: int)
    requires
        0 <= blocks <= u64::MAX,
    ensures
        forall|i: int|
            #![trigger slots_upto(dimensions, blocks)[i]]
            0 <= i < slots_upto(dimensions, blocks).len() ==> match slots_upto(
                dimensions,
                blocks,
            )[i].0 {
                Some(block) => block < blocks,
                None => slots_upto(dimensions, blocks)[i].1.role@[0] != 'b',
            },
    decreases blocks,
{
    if blocks == 0 {
        reveal_strlit("token_embd.weight");
        reveal_strlit("output_norm.weight");
        reveal_strlit("output.weight");
    } else {
        lemma_slot_blocks(dimensions, blocks - 1);
        let init = slots_upto(dimensions, blocks - 1);
        let all = slots_upto(dimensions, blocks);
        assert forall|i: int| 0 <= i < all.len() implies match #[trigger] all[i].0 {
            Some(block) => block < blocks,
            None => all[i].1.role@[0] != 'b',
        } by {
            if i < init.len() {
                assert(all[i] == init[i]);
            }
        }
    }
}

/// The first `blocks` stored blocks name every tensor once.
proof fn lemma_distinct_slots_upto(dimensions: Dimensions, blocks: int)
    requires
        0 <= blocks <= u64::MAX,
    ensures
        distinct_slots(slots_upto(dimensions, blocks)),
    decreases blocks,
{
    let all = slots_upto(dimensions, blocks);
    if blocks == 0 {
        reveal_strlit("token_embd.weight");
        reveal_strlit("output_norm.weight");
        reveal_strlit("output.weight");
        assert forall|i: int, j: int|
            #![trigger all[i], all[j]]
            0 <= i < j < all.len() implies slot_name(all[i]) != slot_name(all[j]) by {
            assert(slot_name(all[i]).len() != slot_name(all[j]).len());
        }
    } else {
        let init = slots_upto(dimensions, blocks - 1);
        let block = (blocks - 1) as u64;
        let roles = dimensions.block_roles(blocks - 1);
        lemma_distinct_slots_upto(dimensions, blocks - 1);
        lemma_slot_blocks(dimensions, blocks - 1);
        lemma_distinct_roles(dimensions, blocks - 1);
        reveal_strlit("blk.");
        assert forall|i: int, j: int|
            #![trigger all[i], all[j]]
            0 <= i < j < all.len() implies slot_name(all[i]) != slot_name(all[j]) by {
            if j < init.len() {
                assert(all[i] == init[i] && all[j] == init[j]);
            } else {
                let right = roles[j - init.len()].role@;
                assert(all[j] == (Some(block), roles[j - init.len()]));
                assert(slot_name(all[j])[0] == 'b');
                if slot_name(all[i]) == slot_name(all[j]) {
                    if i < init.len() {
                        assert(all[i] == init[i]);
                        if let Some(left_block) = all[i].0 {
                            text::lemma_block_name_injective(
                                left_block as nat,
                                all[i].1.role@,
                                block as nat,
                                right,
                            );
                        }
                    } else {
                        text::lemma_block_name_injective(
                            block as nat,
                            roles[i - init.len()].role@,
                            block as nat,
                            right,
                        );
                    }
                }
            }
        }
    }
}

/// Structural role names are unique: no two tensors of the inventory share a name.
pub proof fn lemma_inventory_names_unique(dimensions: Dimensions)
    requires
        dimensions.main_block_count + dimensions.nextn_block_count <= u64::MAX,
    ensures
        distinct_slots(slots(dimensions)),
{
    lemma_distinct_slots_upto(
        dimensions,
        dimensions.main_block_count + dimensions.nextn_block_count,
    );
}

/// The quotient of the next number is one more where the divisor divides it, and the
/// same elsewhere.
pub proof fn lemma_next_quotient(number: int, divisor: int)
    requires
        number >= 0,
        divisor > 0,
    ensures
        (number + 1) / divisor == number / divisor + (if (number + 1) % divisor == 0 {
            1int
        } else {
            0
        }),
{
    vstd::arithmetic::div_mod::lemma_fundamental_div_mod(number, divisor);
    vstd::arithmetic::div_mod::lemma_fundamental_div_mod(number + 1, divisor);
    let q = number / divisor;
    let r = number % divisor;
    if r + 1 < divisor {
        assert(number + 1 == q * divisor + (r + 1)) by (nonlinear_arith)
            requires
                number == divisor * q + r,
        ;
        vstd::arithmetic::div_mod::lemma_fundamental_div_mod_converse(
            number + 1,
            divisor,
            q,
            r + 1,
        );
    } else {
        assert(number + 1 == (q + 1) * divisor) by (nonlinear_arith)
            requires
                number == divisor * q + r,
                r + 1 == divisor,
        ;
        vstd::arithmetic::div_mod::lemma_fundamental_div_mod_converse(
            number + 1,
            divisor,
            q + 1,
            0,
        );
    }
}

/// The number of full-attention blocks among the first `blocks` main blocks.
pub open spec fn full_attention_upto(dimensions: Dimensions, blocks: int) -> int
    decreases blocks,
{
    if blocks <= 0 {
        0
    } else {
        full_attention_upto(dimensions, blocks - 1) + (if dimensions.is_full_attention(
            blocks - 1,
        ) {
            1int
        } else {
            0
        })
    }
}

/// Every interval-th block is a full-attention block: the first `blocks` main
/// blocks hold `blocks / interval` of them.
pub proof fn lemma_full_attention_upto(dimensions: Dimensions, blocks: int)
    requires
        blocks >= 0,
        dimensions.full_attention_interval > 0,
    ensures
        full_attention_upto(dimensions, blocks) == blocks / (
        dimensions.full_attention_interval as int),
    decreases blocks,
{
    if blocks > 0 {
        lemma_full_attention_upto(dimensions, blocks - 1);
        lemma_next_quotient(blocks - 1, dimensions.full_attention_interval as int);
    } else {
        assert(0int / (dimensions.full_attention_interval as int) == 0) by (nonlinear_arith)
            requires
                dimensions.full_attention_interval > 0,
        ;
    }
}

proof fn lemma_slot_count_upto(dimensions: Dimensions, blocks: int)
    requires
        0 <= blocks,
    ensures
        blocks <= dimensions.main_block_count ==> slots_upto(dimensions, blocks).len() == 3 + 14 * (
        blocks - full_attention_upto(dimensions, blocks)) + 11 * full_attention_upto(
            dimensions,
            blocks,
        ),
        blocks >= dimensions.main_block_count ==> slots_upto(dimensions, blocks).len()
            == slots_upto(dimensions, dimensions.main_block_count as int).len() + 15 * (blocks
            - dimensions.main_block_count),
    decreases blocks,
{
    if blocks > 0 {
        lemma_slot_count_upto(dimensions, blocks - 1);
    }
}

/// The inventory has as many slots as its checked count says.
pub proof fn lemma_inventory_count(dimensions: Dimensions)
    requires
        dimensions.full_attention_interval > 0,
        dimensions.expected_count() is Ok,
    ensures
        dimensions.expected_count() == Ok::<u64, Error>(slots(dimensions).len() as u64),
        slots(dimensions).len() <= u64::MAX,
        dimensions.main_block_count + dimensions.nextn_block_count <= u64::MAX,
{
    let main = dimensions.main_block_count as int;
    lemma_slot_count_upto(dimensions, main);
    lemma_slot_count_upto(dimensions, main + dimensions.nextn_block_count);
    lemma_full_attention_upto(dimensions, main);
    lemma_quotient_bound(main, dimensions.full_attention_interval as int);
}

/// The first shape derivation of a list of slots that overflows, if one does.
pub open spec fn shape_failure(dimensions: Dimensions, slots: Seq<Slot>) -> Option<Error>
    decreases slots.len(),
{
    if slots.len() == 0 {
        None
    } else if let Some(error) = shape_failure(dimensions, slots.drop_last()) {
        Some(error)
    } else {
        match slots.last().1.shape_spec(dimensions) {
            Ok(_) => None,
            Err(error) => Some(error),
        }
    }
}

/// The names and shapes of the slots before the first failed derivation.
pub open spec fn rendered(dimensions: Dimensions, slots: Seq<Slot>) -> Seq<(Seq<char>, Seq<u64>)>
    decreases slots.len(),
{
    if slots.len() == 0 {
        Seq::empty()
    } else if shape_failure(dimensions, slots) is Some {
        rendered(dimensions, slots.drop_last())
    } else {
        rendered(dimensions, slots.drop_last()).push(
            (slot_name(slots.last()), slots.last().1.shape_spec(dimensions)->Ok_0),
        )
    }
}

/// The names and shapes of a list of expected tensors.
pub open spec fn entries(tensors: Seq<ExpectedTensor>) -> Seq<(Seq<char>, Seq<u64>)> {
    Seq::new(tensors.len(), |i: int| tensors[i]@)
}

/// Whether no entry has a name.
pub open spec fn absent(entries: Seq<(Seq<char>, Seq<u64>)>, name: Seq<char>) -> bool {
    forall|i: int| 0 <= i < entries.len() ==> (#[trigger] entries[i]).0 != name
}

/// Whether the slots name different tensors, and none that is already listed.
pub open spec fn fresh(entries: Seq<(Seq<char>, Seq<u64>)>, slots: Seq<Slot>) -> bool {
    &&& distinct_slots(slots)
    &&& forall|i: int| 0 <= i < slots.len() ==> absent(entries, slot_name(#[trigger] slots[i]))
}

proof fn lemma_rendered_append(dimensions: Dimensions, left: Seq<Slot>, right: Seq<Slot>)
    ensures
        shape_failure(dimensions, left + right) == (match shape_failure(dimensions, left) {
            Some(error) => Some(error),
            None => shape_failure(dimensions, right),
        }),
        rendered(dimensions, left + right) == (match shape_failure(dimensions, left) {
            Some(_) => rendered(dimensions, left),
            None => rendered(dimensions, left) + rendered(dimensions, right),
        }),
    decreases right.len(),
{
    if right.len() == 0 {
        assert(left + right =~= left);
        assert(rendered(dimensions, left) + rendered(dimensions, right) =~= rendered(
            dimensions,
            left,
        ));
    } else {
        assert((left + right).drop_last() =~= left + right.drop_last());
        assert((left + right).last() == right.last());
        lemma_rendered_append(dimensions, left, right.drop_last());
        assert(rendered(dimensions, left + right) =~= (match shape_failure(dimensions, left) {
            Some(_) => rendered(dimensions, left),
            None => rendered(dimensions, left) + rendered(dimensions, right),
        }));
    }
}

/// Rendered slots keep their order and carry their slot's name and shape.
pub proof fn lemma_rendered_slots(dimensions: Dimensions, slots: Seq<Slot>)
    ensures
        rendered(dimensions, slots).len() <= slots.len(),
        shape_failure(dimensions, slots) is None ==> rendered(dimensions, slots).len()
            == slots.len(),
        forall|i: int|
            0 <= i < rendered(dimensions, slots).len() ==> {
                &&& (#[trigger] rendered(dimensions, slots)[i]).0 == slot_name(slots[i])
                &&& slots[i].1.shape_spec(dimensions) == Ok::<Seq<u64>, Error>(
                    rendered(dimensions, slots)[i].1,
                )
            },
    decreases slots.len(),
{
    if slots.len() > 0 {
        lemma_rendered_slots(dimensions, slots.drop_last());
        let init = rendered(dimensions, slots.drop_last());
        let all = rendered(dimensions, slots);
        assert forall|i: int| 0 <= i < all.len() implies {
            &&& (#[trigger] all[i]).0 == slot_name(slots[i])
            &&& slots[i].1.shape_spec(dimensions) == Ok::<Seq<u64>, Error>(all[i].1)
        } by {
            if i < init.len() {
                assert(all[i] == init[i]);
                assert(slots[i] == slots.drop_last()[i]);
            }
        }
    }
}

/// Name the tensor of `role` in block `block_index`.
pub fn block_tensor_name(block_index: u64, role: &str) -> (name: String)
    ensures
        name@ == text::block_name_spec(block_index as nat, role@),
{
    text::numbered_name(block_index, role)
}

/// Add one expected tensor that is not listed yet.
pub fn add_tensor(tensors: &mut Vec<ExpectedTensor>, name: String, shape: Vec<u64>)
    requires
        absent(entries(old(tensors)@), name@),
    ensures
        entries(final(tensors)@) == entries(old(tensors)@).push((name@, shape@)),
{
    tensors.push(ExpectedTensor { name, shape });
    assert(entries(tensors@) =~= entries(old(tensors)@).push((name@, shape@)));
}

/// Whether the shapes of roles that divide a width divide it by a positive rank.
pub open spec fn shapes_divisible(dimensions: Dimensions, templates: Seq<TensorTemplate>) -> bool {
    forall|i: int|
        0 <= i < templates.len() && (#[trigger] templates[i]).divides() ==> dimensions.divisible()
}

/// Add the tensors of a list of roles, up to the first shape that overflows.
pub fn add_templates(
    tensors: &mut Vec<ExpectedTensor>,
    dimensions: &Dimensions,
    block_index: Option<u64>,
    templates: &[TensorTemplate],
) -> (added: Result<(), Error>)
    requires
        shapes_divisible(*dimensions, templates@),
        fresh(entries(old(tensors)@), slots_of(block_index, templates@)),
    ensures
        entries(final(tensors)@) == entries(old(tensors)@) + rendered(
            *dimensions,
            slots_of(block_index, templates@),
        ),
        match added {
            Ok(_) => shape_failure(*dimensions, slots_of(block_index, templates@)) is None,
            Err(error) => shape_failure(*dimensions, slots_of(block_index, templates@)) == Some(
                error,
            ),
        },
{
    let ghost slots = slots_of(block_index, templates@);
    let ghost before = entries(tensors@);
    let mut i: usize = 0;
    assert(slots.take(0) =~= Seq::<Slot>::empty());
    assert(before + rendered(*dimensions, slots.take(0)) =~= before);
    while i < templates.len()
        invariant
            0 <= i <= templates.len(),
            shapes_divisible(*dimensions, templates@),
            slots == slots_of(block_index, templates@),
            before == entries(old(tensors)@),
            fresh(before, slots),
            shape_failure(*dimensions, slots.take(i as int)) is None,
            entries(tensors@) == before + rendered(*dimensions, slots.take(i as int)),
        decreases templates.len() - i,
    {
        let template = templates[i];
        let name = match block_index {
            Some(index) => block_tensor_name(index, template.role),
            None => template.role.to_owned(),
        };
        let ghost prefix = slots.take(i as int);
        let ghost longer = slots.take(i + 1);
        proof {
            assert(longer.drop_last() =~= prefix);
            assert(longer.last() == slots[i as int]);
            assert(name@ == slot_name(slots[i as int]));
            assert(slots =~= longer + slots.skip(i + 1));
            lemma_rendered_append(*dimensions, longer, slots.skip(i + 1));
            lemma_rendered_slots(*dimensions, prefix);
        }
        match template.shape(dimensions) {
            Err(error) => {
                return Err(error);
            },
            Ok(shape) => {
                assert(absent(entries(tensors@), name@)) by {
                    let listed = entries(tensors@);
                    assert forall|k: int| 0 <= k < listed.len() implies (#[trigger] listed[k]).0
                        != name@ by {
                        if k < before.len() {
                            assert(listed[k] == before[k]);
                            assert(absent(before, slot_name(slots[i as int])));
                        } else {
                            let at = k - before.len();
                            assert(listed[k] == rendered(*dimensions, prefix)[at]);
                            assert(prefix[at] == slots[at]);
                            assert(slot_name(slots[at]) != slot_name(slots[i as int]));
                        }
                    }
                }
                add_tensor(tensors, name, shape);
                proof {
                    assert(entries(tensors@) =~= before + rendered(*dimensions, longer));
                }
            },
        }
        i = i + 1;
    }
    assert(slots.take(i as int) =~= slots);
    Ok(())
}

/// Add the tensors of the common roles and of one block kind.
pub fn add_block_templates(
    tensors: &mut Vec<ExpectedTensor>,
    dimensions: &Dimensions,
    block_index: u64,
    specific_templates: &[TensorTemplate],
) -> (added: Result<(), Error>)
    requires
        shapes_divisible(*dimensions, specific_templates@),
        fresh(
            entries(old(tensors)@),
            slots_of(Some(block_index), common_block_roles() + specific_templates@),
        ),
    ensures
        entries(final(tensors)@) == entries(old(tensors)@) + rendered(
            *dimensions,
            slots_of(Some(block_index), common_block_roles() + specific_templates@),
        ),
        match added {
            Ok(_) => shape_failure(
                *dimensions,
                slots_of(Some(block_index), common_block_roles() + specific_templates@),
            ) is None,
            Err(error) => shape_failure(
                *dimensions,
                slots_of(Some(block_index), common_block_roles() + specific_templates@),
            ) == Some(error),
        },
{
    let common = common_block_templates();
    let ghost left = slots_of(Some(block_index), common@);
    let ghost right = slots_of(Some(block_index), specific_templates@);
    let ghost before = entries(tensors@);
    proof {
        assert(slots_of(Some(block_index), common_block_roles() + specific_templates@) =~= left
            + right);
        lemma_rendered_append(*dimensions, left, right);
        lemma_fresh_split(before, left, right);
    }
    add_templates(tensors, dimensions, Some(block_index), &common)?;
    proof {
        lemma_fresh_after(*dimensions, before, left, right);
    }
    let added = add_templates(tensors, dimensions, Some(block_index), specific_templates);
    proof {
        assert(entries(tensors@) =~= before + (rendered(*dimensions, left) + rendered(
            *dimensions,
            right,
        )));
    }
    added
}

proof fn lemma_fresh_split(
    entries: Seq<(Seq<char>, Seq<u64>)>,
    left: Seq<Slot>,
    right: Seq<Slot>,
)
    requires
        fresh(entries, left + right),
    ensures
        fresh(entries, left),
        fresh(entries, right),
{
    let all = left + right;
    assert forall|i: int| 0 <= i < left.len() implies absent(
        entries,
        slot_name(#[trigger] left[i]),
    ) by {
        assert(all[i] == left[i]);
    }
    assert forall|i: int| 0 <= i < right.len() implies absent(
        entries,
        slot_name(#[trigger] right[i]),
    ) by {
        assert(all[left.len() + i] == right[i]);
    }
    assert forall|i: int, j: int|
        #![trigger left[i], left[j]]
        0 <= i < j < left.len() implies slot_name(left[i]) != slot_name(left[j]) by {
        assert(all[i] == left[i] && all[j] == left[j]);
    }
    assert forall|i: int, j: int|
        #![trigger right[i], right[j]]
        0 <= i < j < right.len() implies slot_name(right[i]) != slot_name(right[j]) by {
        assert(all[left.len() + i] == right[i] && all[left.len() + j] == right[j]);
    }
}

proof fn lemma_fresh_after(
    dimensions: Dimensions,
    entries: Seq<(Seq<char>, Seq<u64>)>,
    left: Seq<Slot>,
    right: Seq<Slot>,
)
    requires
        fresh(entries, left + right),
    ensures
        fresh(entries + rendered(dimensions, left), right),
{
    let all = left + right;
    let listed = entries + rendered(dimensions, left);
    lemma_fresh_split(entries, left, right);
    lemma_rendered_slots(dimensions, left);
    assert forall|i: int| 0 <= i < right.len() implies absent(
        listed,
        slot_name(#[trigger] right[i]),
    ) by {
        assert forall|k: int| 0 <= k < listed.len() implies (#[trigger] listed[k]).0 != slot_name(
            right[i],
        ) by {
            if k < entries.len() {
                assert(listed[k] == entries[k]);
                assert(absent(entries, slot_name(right[i])));
            } else {
                let at = k - entries.len();
                assert(listed[k] == rendered(dimensions, left)[at]);
                assert(all[at] == left[at]);
                assert(all[left.len() + i] == right[i]);
            }
        }
    }
}

/// Why the expected tensors cannot be listed, if they cannot.
pub open spec fn inventory_failure(dimensions: Dimensions) -> Option<Error> {
    match dimensions.expected_count() {
        Err(error) => Some(error),
        Ok(count) => if count > usize::MAX {
            Some(Error::ArithmeticOverflow { context: "expected tensor inventory capacity" })
        } else {
            shape_failure(dimensions, slots(dimensions))
        },
    }
}

/// List the expected tensors: the name and shape of every slot, in order.
pub fn expected_tensors(dimensions: &Dimensions) -> (tensors: Result<Vec<ExpectedTensor>, Error>)
    requires
        dimensions.full_attention_interval > 0,
        dimensions.has_recurrent_block() ==> dimensions.divisible(),
    ensures
        match tensors {
            Ok(tensors) => {
                &&& inventory_failure(*dimensions) is None
                &&& entries(tensors@) == rendered(*dimensions, slots(*dimensions))
                &&& tensors@.len() == slots(*dimensions).len()
            },
            Err(error) => inventory_failure(*dimensions) == Some(error),
        },
{
    let expected_count: u64 = dimensions.expected_tensor_count()?;
    let capacity: usize = match usize::try_from(expected_count) {
        Ok(capacity) => capacity,
        Err(_) => {
            return Err(
                Error::ArithmeticOverflow { context: "expected tensor inventory capacity" },
            );
        },
    };
    let ghost d = *dimensions;
    let ghost stored = d.main_block_count + d.nextn_block_count;
    proof {
        lemma_inventory_count(d);
        lemma_distinct_slots_upto(d, 0);
    }
    let mut tensors: Vec<ExpectedTensor> = Vec::with_capacity(capacity);
    let global = global_templates();
    proof {
        lemma_shape_failure_prefix(d, 0, stored);
        assert(entries(tensors@) =~= Seq::empty());
        assert(slots_of(None, global@) == slots_upto(d, 0));
    }
    add_templates(&mut tensors, dimensions, None, &global)?;
    assert(entries(tensors@) =~= rendered(d, slots_upto(d, 0)));
    let full_attention = full_attention_templates();
    let recurrent = recurrent_templates();
    let extension = nextn_extension_templates();
    let mut block_index: u64 = 0;
    while block_index < dimensions.main_block_count
        invariant
            d == *dimensions,
            d.full_attention_interval > 0,
            d.has_recurrent_block() ==> d.divisible(),
            d.expected_count() matches Ok(count) && count <= usize::MAX,
            stored == d.main_block_count + d.nextn_block_count <= u64::MAX,
            full_attention@ == full_attention_roles(),
            recurrent@ == recurrent_roles(),
            0 <= block_index <= d.main_block_count,
            shape_failure(d, slots_upto(d, block_index as int)) is None,
            entries(tensors@) == rendered(d, slots_upto(d, block_index as int)),
        decreases d.main_block_count - block_index,
    {
        proof {
            lemma_block_step(d, block_index as int, stored);
        }
        if dimensions.full_attention_block(block_index) {
            add_block_templates(&mut tensors, dimensions, block_index, &full_attention)?;
        } else {
            add_block_templates(&mut tensors, dimensions, block_index, &recurrent)?;
        }
        block_index = block_index + 1;
    }
    let mut nextn_offset: u64 = 0;
    while nextn_offset < dimensions.nextn_block_count
        invariant
            d == *dimensions,
            d.full_attention_interval > 0,
            d.has_recurrent_block() ==> d.divisible(),
            d.expected_count() matches Ok(count) && count <= usize::MAX,
            stored == d.main_block_count + d.nextn_block_count <= u64::MAX,
            full_attention@ == full_attention_roles(),
            extension@ == nextn_extension_roles(),
            0 <= nextn_offset <= d.nextn_block_count,
            shape_failure(d, slots_upto(d, d.main_block_count + nextn_offset)) is None,
            entries(tensors@) == rendered(d, slots_upto(d, d.main_block_count + nextn_offset)),
        decreases d.nextn_block_count - nextn_offset,
    {
        let block_index: u64 = checked_add(
            dimensions.main_block_count,
            nextn_offset,
            "NextN block index",
        )?;
        let ghost left = slots_of(Some(block_index), common_block_roles() + full_attention_roles());
        let ghost right = slots_of(Some(block_index), nextn_extension_roles());
        let ghost before = entries(tensors@);
        proof {
            lemma_block_step(d, block_index as int, stored);
            assert(slots_of(Some(block_index), d.block_roles(block_index as int)) =~= left
                + right);
            lemma_rendered_append(d, left, right);
            lemma_fresh_split(before, left, right);
        }
        add_block_templates(&mut tensors, dimensions, block_index, &full_attention)?;
        proof {
            lemma_fresh_after(d, before, left, right);
        }
        add_templates(&mut tensors, dimensions, Some(block_index), &extension)?;
        proof {
            assert(entries(tensors@) =~= before + (rendered(d, left) + rendered(d, right)));
        }
        nextn_offset = nextn_offset + 1;
    }
    proof {
        lemma_rendered_slots(d, slots(d));
    }
    Ok(tensors)
}

/// A derivation that fails in the first blocks fails in the whole inventory.
proof fn lemma_shape_failure_prefix(dimensions: Dimensions, blocks: int, stored: int)
    requires
        0 <= blocks <= stored,
    ensures
        shape_failure(dimensions, slots_upto(dimensions, blocks)) is Some ==> shape_failure(
            dimensions,
            slots_upto(dimensions, stored),
        ) == shape_failure(dimensions, slots_upto(dimensions, blocks)),
    decreases stored - blocks,
{
    if blocks < stored {
        lemma_shape_failure_prefix(dimensions, blocks, stored - 1);
        lemma_rendered_append(
            dimensions,
            slots_upto(dimensions, stored - 1),
            slots_of(Some((stored - 1) as u64), dimensions.block_roles(stored - 1)),
        );
    }
}

/// What adding the roles of one more stored block does to the rendered inventory.
proof fn lemma_block_step(dimensions: Dimensions, block: int, stored: int)
    requires
        0 <= block < stored <= u64::MAX,
        shape_failure(dimensions, slots_upto(dimensions, block)) is None,
    ensures
        ({
            let added = slots_of(Some(block as u64), dimensions.block_roles(block));
            let before = rendered(dimensions, slots_upto(dimensions, block));
            &&& fresh(before, added)
            &&& rendered(dimensions, slots_upto(dimensions, block + 1)) == before + rendered(
                dimensions,
                added,
            )
            &&& shape_failure(dimensions, slots_upto(dimensions, block + 1)) == shape_failure(
                dimensions,
                added,
            )
            &&& shape_failure(dimensions, added) is Some ==> shape_failure(
                dimensions,
                slots_upto(dimensions, stored),
            ) == shape_failure(dimensions, added)
        }),
{
    let left = slots_upto(dimensions, block);
    let added = slots_of(Some(block as u64), dimensions.block_roles(block));
    let empty = Seq::<(Seq<char>, Seq<u64>)>::empty();
    lemma_rendered_append(dimensions, left, added);
    lemma_shape_failure_prefix(dimensions, block + 1, stored);
    lemma_distinct_slots_upto(dimensions, block + 1);
    assert(fresh(empty, left + added));
    lemma_fresh_after(dimensions, empty, left, added);
    assert(empty + rendered(dimensions, left) =~= rendered(dimensions, left));
}

/// Whether an earlier tensor of a list has the name of tensor `i`.
pub open spec fn repeats(tensors: Seq<TensorDescriptor>, i: int) -> bool {
    exists|j: int| 0 <= j < i && (#[trigger] tensors[j]).name@ == tensors[i].name@
}

/// Whether a name is that of an entry.
pub open spec fn lists(entries: Seq<(Seq<char>, Seq<u64>)>, name: Seq<char>) -> bool {
    exists|k: int| 0 <= k < entries.len() && (#[trigger] entries[k]).0 == name
}

/// Whether tensor `i` is a first occurrence that matches an entry's name and shape.
pub open spec fn matches_entry(
    entries: Seq<(Seq<char>, Seq<u64>)>,
    tensors: Seq<TensorDescriptor>,
    i: int,
) -> bool {
    &&& !repeats(tensors, i)
    &&& entries.contains((tensors[i].name@, tensors[i].dims@))
}

/// What refuses tensor `i` of an inventory.
pub open spec fn refuses_tensor(
    entries: Seq<(Seq<char>, Seq<u64>)>,
    tensors: Seq<TensorDescriptor>,
    i: int,
    error: Error,
) -> bool {
    if repeats(tensors, i) {
        error matches Error::DuplicateTensor { name } && name@ == tensors[i].name@
    } else if !lists(entries, tensors[i].name@) {
        error matches Error::UnclassifiedTensor { name } && name@ == tensors[i].name@
    } else {
        error matches Error::TensorShape { name, expected, actual } && {
            &&& name@ == tensors[i].name@
            &&& actual@ == tensors[i].dims@
            &&& entries.contains((name@, expected@))
            &&& expected@ != actual@
        }
    }
}

/// Whether a list of tensors is exactly the inventory of the dimensions.
pub open spec fn inventory_admitted(
    dimensions: Dimensions,
    tensors: Seq<TensorDescriptor>,
) -> bool {
    &&& inventory_failure(dimensions) is None
    &&& tensors.len() == slots(dimensions).len()
    &&& forall|i: int|
        0 <= i < tensors.len() ==> #[trigger] matches_entry(
            rendered(dimensions, slots(dimensions)),
            tensors,
            i,
        )
}

/// Whether a list of tensors is refused with an error: the count is checked
/// first, then the derivations, then the tensors in order.
pub open spec fn inventory_refused(
    dimensions: Dimensions,
    tensors: Seq<TensorDescriptor>,
    error: Error,
) -> bool {
    match dimensions.expected_count() {
        Err(failure) => error == failure,
        Ok(count) => if tensors.len() != count {
            Some(error) == crate::qwen35::relation_failure(
                BLOCK_COUNT_KEY,
                "tensor count must derive exactly from the structural role inventory",
            )
        } else if inventory_failure(dimensions) is Some {
            inventory_failure(dimensions) == Some(error)
        } else {
            let entries = rendered(dimensions, slots(dimensions));
            exists|i: int|
                {
                    &&& 0 <= i < tensors.len()
                    &&& #[trigger] refuses_tensor(entries, tensors, i, error)
                    &&& !matches_entry(entries, tensors, i)
                    &&& forall|j: int| 0 <= j < i ==> #[trigger] matches_entry(entries, tensors, j)
                }
        },
    }
}

/// Admit exactly the tensors of the inventory, each once and of its shape.
pub fn validate_tensor_inventory(
    dimensions: &Dimensions,
    tensors: &[TensorDescriptor],
) -> (checked: Result<(), Error>)
    requires
        dimensions.full_attention_interval > 0,
        dimensions.has_recurrent_block() ==> dimensions.divisible(),
    ensures
        match checked {
            Ok(_) => inventory_admitted(*dimensions, tensors@),
            Err(error) => {
                &&& !inventory_admitted(*dimensions, tensors@)
                &&& inventory_refused(*dimensions, tensors@, error)
            },
        },
{
    let expected_count: u64 = dimensions.expected_tensor_count()?;
    proof {
        lemma_inventory_count(*dimensions);
    }
    if tensors.len() as u64 != expected_count {
        return Err(
            Error::MetadataRelation {
                key: BLOCK_COUNT_KEY,
                rule: "tensor count must derive exactly from the structural role inventory",
            },
        );
    }
    let expected = expected_tensors(dimensions)?;
    let ghost listed = rendered(*dimensions, slots(*dimensions));
    proof {
        lemma_inventory_names_unique(*dimensions);
        lemma_rendered_slots(*dimensions, slots(*dimensions));
    }
    let mut i: usize = 0;
    while i < tensors.len()
        invariant
            0 <= i <= tensors.len(),
            inventory_failure(*dimensions) is None,
            dimensions.expected_count() == Ok::<u64, Error>(tensors@.len() as u64),
            tensors@.len() == slots(*dimensions).len(),
            listed == rendered(*dimensions, slots(*dimensions)),
            entries(expected@) == listed,
            expected@.len() == listed.len() == slots(*dimensions).len(),
            distinct_slots(slots(*dimensions)),
            forall|k: int|
                0 <= k < listed.len() ==> (#[trigger] listed[k]).0 == slot_name(
                    slots(*dimensions)[k],
                ),
            forall|j: int| 0 <= j < i ==> #[trigger] matches_entry(listed, tensors@, j),
        decreases tensors.len() - i,
    {
        let tensor = &tensors[i];
        let ghost at = i as int;
        let mut j: usize = 0;
        while j < i
            invariant
                0 <= j <= i < tensors.len(),
                at == i,
                *tensor == tensors@[at],
                inventory_failure(*dimensions) is None,
                dimensions.expected_count() == Ok::<u64, Error>(tensors@.len() as u64),
                tensors@.len() == slots(*dimensions).len(),
                listed == rendered(*dimensions, slots(*dimensions)),
                forall|k: int| 0 <= k < j ==> (#[trigger] tensors@[k]).name@ != tensor.name@,
                forall|k: int| 0 <= k < i ==> #[trigger] matches_entry(listed, tensors@, k),
            decreases i - j,
        {
            if tensors[j].name == tensor.name {
                let error = Error::DuplicateTensor { name: tensor.name.clone() };
                assert(tensors@[j as int].name@ == tensors@[at].name@);
                assert(refuses_tensor(listed, tensors@, at, error));
                assert(!matches_entry(listed, tensors@, at));
                return Err(error);
            }
            j = j + 1;
        }
        assert(!repeats(tensors@, at));
        let mut k: usize = 0;
        while k < expected.len() && !(expected[k].name == tensor.name)
            invariant
                0 <= k <= expected.len(),
                entries(expected@) == listed,
                expected@.len() == listed.len(),
                forall|l: int| 0 <= l < k ==> (#[trigger] listed[l]).0 != tensor.name@,
            decreases expected.len() - k,
        {
            assert(listed[k as int] == expected@[k as int]@);
            k = k + 1;
        }
        if k == expected.len() {
            let error = Error::UnclassifiedTensor { name: tensor.name.clone() };
            assert(!lists(listed, tensors@[at].name@));
            assert(!matches_entry(listed, tensors@, at)) by {
                if listed.contains((tensors@[at].name@, tensors@[at].dims@)) {
                    let l = choose|l: int|
                        0 <= l < listed.len() && listed[l] == (
                            tensors@[at].name@,
                            tensors@[at].dims@,
                        );
                    assert(listed[l].0 == tensors@[at].name@);
                }
            }
            assert(refuses_tensor(listed, tensors@, at, error));
            return Err(error);
        }
        assert(listed[k as int] == expected@[k as int]@);
        assert(lists(listed, tensors@[at].name@));
        if !same_dims(&expected[k].shape, &tensor.dims) {
            let error = Error::TensorShape {
                name: tensor.name.clone(),
                expected: copy_dims(&expected[k].shape),
                actual: copy_dims(&tensor.dims),
            };
            assert(listed.contains((tensors@[at].name@, expected@[k as int].shape@)));
            assert(!matches_entry(listed, tensors@, at)) by {
                if listed.contains((tensors@[at].name@, tensors@[at].dims@)) {
                    let l = choose|l: int|
                        0 <= l < listed.len() && listed[l] == (
                            tensors@[at].name@,
                            tensors@[at].dims@,
                        );
                    let all = slots(*dimensions);
                    assert(listed[l].0 == slot_name(all[l]));
                    assert(listed[k as int].0 == slot_name(all[k as int]));
                    if l < k {
                        assert(slot_name(all[l]) != slot_name(all[k as int]));
                    } else if k < l {
                        assert(slot_name(all[k as int]) != slot_name(all[l]));
                    }
                }
            }
            assert(refuses_tensor(listed, tensors@, at, error));
            return Err(error);
        }
        assert(matches_entry(listed, tensors@, at)) by {
            assert(listed[k as int] == (tensors@[at].name@, tensors@[at].dims@));
        }
        i = i + 1;
    }
    Ok(())
}

/// Report whether two shapes are equal.
pub fn same_dims(left: &[u64], right: &[u64]) -> (same: bool)
    ensures
        same == (left@ == right@),
{
    if left.len() != right.len() {
        return false;
    }
    let mut i: usize = 0;
    while i < left.len()
        invariant
            0 <= i <= left.len() == right.len(),
            forall|j: int| 0 <= j < i ==> left@[j] == right@[j],
        decreases left.len() - i,
    {
        if left[i] != right[i] {
            assert(left@[i as int] != right@[i as int]);
            return false;
        }
        i = i + 1;
    }
    assert(left@ =~= right@);
    true
}

/// Copy a shape.
pub fn copy_dims(dims: &[u64]) -> (copy: Vec<u64>)
    ensures
        copy@ == dims@,
{
    let mut copy: Vec<u64> = Vec::with_capacity(dims.len());
    copy.extend_from_slice(dims);
    assert(copy@ =~= dims@);
    copy
}

proof fn lemma_no_repeats(
    entries: Seq<(Seq<char>, Seq<u64>)>,
    tensors: Seq<TensorDescriptor>,
)
    requires
        forall|i: int| 0 <= i < tensors.len() ==> #[trigger] matches_entry(entries, tensors, i),
    ensures
        forall|i: int, j: int|
            #![trigger tensors[i], tensors[j]]
            0 <= i < j < tensors.len() ==> tensors[i].name@ != tensors[j].name@,
{
    assert forall|i: int, j: int|
        #![trigger tensors[i], tensors[j]]
        0 <= i < j < tensors.len() implies tensors[i].name@ != tensors[j].name@ by {
        assert(matches_entry(entries, tensors, j));
    }
}

/// An admitted inventory is complete: every expected tensor occurs in it, with
/// its expected shape, so none can be missing.
pub proof fn lemma_inventory_complete(dimensions: Dimensions, tensors: Seq<TensorDescriptor>)
    requires
        inventory_admitted(dimensions, tensors),
    ensures
        forall|k: int|
            0 <= k < slots(dimensions).len() ==> exists|i: int|
                {
                    &&& 0 <= i < tensors.len()
                    &&& (#[trigger] tensors[i]).name@ == slot_name(#[trigger] slots(dimensions)[k])
                    &&& slots(dimensions)[k].1.shape_spec(dimensions) == Ok::<Seq<u64>, Error>(
                        tensors[i].dims@,
                    )
                },
{
    let listed = rendered(dimensions, slots(dimensions));
    let observed = Seq::new(tensors.len(), |i: int| (tensors[i].name@, tensors[i].dims@));
    lemma_rendered_slots(dimensions, slots(dimensions));
    lemma_no_repeats(listed, tensors);
    assert(observed.no_duplicates()) by {
        assert forall|i: int, j: int|
            0 <= i < observed.len() && 0 <= j < observed.len() && i != j implies observed[i]
            != observed[j] by {
            assert(observed[i].0 == tensors[i].name@ && observed[j].0 == tensors[j].name@);
            if i < j {
                assert(tensors[i].name@ != tensors[j].name@);
            } else {
                assert(tensors[j].name@ != tensors[i].name@);
            }
        }
    }
    assert(observed.to_set().subset_of(listed.to_set())) by {
        assert forall|entry: (Seq<char>, Seq<u64>)| observed.to_set().contains(
            entry,
        ) implies listed.to_set().contains(entry) by {
            let i = choose|i: int| 0 <= i < observed.len() && observed[i] == entry;
            assert(matches_entry(listed, tensors, i));
        }
    }
    observed.unique_seq_to_set();
    listed.lemma_cardinality_of_set();
    vstd::set_lib::lemma_len_subset(observed.to_set(), listed.to_set());
    vstd::set_lib::lemma_subset_equality(observed.to_set(), listed.to_set());
    assert forall|k: int| 0 <= k < slots(dimensions).len() implies exists|i: int|
        {
            &&& 0 <= i < tensors.len()
            &&& (#[trigger] tensors[i]).name@ == slot_name(#[trigger] slots(dimensions)[k])
            &&& slots(dimensions)[k].1.shape_spec(dimensions) == Ok::<Seq<u64>, Error>(
                tensors[i].dims@,
            )
        } by {
        assert(listed.to_set().contains(listed[k]));
        let i = choose|i: int| 0 <= i < observed.len() && observed[i] == listed[k];
        assert(tensors[i].name@ == slot_name(slots(dimensions)[k]));
    }
}

} // verus!
