//! Bounded Qwen3 causal execution: weights, admitted requests, and host-capacity
//! receipts.

use crate::error::Error;
use crate::gguf::{MetaValue, MetaValueType, Metadata, VerifiedArtifact};
use crate::qwen3;
use crate::qwen3::{product, Layout, Qwen3Profile, RANK_LABELS_KEY, RANK_LABEL_COUNT};
use crate::qwen35_execution;
use crate::qwen35_execution::sum_elements;
use crate::qwen3_inventory;
use crate::qwen3_inventory::validate_inventory;
use crate::text::same_text;
use vstd::prelude::*;

verus! {

/// The extents of every buffer of one pass over a number of tokens.
#[derive(Clone, Copy, Debug, PartialEq, Eq, Structural)]
pub struct Qwen3AllocationShape {
    pub tokens: usize,
    pub hidden: usize,
    pub heads: usize,
    pub kv_heads: usize,
    pub head_dim: usize,
    pub q_width: usize,
    pub kv_width: usize,
    pub feed_forward: usize,
    pub hidden_rows: usize,
    pub key_cache: usize,
    pub value_cache: usize,
}

impl Qwen3AllocationShape {
    /// Whether the extents follow from the geometry and the number of tokens.
    pub open spec fn wf(self, layout: Layout) -> bool {
        &&& self.hidden == layout.hidden
        &&& self.heads == layout.heads
        &&& self.kv_heads == layout.kv_heads
        &&& self.head_dim == layout.head_dim
        &&& self.q_width == layout.q_width
        &&& self.kv_width == layout.kv_width
        &&& self.feed_forward == layout.feed_forward
        &&& self.hidden_rows == self.tokens * self.hidden
        &&& self.key_cache == self.tokens * self.kv_width
        &&& self.value_cache == self.tokens * self.kv_width
    }

    /// Every `f32` buffer that one pass reserves besides the returned row.
    pub open spec fn workspace(self) -> Seq<usize> {
        seq![
            self.hidden_rows,
            self.hidden_rows,
            self.hidden_rows,
            self.hidden_rows,
            self.key_cache,
            self.value_cache,
            self.q_width,
            self.q_width,
            self.kv_width,
            self.kv_width,
            self.feed_forward,
            self.feed_forward,
            self.feed_forward,
            self.tokens,
            self.tokens,
            self.hidden,
            self.hidden,
            self.head_dim,
            self.head_dim,
        ]
    }
}

impl Layout {
    /// Why a pass over a number of tokens has no extents, if it has none.
    pub open spec fn shape_failure(self, tokens: usize) -> Option<Error> {
        if tokens * self.hidden > usize::MAX || tokens * self.kv_width > usize::MAX {
            qwen3::overflow_failure(tokens)
        } else {
            None
        }
    }

    /// Derive the extents of a pass over a number of tokens.
    pub fn allocation_shape(self, tokens: usize) -> (shape: Result<Qwen3AllocationShape, Error>)
        ensures
            match shape {
                Ok(shape) => {
                    &&& self.shape_failure(tokens) is None
                    &&& shape.tokens == tokens
                    &&& shape.wf(self)
                },
                Err(error) => self.shape_failure(tokens) == Some(error),
            },
    {
        let hidden_rows: usize = product(tokens, self.hidden)?;
        let cache: usize = product(tokens, self.kv_width)?;
        Ok(
            Qwen3AllocationShape {
                tokens,
                hidden: self.hidden,
                heads: self.heads,
                kv_heads: self.kv_heads,
                head_dim: self.head_dim,
                q_width: self.q_width,
                kv_width: self.kv_width,
                feed_forward: self.feed_forward,
                hidden_rows,
                key_cache: cache,
                value_cache: cache,
            },
        )
    }
}

/// The logical host-capacity receipt of one admitted executor.
#[derive(Clone, Copy, Debug)]
pub struct Qwen3CpuRequirements {
    pub artifact_digest: [u8; 32],
    pub serialized_backing_bytes: u64,
    pub max_context: usize,
    pub workspace_upper_bound_bytes: u64,
    pub returned_output_bytes: u64,
    pub logical_f32_upper_bound_bytes: u64,
}

/// Why a receipt cannot be issued, if it cannot.
pub open spec fn requirements_failure(shape: Qwen3AllocationShape) -> Option<Error> {
    let workspace = qwen35_execution::total(shape.workspace());
    if workspace > usize::MAX {
        Some(Error::ArithmeticOverflow { context: "Qwen3 workspace elements" })
    } else if 4 * (workspace + shape.hidden) > u64::MAX {
        Some(Error::ArithmeticOverflow { context: "Qwen3 logical backing bytes" })
    } else {
        None
    }
}

impl Qwen3CpuRequirements {
    /// Issue the receipt of an embedding executor: four bytes for each value of
    /// the workspace and of the returned row.
    pub fn embedding(
        artifact_digest: [u8; 32],
        serialized_backing_bytes: u64,
        max_context: usize,
        shape: &Qwen3AllocationShape,
    ) -> (requirements: Result<Qwen3CpuRequirements, Error>)
        ensures
            match requirements {
                Ok(requirements) => {
                    &&& requirements_failure(*shape) is None
                    &&& requirements.artifact_digest == artifact_digest
                    &&& requirements.serialized_backing_bytes == serialized_backing_bytes
                    &&& requirements.max_context == max_context
                    &&& requirements.workspace_upper_bound_bytes == 4 * qwen35_execution::total(
                        shape.workspace(),
                    )
                    &&& requirements.returned_output_bytes == 4 * shape.hidden
                    &&& requirements.logical_f32_upper_bound_bytes
                        == requirements.workspace_upper_bound_bytes
                        + requirements.returned_output_bytes
                },
                Err(error) => requirements_failure(*shape) == Some(error),
            },
    {
        let extents: Vec<usize> = vec![
            shape.hidden_rows,
            shape.hidden_rows,
            shape.hidden_rows,
            shape.hidden_rows,
            shape.key_cache,
            shape.value_cache,
            shape.q_width,
            shape.q_width,
            shape.kv_width,
            shape.kv_width,
            shape.feed_forward,
            shape.feed_forward,
            shape.feed_forward,
            shape.tokens,
            shape.tokens,
            shape.hidden,
            shape.hidden,
            shape.head_dim,
            shape.head_dim,
        ];
        assert(extents@ =~= shape.workspace());
        let workspace: usize = sum_elements(extents.as_slice(), "Qwen3 workspace elements")?;
        let elements: Option<u64> = (workspace as u64).checked_add(shape.hidden as u64);
        let logical: Option<u64> = match elements {
            Some(elements) => elements.checked_mul(4),
            None => None,
        };
        match logical {
            Some(logical) => Ok(
                Qwen3CpuRequirements {
                    artifact_digest,
                    serialized_backing_bytes,
                    max_context,
                    workspace_upper_bound_bytes: 4 * workspace as u64,
                    returned_output_bytes: 4 * shape.hidden as u64,
                    logical_f32_upper_bound_bytes: logical,
                },
            ),
            None => Err(Error::ArithmeticOverflow { context: "Qwen3 logical backing bytes" }),
        }
    }
}

/// A verified Qwen3 causal body with its checked geometry.
#[derive(Debug)]
pub struct Qwen3BodyWeights<'artifact> {
    payload: &'artifact VerifiedArtifact,
    layout: Layout,
}

/// Whether an artifact is bound to a profile with a geometry.
pub open spec fn bound(artifact: VerifiedArtifact, profile: Qwen3Profile, layout: Layout) -> bool {
    let observation = artifact.spec_observation();
    &&& qwen3::layout_failure(observation.metadata@, profile) is None
    &&& layout.describes(observation.metadata@)
    &&& layout.wf()
    &&& qwen3_inventory::inventory_admitted(
        observation.tensors@,
        layout,
        qwen3_inventory::profile_roles_spec(profile),
    )
}

/// Whether an artifact is refused by a profile with an error: its metadata is, or
/// its inventory is.
pub open spec fn binding_refused(
    artifact: VerifiedArtifact,
    profile: Qwen3Profile,
    error: Error,
) -> bool {
    let observation = artifact.spec_observation();
    match qwen3::layout_failure(observation.metadata@, profile) {
        Some(failure) => error == failure,
        None => exists|layout: Layout|
            {
                &&& #[trigger] layout.describes(observation.metadata@)
                &&& layout.wf()
                &&& !qwen3_inventory::inventory_admitted(
                    observation.tensors@,
                    layout,
                    qwen3_inventory::profile_roles_spec(profile),
                )
                &&& qwen3_inventory::inventory_refused(
                    observation.tensors@,
                    layout,
                    qwen3_inventory::profile_roles_spec(profile),
                    error,
                )
            },
    }
}

impl<'artifact> Qwen3BodyWeights<'artifact> {
    /// The bound artifact.
    pub closed spec fn spec_payload(self) -> VerifiedArtifact {
        *self.payload
    }

    /// The checked geometry.
    pub closed spec fn spec_layout(self) -> Layout {
        self.layout
    }

    #[verifier::type_invariant]
    spec fn checked(self) -> bool {
        self.layout.wf()
    }

    /// Bind a verified artifact to a profile.
    pub fn try_from_verified(payload: &'artifact VerifiedArtifact, profile: Qwen3Profile) -> (body:
        Result<Qwen3BodyWeights<'artifact>, Error>)
        ensures
            match body {
                Ok(body) => {
                    &&& body.spec_payload() == *payload
                    &&& bound(*payload, profile, body.spec_layout())
                },
                Err(error) => binding_refused(*payload, profile, error),
            },
    {
        let observation = payload.observation();
        let layout = Layout::from_metadata(&observation.metadata, profile)?;
        let roles = profile.profile_roles();
        match validate_inventory(observation.tensors.as_slice(), layout, roles.as_slice()) {
            Ok(_) => {},
            Err(error) => {
                assert(layout.describes(payload.spec_observation().metadata@));
                return Err(error);
            },
        }
        Ok(Qwen3BodyWeights { payload, layout })
    }

    /// Return the hidden-vector width.
    pub fn hidden_width(&self) -> (width: usize)
        ensures
            width == self.spec_layout().hidden,
    {
        self.layout.hidden
    }

    /// Return the artifact's maximum context length.
    pub fn max_context(&self) -> (context: usize)
        ensures
            context == self.spec_layout().context,
    {
        self.layout.context
    }

    /// Borrow the bound artifact.
    pub fn payload(&self) -> (payload: &'artifact VerifiedArtifact)
        ensures
            *payload == self.spec_payload(),
    {
        self.payload
    }

    /// Return the checked geometry.
    pub fn layout(&self) -> (layout: Layout)
        ensures
            layout == self.spec_layout(),
            layout.wf(),
    {
        proof {
            use_type_invariant(self);
        }
        self.layout
    }

    /// Create one stateless executor with a context bound.
    pub fn execution<'weights>(&'weights self, max_context: usize) -> (execution: Result<
        Qwen3Execution<'weights, 'artifact>,
        Error,
    >)
        ensures
            match execution {
                Ok(execution) => {
                    &&& 0 < max_context <= self.spec_layout().context
                    &&& execution.spec_body() == *self
                    &&& execution.spec_max_context() == max_context
                },
                Err(error) => {
                    &&& max_context == 0 || max_context > self.spec_layout().context
                    &&& error == (Error::Qwen3Execution {
                        requested: max_context,
                        rule: "max context must be nonzero and no greater than the artifact context",
                    })
                },
            },
    {
        if max_context == 0 || max_context > self.max_context() {
            return Err(
                Error::Qwen3Execution {
                    requested: max_context,
                    rule: "max context must be nonzero and no greater than the artifact context",
                },
            );
        }
        Ok(Qwen3Execution { body: self, max_context })
    }
}

/// One verified Qwen3 embedding payload with its checked causal geometry.
#[derive(Debug)]
pub struct Qwen3Weights<'artifact> {
    body: Qwen3BodyWeights<'artifact>,
}

impl<'artifact> Qwen3Weights<'artifact> {
    /// The causal body.
    pub closed spec fn spec_body(self) -> Qwen3BodyWeights<'artifact> {
        self.body
    }

    /// Bind one verified artifact to the bounded embedding profile.
    pub fn try_from_verified(payload: &'artifact VerifiedArtifact) -> (weights: Result<
        Qwen3Weights<'artifact>,
        Error,
    >)
        ensures
            match weights {
                Ok(weights) => {
                    &&& weights.spec_body().spec_payload() == *payload
                    &&& bound(*payload, Qwen3Profile::Embedding, weights.spec_body().spec_layout())
                },
                Err(error) => binding_refused(*payload, Qwen3Profile::Embedding, error),
            },
    {
        Ok(
            Qwen3Weights {
                body: Qwen3BodyWeights::try_from_verified(payload, Qwen3Profile::Embedding)?,
            },
        )
    }

    /// Return the artifact-derived hidden-vector width.
    #[must_use]
    pub fn hidden_width(&self) -> (width: usize)
        ensures
            width == self.spec_body().spec_layout().hidden,
    {
        self.body.hidden_width()
    }

    /// Return the artifact-derived maximum context length.
    #[must_use]
    pub fn max_context(&self) -> (context: usize)
        ensures
            context == self.spec_body().spec_layout().context,
    {
        self.body.max_context()
    }

    /// Create one stateless bounded executor.
    pub fn execution<'weights>(&'weights self, max_context: usize) -> (execution: Result<
        Qwen3Execution<'weights, 'artifact>,
        Error,
    >)
        ensures
            match execution {
                Ok(execution) => {
                    &&& 0 < max_context <= self.spec_body().spec_layout().context
                    &&& execution.spec_body() == self.spec_body()
                    &&& execution.spec_max_context() == max_context
                },
                Err(error) => {
                    &&& max_context == 0 || max_context > self.spec_body().spec_layout().context
                    &&& error == (Error::Qwen3Execution {
                        requested: max_context,
                        rule: "max context must be nonzero and no greater than the artifact context",
                    })
                },
            },
    {
        self.body.execution(max_context)
    }
}

/// Whether the classifier labels are exactly yes and no, in that order.
pub open spec fn rank_labels(metadata: Map<Seq<char>, MetaValue>) -> bool {
    &&& metadata.dom().contains(RANK_LABELS_KEY@)
    &&& metadata[RANK_LABELS_KEY@] matches MetaValue::Array(labels)
    &&& labels.element_type == MetaValueType::String
    &&& labels.values@.len() == 2
    &&& labels.values@[0] matches MetaValue::String(yes)
    &&& yes@ == "yes"@
    &&& labels.values@[1] matches MetaValue::String(no)
    &&& no@ == "no"@
}

/// Require the classifier labels to be exactly yes and no, in that order.
pub fn require_rank_labels(metadata: &Metadata) -> (checked: Result<(), Error>)
    ensures
        match checked {
            Ok(_) => rank_labels(metadata@),
            Err(error) => !rank_labels(metadata@) && Some(error) == qwen3::metadata_failure(
                RANK_LABELS_KEY,
                "must be exactly the ordered yes and no labels",
            ),
        },
{
    if let Some(MetaValue::Array(labels)) = metadata.get(RANK_LABELS_KEY) {
        if labels.element_type == MetaValueType::String && labels.values.len()
            == RANK_LABEL_COUNT {
            if let MetaValue::String(yes) = &labels.values[0] {
                if let MetaValue::String(no) = &labels.values[1] {
                    if same_text(yes.as_str(), "yes") && same_text(no.as_str(), "no") {
                        return Ok(());
                    }
                }
            }
        }
    }
    Err(
        Error::Qwen3Metadata {
            key: RANK_LABELS_KEY,
            rule: "must be exactly the ordered yes and no labels",
        },
    )
}

/// One verified Qwen3 rank payload with its checked causal geometry.
#[derive(Debug)]
pub struct Qwen3RankWeights<'artifact> {
    body: Qwen3BodyWeights<'artifact>,
}

impl<'artifact> Qwen3RankWeights<'artifact> {
    /// The causal body.
    pub closed spec fn spec_body(self) -> Qwen3BodyWeights<'artifact> {
        self.body
    }

    /// Bind one verified artifact to the bounded rank profile: the body first,
    /// then the classifier labels.
    pub fn try_from_verified(payload: &'artifact VerifiedArtifact) -> (weights: Result<
        Qwen3RankWeights<'artifact>,
        Error,
    >)
        ensures
            match weights {
                Ok(weights) => {
                    &&& weights.spec_body().spec_payload() == *payload
                    &&& bound(*payload, Qwen3Profile::Rank, weights.spec_body().spec_layout())
                    &&& rank_labels(payload.spec_observation().metadata@)
                },
                Err(error) => {
                    ||| binding_refused(*payload, Qwen3Profile::Rank, error)
                    ||| {
                        &&& exists|layout: Layout| bound(*payload, Qwen3Profile::Rank, layout)
                        &&& !rank_labels(payload.spec_observation().metadata@)
                        &&& Some(error) == qwen3::metadata_failure(
                            RANK_LABELS_KEY,
                            "must be exactly the ordered yes and no labels",
                        )
                    }
                },
            },
    {
        let body = Qwen3BodyWeights::try_from_verified(payload, Qwen3Profile::Rank)?;
        assert(bound(*payload, Qwen3Profile::Rank, body.spec_layout()));
        require_rank_labels(&payload.observation().metadata)?;
        Ok(Qwen3RankWeights { body })
    }

    /// Return the artifact-derived hidden-vector width.
    #[must_use]
    pub fn hidden_width(&self) -> (width: usize)
        ensures
            width == self.spec_body().spec_layout().hidden,
    {
        self.body.hidden_width()
    }

    /// Return the artifact-derived maximum context length.
    #[must_use]
    pub fn max_context(&self) -> (context: usize)
        ensures
            context == self.spec_body().spec_layout().context,
    {
        self.body.max_context()
    }
}

/// Stateless Qwen3 causal execution with an explicit caller context bound.
#[derive(Debug)]
pub struct Qwen3Execution<'weights, 'artifact> {
    body: &'weights Qwen3BodyWeights<'artifact>,
    max_context: usize,
}

impl<'weights, 'artifact> Qwen3Execution<'weights, 'artifact> {
    /// The causal body.
    pub closed spec fn spec_body(self) -> Qwen3BodyWeights<'artifact> {
        *self.body
    }

    /// The admitted context bound.
    pub closed spec fn spec_max_context(self) -> usize {
        self.max_context
    }

    /// Return the admitted context bound.
    pub fn admitted_max_context(&self) -> (context: usize)
        ensures
            context == self.spec_max_context(),
    {
        self.max_context
    }

    /// Return the checked geometry.
    pub fn layout(&self) -> (layout: Layout)
        ensures
            layout == self.spec_body().spec_layout(),
            layout.wf(),
    {
        self.body.layout()
    }

    /// Derive the extents of a pass over a number of tokens.
    pub fn allocation_shape(&self, tokens: usize) -> (shape: Result<Qwen3AllocationShape, Error>)
        ensures
            match shape {
                Ok(shape) => {
                    &&& self.spec_body().spec_layout().shape_failure(tokens) is None
                    &&& shape.tokens == tokens
                    &&& shape.wf(self.spec_body().spec_layout())
                },
                Err(error) => self.spec_body().spec_layout().shape_failure(tokens) == Some(error),
            },
    {
        self.body.layout.allocation_shape(tokens)
    }

    /// Return the checked host-capacity receipt of the admitted context.
    pub fn cpu_requirements(&self) -> (requirements: Result<Qwen3CpuRequirements, Error>)
        ensures
            match requirements {
                Ok(requirements) => exists|shape: Qwen3AllocationShape|
                    {
                        &&& #[trigger] shape.wf(self.spec_body().spec_layout())
                        &&& shape.tokens == self.spec_max_context()
                        &&& requirements.artifact_digest
                            == self.spec_body().spec_payload().spec_observation().digest
                        &&& requirements.serialized_backing_bytes
                            == self.spec_body().spec_payload().spec_observation().file_len
                        &&& requirements.max_context == self.spec_max_context()
                        &&& requirements.workspace_upper_bound_bytes
                            == 4 * qwen35_execution::total(shape.workspace())
                        &&& requirements.returned_output_bytes
                            == 4 * self.spec_body().spec_layout().hidden
                        &&& requirements.logical_f32_upper_bound_bytes
                            == requirements.workspace_upper_bound_bytes
                            + requirements.returned_output_bytes
                    },
                Err(error) => {
                    ||| self.spec_body().spec_layout().shape_failure(self.spec_max_context())
                        == Some(error)
                    ||| exists|shape: Qwen3AllocationShape|
                        {
                            &&& #[trigger] shape.wf(self.spec_body().spec_layout())
                            &&& shape.tokens == self.spec_max_context()
                            &&& requirements_failure(shape) == Some(error)
                        }
                },
            },
    {
        let shape = self.allocation_shape(self.max_context)?;
        let observation = self.body.payload.observation();
        Qwen3CpuRequirements::embedding(
            observation.digest,
            observation.file_len,
            self.max_context,
            &shape,
        )
    }
}

} // verus!
