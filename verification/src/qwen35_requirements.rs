//! Logical host-capacity receipts of bounded Qwen3.5 executions.
//!
//! A receipt counts requested logical extents. It is neither observed residency
//! nor an allocation grant.

use crate::error::Error;
use crate::qwen35_execution::{
    checked_add, embedding_workspace_elements, full_attention_workspace_elements,
    layer_finish_workspace_elements, lm_head_workspace_elements, returned_logits_elements,
    FeedForwardWorkspaceAllocations, FullAttentionWorkspaceAllocations,
    LayerFinishWorkspaceAllocations, Layout, LmHeadWorkspaceAllocations, PagedDecodePlan,
    Qwen35LogitSelection,
};
use crate::qwen35::Qwen35RecurrentLayout;
use crate::qwen35_recurrent;
use crate::qwen35_recurrent::{retained_elements, ExecutionLayout};
use vstd::prelude::*;

verus! {

/// Extents that the recurrent and paged-cache kernels derive for themselves.
#[derive(Clone, Copy, Debug, PartialEq, Eq, Structural)]
pub struct KernelExtents {
    /// Scratch elements of one recurrent step.
    pub recurrent_workspace: usize,
    /// Elements of the paged key-value pool; none without full-attention layers.
    pub full_attention_pool: usize,
    /// The attention plan over a full context.
    pub paged_decode: PagedDecodePlan,
}

/// Named element counts of one planned execution.
#[derive(Clone, Copy, Debug, PartialEq, Eq, Structural)]
pub struct Qwen35RequirementElements {
    pub recurrent_layer_retained: usize,
    pub full_attention_pool_retained: usize,
    pub retained: usize,
    pub transaction_copy: usize,
    pub recurrent_workspace: usize,
    pub full_attention_workspace: usize,
    pub layer_finish_workspace: usize,
    pub lm_head_workspace: usize,
    pub workspace_upper_bound: usize,
    pub returned_logits: usize,
    pub logical_upper_bound: usize,
}

/// An overflowed count.
pub open spec fn overflow(context: &'static str) -> Option<Error> {
    Some(Error::ArithmeticOverflow { context })
}

/// The larger of two numbers.
pub open spec fn larger(left: int, right: int) -> int {
    if left > right {
        left
    } else {
        right
    }
}

/// The elements that one recurrent layer retains between steps.
pub open spec fn layer_retained(layout: Layout, recurrent: Qwen35RecurrentLayout) -> int {
    qwen35_recurrent::retained_values(ExecutionLayout::of(recurrent, layout.epsilon))
}

impl Qwen35RequirementElements {
    /// Whether the counts are those of a layout: every recurrent layer is retained
    /// and copied once per transaction, the key-value pool is retained but never
    /// copied, and the workspace holds the hidden row and the largest stage.
    pub open spec fn describes(
        self,
        layout: Layout,
        recurrent: Qwen35RecurrentLayout,
        max_step_tokens: usize,
        selection: Qwen35LogitSelection,
        extents: KernelExtents,
    ) -> bool {
        let recurrent_layers = layout.main_blocks - layout.full_layers();
        let attention = FullAttentionWorkspaceAllocations::planned(layout, extents.paged_decode);
        &&& self.recurrent_layer_retained == layer_retained(layout, recurrent)
        &&& self.full_attention_pool_retained == extents.full_attention_pool
        &&& self.transaction_copy == recurrent_layers * layer_retained(layout, recurrent)
        &&& self.retained == self.transaction_copy + extents.full_attention_pool
        &&& self.recurrent_workspace == extents.recurrent_workspace
        &&& self.full_attention_workspace == attention.workspace_elements
        &&& self.layer_finish_workspace == LayerFinishWorkspaceAllocations::planned(
            layout,
        ).elements()
        &&& self.lm_head_workspace == LmHeadWorkspaceAllocations::planned(layout).elements()
        &&& self.workspace_upper_bound == layout.hidden + larger(
            larger(self.recurrent_workspace as int, self.full_attention_workspace as int),
            larger(self.layer_finish_workspace as int, self.lm_head_workspace as int),
        )
        &&& self.returned_logits == selection.rows(max_step_tokens as int) * layout.vocabulary
        &&& self.logical_upper_bound == self.retained + self.transaction_copy
            + self.workspace_upper_bound + self.returned_logits
    }

    /// The first count of a layout that cannot be represented, if there is one.
    pub open spec fn failure(
        layout: Layout,
        recurrent: Qwen35RecurrentLayout,
        max_step_tokens: usize,
        selection: Qwen35LogitSelection,
        extents: KernelExtents,
    ) -> Option<Error> {
        let host = ExecutionLayout::of(recurrent, layout.epsilon);
        let copy = (layout.main_blocks - layout.full_layers()) * layer_retained(layout, recurrent);
        let retained = copy + extents.full_attention_pool;
        let feed_forward = FeedForwardWorkspaceAllocations::planned(layout).elements();
        let finish = LayerFinishWorkspaceAllocations::planned(layout).elements();
        let head = LmHeadWorkspaceAllocations::planned(layout).elements();
        let attention = FullAttentionWorkspaceAllocations::planned(layout, extents.paged_decode);
        let workspace = layout.hidden + larger(
            larger(extents.recurrent_workspace as int, attention.workspace_elements as int),
            larger(finish, head),
        );
        let logits = selection.rows(max_step_tokens as int) * layout.vocabulary;
        if ExecutionLayout::failure(recurrent) is Some {
            ExecutionLayout::failure(recurrent)
        } else if qwen35_recurrent::retained_failure(host) is Some {
            qwen35_recurrent::retained_failure(host)
        } else if copy > usize::MAX {
            overflow("recurrent retained state")
        } else if retained > usize::MAX {
            overflow("retained session state")
        } else if let Some(error) = FullAttentionWorkspaceAllocations::failure(
            layout,
            extents.paged_decode,
        ) {
            Some(error)
        } else if feed_forward > usize::MAX {
            overflow("feed-forward workspace")
        } else if finish > usize::MAX {
            overflow("post-attention feed-forward phase")
        } else if head > usize::MAX {
            overflow("LM-head workspace")
        } else if workspace > usize::MAX {
            overflow("step workspace upper bound")
        } else if logits > usize::MAX {
            overflow("returned logits allocation")
        } else if retained + copy > usize::MAX {
            overflow("logical session state")
        } else if workspace + logits > usize::MAX {
            overflow("logical step state")
        } else if retained + copy + workspace + logits > usize::MAX {
            overflow("logical upper bound")
        } else {
            None
        }
    }

    /// Count the elements of one planned execution.
    pub fn try_from_layout(
        layout: Layout,
        recurrent: Qwen35RecurrentLayout,
        max_step_tokens: usize,
        selection: Qwen35LogitSelection,
        extents: KernelExtents,
    ) -> (elements: Result<Qwen35RequirementElements, Error>)
        requires
            layout.wf(),
        ensures
            match elements {
                Ok(elements) => {
                    &&& Self::failure(layout, recurrent, max_step_tokens, selection, extents) is None
                    &&& elements.describes(layout, recurrent, max_step_tokens, selection, extents)
                },
                Err(error) => Self::failure(
                    layout,
                    recurrent,
                    max_step_tokens,
                    selection,
                    extents,
                ) == Some(error),
            },
    {
        let host = ExecutionLayout::try_from_profile(recurrent, layout.epsilon)?;
        assert(host == ExecutionLayout::of(recurrent, layout.epsilon));
        let layer_retained: usize = retained_elements(host)?;
        let recurrent_layers: usize = layout.recurrent_layer_count()?;
        let ghost copy = recurrent_layers * layer_retained;
        proof {
            assert(copy >= 0) by (nonlinear_arith)
                requires
                    copy == recurrent_layers * layer_retained,
                    recurrent_layers >= 0,
                    layer_retained >= 0,
            ;
            assert(selection.rows(max_step_tokens as int) * layout.vocabulary >= 0)
                by (nonlinear_arith)
                requires
                    selection.rows(max_step_tokens as int) >= 0,
                    layout.vocabulary >= 0,
            ;
        }
        let transaction_copy: usize = match recurrent_layers.checked_mul(layer_retained) {
            Some(elements) => elements,
            None => {
                return Err(Error::ArithmeticOverflow { context: "recurrent retained state" });
            },
        };
        let retained: usize = checked_add(
            transaction_copy,
            extents.full_attention_pool,
            "retained session state",
        )?;
        let full_attention_workspace: usize = full_attention_workspace_elements(
            layout,
            extents.paged_decode,
        )?;
        let layer_finish_workspace: usize = layer_finish_workspace_elements(layout)?;
        let lm_head_workspace: usize = lm_head_workspace_elements(layout)?;
        let attention_stage: usize = if extents.recurrent_workspace > full_attention_workspace {
            extents.recurrent_workspace
        } else {
            full_attention_workspace
        };
        let projection_stage: usize = if layer_finish_workspace > lm_head_workspace {
            layer_finish_workspace
        } else {
            lm_head_workspace
        };
        let stage: usize = if attention_stage > projection_stage {
            attention_stage
        } else {
            projection_stage
        };
        let workspace_upper_bound: usize = checked_add(
            embedding_workspace_elements(layout),
            stage,
            "step workspace upper bound",
        )?;
        let returned_logits: usize = returned_logits_elements(
            layout,
            max_step_tokens,
            selection,
        )?;
        let state: usize = checked_add(retained, transaction_copy, "logical session state")?;
        let step: usize = checked_add(
            workspace_upper_bound,
            returned_logits,
            "logical step state",
        )?;
        let logical_upper_bound: usize = checked_add(state, step, "logical upper bound")?;
        Ok(
            Qwen35RequirementElements {
                recurrent_layer_retained: layer_retained,
                full_attention_pool_retained: extents.full_attention_pool,
                retained,
                transaction_copy,
                recurrent_workspace: extents.recurrent_workspace,
                full_attention_workspace,
                layer_finish_workspace,
                lm_head_workspace,
                workspace_upper_bound,
                returned_logits,
                logical_upper_bound,
            },
        )
    }
}

/// Which logit rows are retained changes the returned logits and nothing else: all
/// rows take one row for each token of a step, and the last row takes one.
pub proof fn lemma_selection_changes_logits(
    layout: Layout,
    recurrent: Qwen35RecurrentLayout,
    max_step_tokens: usize,
    extents: KernelExtents,
    all: Qwen35RequirementElements,
    last: Qwen35RequirementElements,
)
    requires
        all.describes(layout, recurrent, max_step_tokens, Qwen35LogitSelection::AllTokens, extents),
        last.describes(layout, recurrent, max_step_tokens, Qwen35LogitSelection::LastToken, extents),
    ensures
        all == (Qwen35RequirementElements {
            returned_logits: all.returned_logits,
            logical_upper_bound: all.logical_upper_bound,
            ..last
        }),
        all.returned_logits == max_step_tokens * last.returned_logits,
        all.logical_upper_bound - last.logical_upper_bound == all.returned_logits
            - last.returned_logits,
{
    assert(1 * layout.vocabulary == layout.vocabulary);
}

/// The logical host-capacity receipt of one planned execution.
#[derive(Clone, Copy, Debug)]
pub struct Qwen35CpuRequirements {
    pub artifact_digest: [u8; 32],
    pub serialized_backing_bytes: u64,
    pub max_context: usize,
    pub max_step_tokens: usize,
    pub selection: Qwen35LogitSelection,
    pub retained_bytes: u64,
    pub transaction_copy_bytes: u64,
    pub workspace_upper_bound_bytes: u64,
    pub returned_logits_bytes: u64,
    pub logical_f32_upper_bound_bytes: u64,
}

impl Qwen35CpuRequirements {
    /// Whether the logical bound is the sum of its four categories.
    pub open spec fn wf(self) -> bool {
        self.logical_f32_upper_bound_bytes == self.retained_bytes + self.transaction_copy_bytes
            + self.workspace_upper_bound_bytes + self.returned_logits_bytes
    }

    /// Whether the receipt counts four bytes for every element of four categories.
    pub open spec fn counts(self, elements: Qwen35RequirementElements) -> bool {
        &&& self.retained_bytes == 4 * elements.retained
        &&& self.transaction_copy_bytes == 4 * elements.transaction_copy
        &&& self.workspace_upper_bound_bytes == 4 * elements.workspace_upper_bound
        &&& self.returned_logits_bytes == 4 * elements.returned_logits
    }

    /// Turn element counts into a receipt of bytes.
    pub fn try_from_elements(
        artifact_digest: [u8; 32],
        serialized_backing_bytes: u64,
        max_context: usize,
        max_step_tokens: usize,
        selection: Qwen35LogitSelection,
        elements: Qwen35RequirementElements,
    ) -> (requirements: Result<Qwen35CpuRequirements, Error>)
        requires
            elements.logical_upper_bound == elements.retained + elements.transaction_copy
                + elements.workspace_upper_bound + elements.returned_logits,
        ensures
            match requirements {
                Ok(requirements) => {
                    &&& requirements.wf()
                    &&& requirements.artifact_digest == artifact_digest
                    &&& requirements.serialized_backing_bytes == serialized_backing_bytes
                    &&& requirements.max_context == max_context
                    &&& requirements.max_step_tokens == max_step_tokens
                    &&& requirements.selection == selection
                    &&& requirements.counts(elements)
                },
                Err(error) => {
                    &&& 4 * elements.logical_upper_bound > u64::MAX
                    &&& Some(error) == overflow("logical upper bound bytes")
                },
            },
    {
        let logical: u64 = match (elements.logical_upper_bound as u64).checked_mul(4) {
            Some(bytes) => bytes,
            None => {
                return Err(Error::ArithmeticOverflow { context: "logical upper bound bytes" });
            },
        };
        Ok(
            Qwen35CpuRequirements {
                artifact_digest,
                serialized_backing_bytes,
                max_context,
                max_step_tokens,
                selection,
                retained_bytes: 4 * (elements.retained as u64),
                transaction_copy_bytes: 4 * (elements.transaction_copy as u64),
                workspace_upper_bound_bytes: 4 * (elements.workspace_upper_bound as u64),
                returned_logits_bytes: 4 * (elements.returned_logits as u64),
                logical_f32_upper_bound_bytes: logical,
            },
        )
    }

    /// Return the content digest of the artifact.
    pub fn artifact_digest(&self) -> (digest: [u8; 32])
        ensures
            digest == self.artifact_digest,
    {
        self.artifact_digest
    }

    /// Return the serialized length of the artifact.
    pub fn serialized_backing_bytes(&self) -> (bytes: u64)
        ensures
            bytes == self.serialized_backing_bytes,
    {
        self.serialized_backing_bytes
    }
}

/// The aggregate logical host-capacity receipt of one batch.
#[derive(Clone, Copy, Debug)]
pub struct Qwen35BatchCpuRequirements {
    pub artifact_digest: [u8; 32],
    pub sequence_count: usize,
    pub total_tokens: usize,
    pub max_context: usize,
    pub serialized_backing_upper_bound_bytes: u64,
    pub retained_bytes: u64,
    pub transaction_copy_bytes: u64,
    pub workspace_upper_bound_bytes: u64,
    pub returned_logits_bytes: u64,
    pub logical_f32_upper_bound_bytes: u64,
}

/// The sum of one category over a list of receipts.
pub open spec fn category_sum(
    receipts: Seq<Qwen35CpuRequirements>,
    category: spec_fn(Qwen35CpuRequirements) -> u64,
) -> int
    decreases receipts.len(),
{
    if receipts.len() == 0 {
        0
    } else {
        category_sum(receipts.drop_last(), category) + category(receipts.last())
    }
}

/// The largest workspace of a list of receipts.
pub open spec fn workspace_max(receipts: Seq<Qwen35CpuRequirements>) -> int
    decreases receipts.len(),
{
    if receipts.len() == 0 {
        0
    } else {
        larger(
            workspace_max(receipts.drop_last()),
            receipts.last().workspace_upper_bound_bytes as int,
        )
    }
}

/// The largest context of a list of receipts.
pub open spec fn context_max(receipts: Seq<Qwen35CpuRequirements>) -> int
    decreases receipts.len(),
{
    if receipts.len() == 0 {
        0
    } else {
        larger(context_max(receipts.drop_last()), receipts.last().max_context as int)
    }
}

/// The serialized length of a receipt.
pub open spec fn serialized_category() -> spec_fn(Qwen35CpuRequirements) -> u64 {
    |receipt: Qwen35CpuRequirements| receipt.serialized_backing_bytes
}

/// The retained bytes of a receipt.
pub open spec fn retained_category() -> spec_fn(Qwen35CpuRequirements) -> u64 {
    |receipt: Qwen35CpuRequirements| receipt.retained_bytes
}

/// The transaction-copy bytes of a receipt.
pub open spec fn copy_category() -> spec_fn(Qwen35CpuRequirements) -> u64 {
    |receipt: Qwen35CpuRequirements| receipt.transaction_copy_bytes
}

/// The returned-logit bytes of a receipt.
pub open spec fn logits_category() -> spec_fn(Qwen35CpuRequirements) -> u64 {
    |receipt: Qwen35CpuRequirements| receipt.returned_logits_bytes
}

proof fn lemma_sums_failure(receipts: Seq<Qwen35CpuRequirements>, shorter: int, longer: int)
    requires
        0 <= shorter <= longer,
        Qwen35BatchCpuRequirements::sums_failure(receipts, shorter) is Some,
    ensures
        Qwen35BatchCpuRequirements::sums_failure(receipts, longer)
            == Qwen35BatchCpuRequirements::sums_failure(receipts, shorter),
    decreases longer - shorter,
{
    if shorter < longer {
        lemma_sums_failure(receipts, shorter, longer - 1);
    }
}

proof fn lemma_workspace_prefix(receipts: Seq<Qwen35CpuRequirements>, count: int)
    requires
        0 <= count <= receipts.len(),
    ensures
        0 <= workspace_max(receipts.take(count)) <= workspace_max(receipts) <= u64::MAX,
    decreases receipts.len(),
{
    if count == receipts.len() {
        assert(receipts.take(count) =~= receipts);
        if receipts.len() > 0 {
            lemma_workspace_prefix(receipts.drop_last(), receipts.len() - 1);
            assert(receipts.drop_last().take(receipts.len() - 1) =~= receipts.drop_last());
        }
    } else {
        lemma_workspace_prefix(receipts.drop_last(), count);
        assert(receipts.drop_last().take(count) =~= receipts.take(count));
    }
}

impl Qwen35BatchCpuRequirements {
    /// Whether the aggregate is conservative over a list of receipts: session state
    /// and outputs add up, and the shared workspace is the largest one.
    pub open spec fn aggregates(
        self,
        receipts: Seq<Qwen35CpuRequirements>,
        total_tokens: usize,
    ) -> bool {
        &&& receipts.len() > 0
        &&& self.artifact_digest == receipts[0].artifact_digest
        &&& self.sequence_count == receipts.len()
        &&& self.total_tokens == total_tokens
        &&& self.max_context == context_max(receipts)
        &&& self.serialized_backing_upper_bound_bytes == category_sum(
            receipts,
            serialized_category(),
        )
        &&& self.retained_bytes == category_sum(receipts, retained_category())
        &&& self.transaction_copy_bytes == category_sum(receipts, copy_category())
        &&& self.workspace_upper_bound_bytes == workspace_max(receipts)
        &&& self.returned_logits_bytes == category_sum(receipts, logits_category())
        &&& self.logical_f32_upper_bound_bytes == self.retained_bytes
            + self.transaction_copy_bytes + self.workspace_upper_bound_bytes
            + self.returned_logits_bytes
    }

    /// The first sum over the first `count` receipts that cannot be represented, if
    /// there is one: the receipts are added one by one.
    pub open spec fn sums_failure(receipts: Seq<Qwen35CpuRequirements>, count: int) -> Option<
        Error,
    >
        decreases count,
    {
        let added = receipts.take(count);
        if count <= 0 {
            None
        } else if let Some(error) = Self::sums_failure(receipts, count - 1) {
            Some(error)
        } else if category_sum(added, serialized_category()) > u64::MAX {
            overflow("serialized backing upper bound")
        } else if category_sum(added, retained_category()) > u64::MAX {
            overflow("retained backing")
        } else if category_sum(added, copy_category()) > u64::MAX {
            overflow("transaction-copy backing")
        } else if category_sum(added, logits_category()) > u64::MAX {
            overflow("returned logits")
        } else {
            None
        }
    }

    /// Why the receipts of a batch cannot be aggregated, if they cannot.
    pub open spec fn failure(receipts: Seq<Qwen35CpuRequirements>) -> Option<Error> {
        let state = category_sum(receipts, retained_category()) + category_sum(
            receipts,
            copy_category(),
        );
        let step = workspace_max(receipts) + category_sum(receipts, logits_category());
        if let Some(error) = Self::sums_failure(receipts, receipts.len() as int) {
            Some(error)
        } else if state > u64::MAX {
            overflow("logical batch state")
        } else if step > u64::MAX {
            overflow("logical batch step")
        } else if state + step > u64::MAX {
            overflow("logical batch upper bound")
        } else {
            None
        }
    }

    /// Aggregate the receipts of a non-empty batch.
    pub fn try_from_receipts(
        receipts: &[Qwen35CpuRequirements],
        total_tokens: usize,
    ) -> (aggregate: Result<Qwen35BatchCpuRequirements, Error>)
        requires
            receipts@.len() > 0,
        ensures
            match aggregate {
                Ok(aggregate) => {
                    &&& Self::failure(receipts@) is None
                    &&& aggregate.aggregates(receipts@, total_tokens)
                },
                Err(error) => Self::failure(receipts@) == Some(error),
            },
    {
        let mut serialized: u64 = 0;
        let mut retained: u64 = 0;
        let mut copy: u64 = 0;
        let mut workspace: u64 = 0;
        let mut logits: u64 = 0;
        let mut max_context: usize = 0;
        let mut i: usize = 0;
        assert(receipts@.take(0) =~= Seq::<Qwen35CpuRequirements>::empty());
        proof {
            lemma_workspace_prefix(receipts@, 0);
        }
        while i < receipts.len()
            invariant
                0 <= i <= receipts.len(),
                0 <= workspace_max(receipts@) <= u64::MAX,
                Self::sums_failure(receipts@, i as int) is None,
                serialized == category_sum(receipts@.take(i as int), serialized_category()),
                retained == category_sum(receipts@.take(i as int), retained_category()),
                copy == category_sum(receipts@.take(i as int), copy_category()),
                logits == category_sum(receipts@.take(i as int), logits_category()),
                workspace == workspace_max(receipts@.take(i as int)),
                max_context == context_max(receipts@.take(i as int)),
            decreases receipts.len() - i,
        {
            let receipt = receipts[i];
            proof {
                let longer = receipts@.take(i + 1);
                assert(longer.drop_last() =~= receipts@.take(i as int));
                assert(longer.last() == receipt);
                if Self::sums_failure(receipts@, i + 1) is Some {
                    lemma_sums_failure(receipts@, i + 1, receipts@.len() as int);
                }
            }
            serialized =
            receipt_sum(
                serialized,
                receipt.serialized_backing_bytes,
                "serialized backing upper bound",
            )?;
            retained = receipt_sum(retained, receipt.retained_bytes, "retained backing")?;
            copy =
            receipt_sum(copy, receipt.transaction_copy_bytes, "transaction-copy backing")?;
            logits = receipt_sum(logits, receipt.returned_logits_bytes, "returned logits")?;
            if receipt.workspace_upper_bound_bytes > workspace {
                workspace = receipt.workspace_upper_bound_bytes;
            }
            if receipt.max_context > max_context {
                max_context = receipt.max_context;
            }
            i = i + 1;
        }
        assert(receipts@.take(i as int) =~= receipts@);
        let state: u64 = receipt_sum(retained, copy, "logical batch state")?;
        let step: u64 = receipt_sum(workspace, logits, "logical batch step")?;
        let logical: u64 = receipt_sum(state, step, "logical batch upper bound")?;
        Ok(
            Qwen35BatchCpuRequirements {
                artifact_digest: receipts[0].artifact_digest,
                sequence_count: receipts.len(),
                total_tokens,
                max_context,
                serialized_backing_upper_bound_bytes: serialized,
                retained_bytes: retained,
                transaction_copy_bytes: copy,
                workspace_upper_bound_bytes: workspace,
                returned_logits_bytes: logits,
                logical_f32_upper_bound_bytes: logical,
            },
        )
    }
}

fn receipt_sum(left: u64, right: u64, context: &'static str) -> (sum: Result<u64, Error>)
    ensures
        match sum {
            Ok(sum) => sum == left + right,
            Err(error) => {
                &&& left + right > u64::MAX
                &&& error == (Error::ArithmeticOverflow { context })
            },
        },
{
    match left.checked_add(right) {
        Some(sum) => Ok(sum),
        None => Err(Error::ArithmeticOverflow { context }),
    }
}

} // verus!
