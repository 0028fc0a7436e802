//! Checked device-byte demands of native plans. Extents that only a kernel or a
//! cache can derive are arguments.

use crate::error::Error;
use crate::qwen35_execution;
use crate::qwen35_execution::sum_elements;
use vstd::prelude::*;

verus! {

/// The size of one `f32` or `u32` device value.
pub const WORD_BYTES: usize = 4;

/// Add a list of extents, refusing overflow.
pub fn sum(values: &[usize], context: &'static str) -> (sum: Result<usize, Error>)
    ensures
        match sum {
            Ok(sum) => sum == qwen35_execution::total(values@),
            Err(error) => {
                &&& qwen35_execution::total(values@) > usize::MAX
                &&& error == (Error::ArithmeticOverflow { context })
            },
        },
{
    sum_elements(values, context)
}

/// Add two extents, refusing overflow.
pub fn checked_sum(left: usize, right: usize, context: &'static str) -> (sum: Result<usize, Error>)
    ensures
        match sum {
            Ok(sum) => sum == left + right,
            Err(error) => left + right > usize::MAX && error == (Error::ArithmeticOverflow {
                context,
            }),
        },
{
    match left.checked_add(right) {
        Some(sum) => Ok(sum),
        None => Err(Error::ArithmeticOverflow { context }),
    }
}

/// Count the bytes of a number of elements, refusing overflow.
pub fn elements_bytes(elements: usize, bytes: usize, context: &'static str) -> (total: Result<
    usize,
    Error,
>)
    ensures
        match total {
            Ok(total) => total == elements * bytes,
            Err(error) => elements * bytes > usize::MAX && error == (Error::ArithmeticOverflow {
                context,
            }),
        },
{
    match elements.checked_mul(bytes) {
        Some(total) => Ok(total),
        None => Err(Error::ArithmeticOverflow { context }),
    }
}

/// Requested device bytes of one full-attention block session.
#[derive(Clone, Copy, Debug, PartialEq, Eq, Structural)]
pub struct DeviceByteDemand {
    pub weights: usize,
    pub scratch: usize,
    pub input: usize,
    pub output: usize,
    pub controls: usize,
    pub key_values: usize,
    pub table: usize,
    pub numerical_status: usize,
}

impl DeviceByteDemand {
    /// The categories, in order.
    pub open spec fn categories(self) -> Seq<usize> {
        seq![
            self.weights,
            self.scratch,
            self.input,
            self.output,
            self.controls,
            self.key_values,
            self.table,
            self.numerical_status,
        ]
    }

    /// The sum of the categories.
    pub open spec fn bytes(self) -> int {
        self.weights + self.scratch + self.input + self.output + self.controls + self.key_values
            + self.table + self.numerical_status
    }

    /// Add every category, refusing overflow.
    pub fn total(self) -> (total: Result<usize, Error>)
        ensures
            match total {
                Ok(total) => total == self.bytes(),
                Err(error) => {
                    &&& self.bytes() > usize::MAX
                    &&& error == (Error::ArithmeticOverflow { context: "native device bytes" })
                },
            },
    {
        let categories: [usize; 8] = [
            self.weights,
            self.scratch,
            self.input,
            self.output,
            self.controls,
            self.key_values,
            self.table,
            self.numerical_status,
        ];
        proof {
            assert(categories@ =~= self.categories());
            reveal_with_fuel(qwen35_execution::total, 9);
        }
        sum(&categories, "native device bytes")
    }
}

/// Requested device bytes of one resident model and one session.
#[derive(Clone, Copy, Debug, PartialEq, Eq, Structural)]
pub struct ModelDeviceByteDemand {
    pub weights: usize,
    pub full_workspace: usize,
    pub recurrent_workspace: usize,
    pub finish_workspace: usize,
    pub hidden_rows: usize,
    pub final_normalized: usize,
    pub logits: usize,
    pub mrope_controls: usize,
    pub key_values: usize,
    pub page_table: usize,
    pub recurrent_history_active: usize,
    pub recurrent_history_staged: usize,
    pub recurrent_state_active: usize,
    pub recurrent_state_staged: usize,
    pub numerical_status: usize,
}

impl ModelDeviceByteDemand {
    /// The categories, in order.
    pub open spec fn categories(self) -> Seq<usize> {
        seq![
            self.weights,
            self.full_workspace,
            self.recurrent_workspace,
            self.finish_workspace,
            self.hidden_rows,
            self.final_normalized,
            self.logits,
            self.mrope_controls,
            self.key_values,
            self.page_table,
            self.recurrent_history_active,
            self.recurrent_history_staged,
            self.recurrent_state_active,
            self.recurrent_state_staged,
            self.numerical_status,
        ]
    }

    /// The sum of the categories.
    pub open spec fn bytes(self) -> int {
        self.weights + self.full_workspace + self.recurrent_workspace + self.finish_workspace
            + self.hidden_rows + self.final_normalized + self.logits + self.mrope_controls
            + self.key_values + self.page_table + self.recurrent_history_active
            + self.recurrent_history_staged + self.recurrent_state_active
            + self.recurrent_state_staged + self.numerical_status
    }

    /// Add every category, refusing overflow.
    pub fn total(self) -> (total: Result<usize, Error>)
        ensures
            match total {
                Ok(total) => total == self.bytes(),
                Err(error) => {
                    &&& self.bytes() > usize::MAX
                    &&& error == (Error::ArithmeticOverflow { context: "native main-model device bytes" })
                },
            },
    {
        let categories: [usize; 15] = [
            self.weights,
            self.full_workspace,
            self.recurrent_workspace,
            self.finish_workspace,
            self.hidden_rows,
            self.final_normalized,
            self.logits,
            self.mrope_controls,
            self.key_values,
            self.page_table,
            self.recurrent_history_active,
            self.recurrent_history_staged,
            self.recurrent_state_active,
            self.recurrent_state_staged,
            self.numerical_status,
        ];
        proof {
            assert(categories@ =~= self.categories());
            reveal_with_fuel(qwen35_execution::total, 16);
        }
        sum(&categories, "native main-model device bytes")
    }
}

/// Checked device-allocation demand of one full-attention block session.
#[derive(Clone, Copy, Debug, PartialEq, Eq, Structural)]
pub struct Qwen35NativeLayerDeviceDemand {
    bytes: DeviceByteDemand,
    total: usize,
}

impl Qwen35NativeLayerDeviceDemand {
    /// The categories of the demand.
    pub closed spec fn spec_bytes(self) -> DeviceByteDemand {
        self.bytes
    }

    #[verifier::type_invariant]
    spec fn summed(self) -> bool {
        self.total == self.bytes.bytes()
    }

    /// Check the sum of a demand's categories.
    pub fn from_bytes(bytes: DeviceByteDemand) -> (demand: Result<Qwen35NativeLayerDeviceDemand, Error>)
        ensures
            match demand {
                Ok(demand) => demand.spec_bytes() == bytes && bytes.bytes() <= usize::MAX,
                Err(error) => {
                    &&& bytes.bytes() > usize::MAX
                    &&& error == (Error::ArithmeticOverflow { context: "native device bytes" })
                },
            },
    {
        let total: usize = bytes.total()?;
        Ok(Qwen35NativeLayerDeviceDemand { bytes, total })
    }

    /// Return the requested immutable weight bytes.
    #[must_use]
    pub fn weight_bytes(self) -> (bytes: usize)
        ensures
            bytes == self.spec_bytes().weights,
    {
        self.bytes.weights
    }

    /// Return the requested reusable scratch bytes.
    #[must_use]
    pub fn scratch_bytes(self) -> (bytes: usize)
        ensures
            bytes == self.spec_bytes().scratch,
    {
        self.bytes.scratch
    }

    /// Return the requested one-token input bytes.
    #[must_use]
    pub fn input_bytes(self) -> (bytes: usize)
        ensures
            bytes == self.spec_bytes().input,
    {
        self.bytes.input
    }

    /// Return the requested one-token output bytes.
    #[must_use]
    pub fn output_bytes(self) -> (bytes: usize)
        ensures
            bytes == self.spec_bytes().output,
    {
        self.bytes.output
    }

    /// Return the requested rotary control bytes.
    #[must_use]
    pub fn control_bytes(self) -> (bytes: usize)
        ensures
            bytes == self.spec_bytes().controls,
    {
        self.bytes.controls
    }

    /// Return the requested separate key and value backing bytes.
    #[must_use]
    pub fn key_value_bytes(self) -> (bytes: usize)
        ensures
            bytes == self.spec_bytes().key_values,
    {
        self.bytes.key_values
    }

    /// Return the requested page-table bytes.
    #[must_use]
    pub fn table_bytes(self) -> (bytes: usize)
        ensures
            bytes == self.spec_bytes().table,
    {
        self.bytes.table
    }

    /// Return the checked total of every category.
    #[must_use]
    pub fn total_bytes(self) -> (bytes: usize)
        ensures
            bytes == self.spec_bytes().bytes(),
    {
        proof {
            use_type_invariant(&self);
        }
        self.total
    }
}

/// Checked device-allocation demand of one resident model and one session.
#[derive(Clone, Copy, Debug, PartialEq, Eq, Structural)]
pub struct Qwen35NativeExecutionDeviceDemand {
    bytes: ModelDeviceByteDemand,
    total: usize,
}

impl Qwen35NativeExecutionDeviceDemand {
    /// The categories of the demand.
    pub closed spec fn spec_bytes(self) -> ModelDeviceByteDemand {
        self.bytes
    }

    #[verifier::type_invariant]
    spec fn summed(self) -> bool {
        self.total == self.bytes.bytes()
    }

    /// Check the sum of a demand's categories.
    pub fn from_bytes(bytes: ModelDeviceByteDemand) -> (demand: Result<
        Qwen35NativeExecutionDeviceDemand,
        Error,
    >)
        ensures
            match demand {
                Ok(demand) => demand.spec_bytes() == bytes && bytes.bytes() <= usize::MAX,
                Err(error) => {
                    &&& bytes.bytes() > usize::MAX
                    &&& error == (Error::ArithmeticOverflow { context: "native main-model device bytes" })
                },
            },
    {
        let total: usize = bytes.total()?;
        Ok(Qwen35NativeExecutionDeviceDemand { bytes, total })
    }

    /// Return the requested immutable weight bytes.
    #[must_use]
    pub fn weight_bytes(self) -> (bytes: usize)
        ensures
            bytes == self.spec_bytes().weights,
    {
        self.bytes.weights
    }

    /// Return the requested full-attention workspace bytes.
    #[must_use]
    pub fn full_workspace_bytes(self) -> (bytes: usize)
        ensures
            bytes == self.spec_bytes().full_workspace,
    {
        self.bytes.full_workspace
    }

    /// Return the requested recurrent-block workspace bytes.
    #[must_use]
    pub fn recurrent_workspace_bytes(self) -> (bytes: usize)
        ensures
            bytes == self.spec_bytes().recurrent_workspace,
    {
        self.bytes.recurrent_workspace
    }

    /// Return the requested layer-finish workspace bytes.
    #[must_use]
    pub fn finish_workspace_bytes(self) -> (bytes: usize)
        ensures
            bytes == self.spec_bytes().finish_workspace,
    {
        self.bytes.finish_workspace
    }

    /// Return the requested hidden-row bytes.
    #[must_use]
    pub fn hidden_row_bytes(self) -> (bytes: usize)
        ensures
            bytes == self.spec_bytes().hidden_rows,
    {
        self.bytes.hidden_rows
    }

    /// Return the requested normalized-hidden bytes.
    #[must_use]
    pub fn final_normalized_bytes(self) -> (bytes: usize)
        ensures
            bytes == self.spec_bytes().final_normalized,
    {
        self.bytes.final_normalized
    }

    /// Return the requested output-logit bytes.
    #[must_use]
    pub fn logits_bytes(self) -> (bytes: usize)
        ensures
            bytes == self.spec_bytes().logits,
    {
        self.bytes.logits
    }

    /// Return the requested rotary control bytes.
    #[must_use]
    pub fn mrope_control_bytes(self) -> (bytes: usize)
        ensures
            bytes == self.spec_bytes().mrope_controls,
    {
        self.bytes.mrope_controls
    }

    /// Return the requested key and value backing bytes.
    #[must_use]
    pub fn key_value_bytes(self) -> (bytes: usize)
        ensures
            bytes == self.spec_bytes().key_values,
    {
        self.bytes.key_values
    }

    /// Return the requested page-table bytes.
    #[must_use]
    pub fn page_table_bytes(self) -> (bytes: usize)
        ensures
            bytes == self.spec_bytes().page_table,
    {
        self.bytes.page_table
    }

    /// Return the requested active convolution-history bytes.
    #[must_use]
    pub fn recurrent_history_active_bytes(self) -> (bytes: usize)
        ensures
            bytes == self.spec_bytes().recurrent_history_active,
    {
        self.bytes.recurrent_history_active
    }

    /// Return the requested staged convolution-history bytes.
    #[must_use]
    pub fn recurrent_history_staged_bytes(self) -> (bytes: usize)
        ensures
            bytes == self.spec_bytes().recurrent_history_staged,
    {
        self.bytes.recurrent_history_staged
    }

    /// Return the requested active recurrent-state bytes.
    #[must_use]
    pub fn recurrent_state_active_bytes(self) -> (bytes: usize)
        ensures
            bytes == self.spec_bytes().recurrent_state_active,
    {
        self.bytes.recurrent_state_active
    }

    /// Return the requested staged recurrent-state bytes.
    #[must_use]
    pub fn recurrent_state_staged_bytes(self) -> (bytes: usize)
        ensures
            bytes == self.spec_bytes().recurrent_state_staged,
    {
        self.bytes.recurrent_state_staged
    }

    /// Return the requested numerical-status bytes.
    #[must_use]
    pub fn numerical_status_bytes(self) -> (bytes: usize)
        ensures
            bytes == self.spec_bytes().numerical_status,
    {
        self.bytes.numerical_status
    }

    /// Return the requested bytes that a resident model keeps once.
    #[must_use]
    pub fn resident_bytes(self) -> (bytes: usize)
        ensures
            bytes == self.spec_bytes().weights,
    {
        self.bytes.weights
    }

    /// Return the requested control bytes of one token.
    #[must_use]
    pub fn step_bytes(self) -> (bytes: usize)
        ensures
            bytes == self.spec_bytes().mrope_controls,
    {
        self.bytes.mrope_controls
    }

    /// Return the requested bytes of the logits of one token.
    #[must_use]
    pub fn output_bytes(self) -> (bytes: usize)
        ensures
            bytes == self.spec_bytes().logits,
    {
        self.bytes.logits
    }

    /// Return the checked total of every category.
    #[must_use]
    pub fn total_bytes(self) -> (bytes: usize)
        ensures
            bytes == self.spec_bytes().bytes(),
    {
        proof {
            use_type_invariant(&self);
        }
        self.total
    }

    /// Return the requested bytes that each session keeps: everything but the
    /// resident weights, one token's controls, and its returned logits.
    #[must_use]
    pub fn session_bytes(self) -> (bytes: usize)
        ensures
            bytes == self.spec_bytes().bytes() - self.spec_bytes().weights
                - self.spec_bytes().mrope_controls - self.spec_bytes().logits,
    {
        proof {
            use_type_invariant(&self);
        }
        self.total - self.resident_bytes() - self.step_bytes() - self.output_bytes()
    }
}

/// The total of a model's demand is exactly what the resident model keeps, what a
/// session keeps, and what one token uses and returns: nothing is counted twice and
/// nothing is left out.
pub proof fn lemma_demand_partition(demand: ModelDeviceByteDemand, session: int)
    requires
        session == demand.full_workspace + demand.recurrent_workspace + demand.finish_workspace
            + demand.hidden_rows + demand.final_normalized + demand.key_values + demand.page_table
            + demand.recurrent_history_active + demand.recurrent_history_staged
            + demand.recurrent_state_active + demand.recurrent_state_staged
            + demand.numerical_status,
    ensures
        demand.bytes() == demand.weights + session + demand.mrope_controls + demand.logits,
        demand.bytes() - demand.weights - demand.mrope_controls - demand.logits == session,
{
}

} // verus!
