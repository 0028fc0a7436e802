//! Recurrent-attention state and arrangement for one Qwen3.5 block.
//!
//! One recurrent layer's parameters and its persistent state, read from the
//! verified artifact; the layout changes between token-major and head-major
//! rows; and the transactional state update. Values are carried as `f32` bit
//! patterns; the recurrence itself is computed outside.

use crate::allocation::{allocate, recurrent_room};
use crate::arrangement;
use crate::arrangement::push_window;
use crate::error::Error;
use crate::float_bits;
use crate::float_bits::is_finite;
use crate::gguf::{GgmlType, VerifiedArtifact, VerifiedTensor};
use crate::payload;
use crate::payload::{check_words, find_parameter, read_into};
use crate::qwen35;
use crate::qwen35::{
    recurrent_layernorm_rms_epsilon, Qwen35RecurrentLayout, ATTN_NORM_ROLE,
    LAYERNORM_RMS_EPSILON_KEY, SSM_A_ROLE, SSM_CONV1D_ROLE, SSM_DT_ROLE, SSM_NORM_ROLE,
};
use crate::qwen35_execution;
use crate::qwen35_execution::{ensure_execution_plan, extend_window, sum_elements};
use crate::text;
use vstd::prelude::*;

verus! {

/// Multiply two extents, refusing overflow.
pub fn checked_product(left: usize, right: usize, context: &'static str) -> (product: Result<
    usize,
    Error,
>)
    ensures
        match product {
            Ok(product) => product == left * right,
            Err(error) => {
                &&& left * right > usize::MAX
                &&& error == (Error::ArithmeticOverflow { context })
            },
        },
{
    match left.checked_mul(right) {
        Some(product) => Ok(product),
        None => Err(Error::ArithmeticOverflow { context }),
    }
}

/// Add two extents, refusing overflow.
pub fn checked_add(left: usize, right: usize, context: &'static str) -> (sum: Result<usize, Error>)
    ensures
        match sum {
            Ok(sum) => sum == left + right,
            Err(error) => {
                &&& left + right > usize::MAX
                &&& error == (Error::ArithmeticOverflow { context })
            },
        },
{
    match left.checked_add(right) {
        Some(sum) => Ok(sum),
        None => Err(Error::ArithmeticOverflow { context }),
    }
}

/// Convert a stored dimension to a host extent.
pub fn usize_dimension(value: u64, context: &'static str) -> (dimension: Result<usize, Error>)
    ensures
        match dimension {
            Ok(dimension) => dimension == value,
            Err(error) => value > usize::MAX && error == (Error::ArithmeticOverflow { context }),
        },
{
    match usize::try_from(value) {
        Ok(dimension) => Ok(dimension),
        Err(_) => Err(Error::ArithmeticOverflow { context }),
    }
}

/// Name the tensor of `role` in block `block_index`.
pub fn block_tensor_name(block_index: u64, role: &str) -> (name: String)
    ensures
        name@ == text::block_name_spec(block_index as nat, role@),
{
    text::numbered_name(block_index, role)
}

/// The number of elements of a parameter, unless it cannot be represented.
pub open spec fn parameter_elements(dimensions: Seq<u64>) -> Result<usize, Error>
    decreases dimensions.len(),
{
    if dimensions.len() == 0 {
        Ok(1)
    } else {
        match parameter_elements(dimensions.drop_last()) {
            Err(error) => Err(error),
            Ok(elements) => if dimensions.last() > usize::MAX {
                Err(Error::ArithmeticOverflow { context: "recurrent parameter dimension" })
            } else if elements * dimensions.last() > usize::MAX {
                Err(Error::ArithmeticOverflow { context: "recurrent parameter values" })
            } else {
                Ok((elements * dimensions.last()) as usize)
            },
        }
    }
}

proof fn lemma_parameter_elements_prefix(dimensions: Seq<u64>, count: int)
    requires
        0 <= count <= dimensions.len(),
        parameter_elements(dimensions.take(count)) is Err,
    ensures
        parameter_elements(dimensions) == parameter_elements(dimensions.take(count)),
    decreases dimensions.len(),
{
    if count == dimensions.len() {
        assert(dimensions.take(count) =~= dimensions);
    } else {
        assert(dimensions.drop_last().take(count) =~= dimensions.take(count));
        lemma_parameter_elements_prefix(dimensions.drop_last(), count);
    }
}

/// Count the elements of a parameter.
pub fn product_dims(dimensions: &[u64]) -> (elements: Result<usize, Error>)
    ensures
        elements == parameter_elements(dimensions@),
{
    let mut elements: usize = 1;
    let mut i: usize = 0;
    assert(dimensions@.take(0) =~= Seq::<u64>::empty());
    while i < dimensions.len()
        invariant
            0 <= i <= dimensions.len(),
            parameter_elements(dimensions@.take(i as int)) == Ok::<usize, Error>(elements),
        decreases dimensions.len() - i,
    {
        proof {
            let longer = dimensions@.take(i + 1);
            assert(longer.drop_last() =~= dimensions@.take(i as int));
            assert(longer.last() == dimensions@[i as int]);
            if parameter_elements(longer) is Err {
                lemma_parameter_elements_prefix(dimensions@, i + 1);
            }
        }
        let dimension: usize = usize_dimension(dimensions[i], "recurrent parameter dimension")?;
        elements = checked_product(elements, dimension, "recurrent parameter values")?;
        i = i + 1;
    }
    assert(dimensions@.take(i as int) =~= dimensions@);
    Ok(elements)
}

/// The host geometry of recurrent blocks; epsilon is kept as an `f32` bit pattern.
#[derive(Clone, Copy, Debug, PartialEq, Eq, Structural)]
pub struct ExecutionLayout {
    pub hidden: usize,
    pub conv_kernel: usize,
    pub inner: usize,
    pub key_dim: usize,
    pub value_dim: usize,
    pub key_head_count: usize,
    pub value_head_count: usize,
    pub key_width: usize,
    pub conv_width: usize,
    pub main_block_count: u64,
    pub full_attention_interval: u64,
    pub epsilon: u32,
}

impl ExecutionLayout {
    /// The first host extent of recurrent blocks that cannot be derived, if any.
    pub open spec fn failure(layout: Qwen35RecurrentLayout) -> Option<Error> {
        let key_width = layout.state * layout.group_count;
        if layout.hidden > usize::MAX {
            Some(Error::ArithmeticOverflow { context: "recurrent hidden width" })
        } else if layout.conv_kernel > usize::MAX {
            Some(Error::ArithmeticOverflow { context: "recurrent convolution kernel" })
        } else if layout.inner > usize::MAX {
            Some(Error::ArithmeticOverflow { context: "recurrent inner width" })
        } else if layout.state > usize::MAX {
            Some(Error::ArithmeticOverflow { context: "recurrent state width" })
        } else if layout.time_step_rank > usize::MAX {
            Some(Error::ArithmeticOverflow { context: "recurrent value head count" })
        } else if layout.group_count > usize::MAX {
            Some(Error::ArithmeticOverflow { context: "recurrent key head count" })
        } else if layout.time_step_rank == 0 {
            Some(Error::ArithmeticOverflow { context: "recurrent value width" })
        } else if key_width > usize::MAX {
            Some(Error::ArithmeticOverflow { context: "recurrent key width" })
        } else if key_width * 2 > usize::MAX {
            Some(Error::ArithmeticOverflow { context: "recurrent convolution Q/K width" })
        } else if key_width * 2 + layout.inner > usize::MAX {
            Some(Error::ArithmeticOverflow { context: "recurrent convolution width" })
        } else {
            None
        }
    }

    /// Whether the geometry is that of a structural layout.
    pub open spec fn describes(self, layout: Qwen35RecurrentLayout, epsilon: u32) -> bool {
        &&& self.hidden == layout.hidden
        &&& self.conv_kernel == layout.conv_kernel
        &&& self.inner == layout.inner
        &&& self.key_dim == layout.state
        &&& self.value_dim == layout.inner / layout.time_step_rank
        &&& self.key_head_count == layout.group_count
        &&& self.value_head_count == layout.time_step_rank
        &&& self.key_width == layout.state * layout.group_count
        &&& self.conv_width == 2 * (layout.state * layout.group_count) + layout.inner
        &&& self.main_block_count == layout.main_block_count
        &&& self.full_attention_interval == layout.full_attention_interval
        &&& self.epsilon == epsilon
    }

    /// The host geometry of a structural layout.
    pub open spec fn of(layout: Qwen35RecurrentLayout, epsilon: u32) -> ExecutionLayout {
        ExecutionLayout {
            hidden: layout.hidden as usize,
            conv_kernel: layout.conv_kernel as usize,
            inner: layout.inner as usize,
            key_dim: layout.state as usize,
            value_dim: (layout.inner / layout.time_step_rank) as usize,
            key_head_count: layout.group_count as usize,
            value_head_count: layout.time_step_rank as usize,
            key_width: (layout.state * layout.group_count) as usize,
            conv_width: (2 * (layout.state * layout.group_count) + layout.inner) as usize,
            main_block_count: layout.main_block_count,
            full_attention_interval: layout.full_attention_interval,
            epsilon,
        }
    }

    /// Derive the host geometry of recurrent blocks.
    pub fn try_from_profile(layout: Qwen35RecurrentLayout, epsilon: u32) -> (host: Result<
        ExecutionLayout,
        Error,
    >)
        ensures
            match host {
                Ok(host) => Self::failure(layout) is None && host.describes(layout, epsilon),
                Err(error) => Self::failure(layout) == Some(error),
            },
    {
        let hidden: usize = usize_dimension(layout.hidden, "recurrent hidden width")?;
        let conv_kernel: usize = usize_dimension(
            layout.conv_kernel,
            "recurrent convolution kernel",
        )?;
        let inner: usize = usize_dimension(layout.inner, "recurrent inner width")?;
        let key_dim: usize = usize_dimension(layout.state, "recurrent state width")?;
        let value_head_count: usize = usize_dimension(
            layout.time_step_rank,
            "recurrent value head count",
        )?;
        let key_head_count: usize = usize_dimension(
            layout.group_count,
            "recurrent key head count",
        )?;
        if value_head_count == 0 {
            return Err(Error::ArithmeticOverflow { context: "recurrent value width" });
        }
        let value_dim: usize = inner / value_head_count;
        let key_width: usize = checked_product(key_dim, key_head_count, "recurrent key width")?;
        let double_key_width: usize = checked_product(
            key_width,
            2,
            "recurrent convolution Q/K width",
        )?;
        let conv_width: usize = checked_add(
            double_key_width,
            inner,
            "recurrent convolution width",
        )?;
        Ok(
            ExecutionLayout {
                hidden,
                conv_kernel,
                inner,
                key_dim,
                value_dim,
                key_head_count,
                value_head_count,
                key_width,
                conv_width,
                main_block_count: layout.main_block_count,
                full_attention_interval: layout.full_attention_interval,
                epsilon,
            },
        )
    }

    /// Why a block is not a recurrent main block, if it is not.
    pub open spec fn block_failure(self, block_index: u64) -> Option<Error> {
        if block_index >= self.main_block_count {
            Some(
                Error::RecurrentLayer {
                    block_index,
                    rule: "block index must name a main decoder block",
                },
            )
        } else if self.full_attention_interval > 0 && (block_index + 1) % (
        self.full_attention_interval as int) == 0 {
            Some(
                Error::RecurrentLayer {
                    block_index,
                    rule: "full-attention cadence blocks do not use the recurrent path",
                },
            )
        } else {
            None
        }
    }

    /// Require a block to be a recurrent main block.
    pub fn validate_recurrent_block(self, block_index: u64) -> (checked: Result<(), Error>)
        ensures
            match checked {
                Ok(_) => self.block_failure(block_index) is None,
                Err(error) => self.block_failure(block_index) == Some(error),
            },
    {
        if block_index >= self.main_block_count {
            return Err(
                Error::RecurrentLayer {
                    block_index,
                    rule: "block index must name a main decoder block",
                },
            );
        }
        if (block_index + 1).is_multiple_of(self.full_attention_interval) {
            return Err(
                Error::RecurrentLayer {
                    block_index,
                    rule: "full-attention cadence blocks do not use the recurrent path",
                },
            );
        }
        Ok(())
    }
}

/// Allocate an empty vector with room for `length` values, or refuse.
///
/// No room is always granted, and room that exceeds `isize::MAX` bytes is always
/// refused; in between the allocator decides.
pub fn reserve_f32<T>(target: &'static str, length: usize) -> (values: Result<Vec<T>, Error>)
    ensures
        match values {
            Ok(values) => {
                &&& values@.len() == 0
                &&& length * vstd::layout::size_of::<T>() <= isize::MAX
            },
            Err(error) => length > 0 && error.recurrent_allocation(target, length),
        },
{
    recurrent_room(allocate(length), target, length)
}

/// Allocate `length` zero values, or refuse.
pub fn zeroed_f32(target: &'static str, length: usize) -> (values: Result<Vec<u32>, Error>)
    ensures
        match values {
            Ok(values) => values@ == Seq::new(length as nat, |i: int| 0u32),
            Err(error) => length > 0 && error.recurrent_allocation(target, length),
        },
{
    let mut values: Vec<u32> = reserve_f32(target, length)?;
    let mut i: usize = 0;
    while i < length
        invariant
            0 <= i <= length,
            values@.len() == i,
            forall|j: int| 0 <= j < i ==> #[trigger] values@[j] == 0,
        decreases length - i,
    {
        values.push(0);
        i = i + 1;
    }
    assert(values@ =~= Seq::new(length as nat, |j: int| 0u32));
    Ok(values)
}

/// Whether value `i` is the first that is refused: it is not finite, or its place
/// cannot be counted from `offset`.
pub open spec fn refuses_value(
    values: Seq<u32>,
    stage: &'static str,
    offset: usize,
    i: int,
    error: Error,
) -> bool {
    &&& 0 <= i < values.len()
    &&& forall|j: int| 0 <= j < i ==> float_bits::finite(#[trigger] values[j])
    &&& if offset + i > usize::MAX {
        error == (Error::ArithmeticOverflow { context: "recurrent finite index" })
    } else {
        &&& !float_bits::finite(values[i])
        &&& error == (Error::RecurrentArithmetic { stage, index: (offset + i) as usize })
    }
}

/// Require every value, given by its bit pattern, to be finite; refuse the first
/// that is not, counting from `offset`.
pub fn ensure_finite(values: &[u32], stage: &'static str, offset: usize) -> (checked: Result<
    (),
    Error,
>)
    ensures
        match checked {
            Ok(_) => forall|i: int|
                0 <= i < values@.len() ==> float_bits::finite(#[trigger] values@[i]),
            Err(error) => exists|i: int| #[trigger]
                refuses_value(values@, stage, offset, i, error),
        },
        checked is Ok ==> qwen35_execution::all_finite(values@),
{
    let mut i: usize = 0;
    while i < values.len()
        invariant
            0 <= i <= values.len(),
            forall|j: int| 0 <= j < i ==> float_bits::finite(#[trigger] values@[j]),
        decreases values.len() - i,
    {
        let index: usize = match offset.checked_add(i) {
            Some(index) => index,
            None => {
                let error = Error::ArithmeticOverflow { context: "recurrent finite index" };
                assert(refuses_value(values@, stage, offset, i as int, error));
                return Err(error);
            },
        };
        if !is_finite(values[i]) {
            let error = Error::RecurrentArithmetic { stage, index };
            assert(refuses_value(values@, stage, offset, i as int, error));
            return Err(error);
        }
        i = i + 1;
    }
    Ok(())
}

/// Whether reading a recurrent parameter is refused with an error.
pub open spec fn tensor_refused(
    artifact: VerifiedArtifact,
    name: Seq<char>,
    dims: Seq<u64>,
    error: Error,
) -> bool {
    ||| payload::parameter_refused(artifact, name, dims, error)
    ||| exists|tensor: VerifiedTensor<'_>| #[trigger]
        payload::found(artifact, name, tensor) && tensor.descriptor.ggml_type == GgmlType::F32
            && tensor.descriptor.dims@ == dims && match parameter_elements(dims) {
            Err(failure) => error == failure,
            Ok(values) => {
                ||| {
                    &&& tensor.bytes@.len() != 4 * values
                    &&& payload::words_refused(
                        tensor,
                        values,
                        "recurrent F32 parameter bytes",
                        error,
                    )
                }
                ||| {
                    &&& tensor.bytes@.len() == 4 * values > 0
                    &&& error.recurrent_allocation("F32 parameter", values)
                }
            },
        }
}

/// Whether a list holds the words of a parameter.
pub open spec fn tensor_read(
    artifact: VerifiedArtifact,
    name: Seq<char>,
    dims: Seq<u64>,
    words: Seq<u32>,
) -> bool {
    &&& parameter_elements(dims) == Ok::<usize, Error>(words.len() as usize)
    &&& exists|tensor: VerifiedTensor<'_>| #[trigger]
        payload::found(artifact, name, tensor) && tensor.descriptor.ggml_type == GgmlType::F32
            && tensor.descriptor.dims@ == dims && payload::words_of(tensor.bytes@, words)
}

/// Read a recurrent parameter: an `f32` tensor of a known shape.
pub fn read_f32_tensor(
    artifact: &VerifiedArtifact,
    name: &str,
    expected_dims: &[u64],
) -> (values: Result<Vec<u32>, Error>)
    ensures
        match values {
            Ok(values) => tensor_read(*artifact, name@, expected_dims@, values@),
            Err(error) => tensor_refused(*artifact, name@, expected_dims@, error),
        },
{
    let tensor = find_parameter(artifact, name, expected_dims)?;
    let expected_values: usize = product_dims(expected_dims)?;
    check_words(tensor, expected_values, "recurrent F32 parameter bytes")?;
    let storage: Vec<u32> = reserve_f32("F32 parameter", expected_values)?;
    let words = read_into(tensor.bytes, expected_values, storage);
    assert(words@.len() == expected_values);
    Ok(words)
}

/// The number of complete tokens that a list of token-major values offers.
pub open spec fn offered_tokens(length: int, token_count: int, channel_count: int) -> int {
    if length / channel_count < token_count {
        length / channel_count
    } else {
        token_count
    }
}

/// Why head `head` cannot be taken from token rows, if it cannot.
pub open spec fn head_failure(
    tokens: int,
    channel_count: usize,
    channel_offset: usize,
    head: int,
    head_width: usize,
) -> Option<Error> {
    if head * head_width > usize::MAX {
        Some(Error::ArithmeticOverflow { context: "recurrent head channel offset" })
    } else if channel_offset + head * head_width > usize::MAX {
        Some(Error::ArithmeticOverflow { context: "recurrent head start" })
    } else if channel_offset + head * head_width + head_width > usize::MAX {
        Some(Error::ArithmeticOverflow { context: "recurrent head end" })
    } else if tokens > 0 && channel_offset + head * head_width + head_width > channel_count {
        Some(Error::RecurrentInput { hidden: channel_count, actual: channel_count })
    } else {
        None
    }
}

/// The first of `heads` heads that cannot be taken from token rows, if there is one.
pub open spec fn heads_failure(
    tokens: int,
    channel_count: usize,
    channel_offset: usize,
    heads: int,
    head_width: usize,
) -> Option<Error>
    decreases heads,
{
    if heads <= 0 {
        None
    } else if let Some(error) = heads_failure(
        tokens,
        channel_count,
        channel_offset,
        heads - 1,
        head_width,
    ) {
        Some(error)
    } else {
        head_failure(tokens, channel_count, channel_offset, heads - 1, head_width)
    }
}

proof fn lemma_heads_failure(
    tokens: int,
    channel_count: usize,
    channel_offset: usize,
    shorter: int,
    longer: int,
    head_width: usize,
)
    requires
        0 <= shorter <= longer,
        heads_failure(tokens, channel_count, channel_offset, shorter, head_width) is Some,
    ensures
        heads_failure(tokens, channel_count, channel_offset, longer, head_width) == heads_failure(
            tokens,
            channel_count,
            channel_offset,
            shorter,
            head_width,
        ),
    decreases longer - shorter,
{
    if shorter < longer {
        lemma_heads_failure(tokens, channel_count, channel_offset, shorter, longer - 1, head_width);
    }
}

/// Why the size of `tokens` rows of `heads` heads cannot be represented, if it cannot.
pub open spec fn extent_failure(
    tokens: usize,
    heads: usize,
    width: usize,
    rows: &'static str,
    values: &'static str,
) -> Option<Error> {
    if tokens * heads > usize::MAX {
        Some(Error::ArithmeticOverflow { context: rows })
    } else if tokens * heads * width > usize::MAX {
        Some(Error::ArithmeticOverflow { context: values })
    } else {
        None
    }
}

/// Count the values of `tokens` rows of `heads` heads, refusing overflow.
pub fn row_extent(
    tokens: usize,
    heads: usize,
    width: usize,
    rows: &'static str,
    values: &'static str,
) -> (extent: Result<usize, Error>)
    ensures
        match extent {
            Ok(extent) => {
                &&& extent_failure(tokens, heads, width, rows, values) is None
                &&& extent == tokens * heads * width
            },
            Err(error) => extent_failure(tokens, heads, width, rows, values) == Some(error),
        },
{
    let count: usize = checked_product(tokens, heads, rows)?;
    checked_product(count, width, values)
}

/// Take `head_count` heads of every token and lay them out head by head.
///
/// The heads of a token begin at `channel_offset` of its `channel_count` channels.
pub fn heads_from_tokens<T: Copy>(
    values: &[T],
    token_count: usize,
    channel_count: usize,
    channel_offset: usize,
    head_count: usize,
    head_width: usize,
) -> (heads: Result<Vec<T>, Error>)
    requires
        channel_count > 0,
    ensures
        ({
            let tokens = offered_tokens(
                values@.len() as int,
                token_count as int,
                channel_count as int,
            );
            let extent = extent_failure(
                token_count,
                head_count,
                head_width,
                "recurrent head tokens",
                "recurrent head values",
            );
            let failure = heads_failure(
                tokens,
                channel_count,
                channel_offset,
                head_count as int,
                head_width,
            );
            match heads {
                Ok(heads) => {
                    &&& extent is None
                    &&& failure is None
                    &&& heads@ == arrangement::head_major(
                        values@,
                        tokens,
                        channel_count as int,
                        channel_offset as int,
                        head_count as int,
                        head_width as int,
                    )
                },
                Err(error) => if extent is Some {
                    extent == Some(error)
                } else {
                    ||| failure == Some(error)
                    ||| {
                        &&& token_count * head_count * head_width > 0
                        &&& error.recurrent_allocation(
                            "head-major recurrence input",
                            (token_count * head_count * head_width) as usize,
                        )
                    }
                },
            }
        }),
{
    let length: usize = row_extent(
        token_count,
        head_count,
        head_width,
        "recurrent head tokens",
        "recurrent head values",
    )?;
    let storage: Vec<T> = reserve_f32("head-major recurrence input", length)?;
    heads_into(
        values,
        token_count,
        channel_count,
        channel_offset,
        head_count,
        head_width,
        storage,
    )
}

/// Take heads of every token into an empty list, head by head.
pub fn heads_into<T: Copy>(
    values: &[T],
    token_count: usize,
    channel_count: usize,
    channel_offset: usize,
    head_count: usize,
    head_width: usize,
    storage: Vec<T>,
) -> (heads: Result<Vec<T>, Error>)
    requires
        channel_count > 0,
        storage@.len() == 0,
    ensures
        ({
            let tokens = offered_tokens(
                values@.len() as int,
                token_count as int,
                channel_count as int,
            );
            let failure = heads_failure(
                tokens,
                channel_count,
                channel_offset,
                head_count as int,
                head_width,
            );
            match heads {
                Ok(heads) => {
                    &&& failure is None
                    &&& heads@ == arrangement::head_major(
                        values@,
                        tokens,
                        channel_count as int,
                        channel_offset as int,
                        head_count as int,
                        head_width as int,
                    )
                },
                Err(error) => failure == Some(error),
            }
        }),
{
    let offered: usize = values.len() / channel_count;
    let tokens: usize = if offered < token_count {
        offered
    } else {
        token_count
    };
    let ghost start = arrangement::head_major_start(
        tokens as int,
        channel_count as int,
        channel_offset as int,
        head_width as int,
    );
    proof {
        lemma_quotient_fits(values@.len() as int, channel_count as int);
        assert(tokens * channel_count <= values@.len()) by (nonlinear_arith)
            requires
                tokens <= offered,
                offered * channel_count <= values@.len(),
                channel_count >= 0,
        ;
    }
    let mut output: Vec<T> = storage;
    let mut head: usize = 0;
    assert(0 * tokens == 0) by (nonlinear_arith);
    assert(output@ =~= arrangement::windows(values@, head_width as int, 0, start)) by {
        assert(0 * head_width == 0) by (nonlinear_arith);
    }
    while head < head_count
        invariant
            0 <= head <= head_count,
            channel_count > 0,
            tokens * channel_count <= values@.len(),
            tokens == offered_tokens(
                values@.len() as int,
                token_count as int,
                channel_count as int,
            ),
            start == arrangement::head_major_start(
                tokens as int,
                channel_count as int,
                channel_offset as int,
                head_width as int,
            ),
            heads_failure(
                tokens as int,
                channel_count,
                channel_offset,
                head as int,
                head_width,
            ) is None,
            output@ == arrangement::windows(values@, head_width as int, head * tokens, start),
        decreases head_count - head,
    {
        proof {
            if heads_failure(
                tokens as int,
                channel_count,
                channel_offset,
                head + 1,
                head_width,
            ) is Some {
                lemma_heads_failure(
                    tokens as int,
                    channel_count,
                    channel_offset,
                    head + 1,
                    head_count as int,
                    head_width,
                );
            }
        }
        let relative: usize = checked_product(
            head,
            head_width,
            "recurrent head channel offset",
        )?;
        let head_offset: usize = checked_add(channel_offset, relative, "recurrent head start")?;
        let head_end: usize = checked_add(head_offset, head_width, "recurrent head end")?;
        if tokens > 0 && head_end > channel_count {
            return Err(Error::RecurrentInput { hidden: channel_count, actual: channel_count });
        }
        let mut token: usize = 0;
        assert(head * tokens + 0 == head * tokens);
        while token < tokens
            invariant
                0 <= token <= tokens,
                channel_count > 0,
                tokens * channel_count <= values@.len(),
                start == arrangement::head_major_start(
                    tokens as int,
                    channel_count as int,
                    channel_offset as int,
                    head_width as int,
                ),
                head_offset == channel_offset + head * head_width,
                head_end == head_offset + head_width,
                tokens > 0 ==> head_end <= channel_count,
                output@ == arrangement::windows(
                    values@,
                    head_width as int,
                    head * tokens + token,
                    start,
                ),
            decreases tokens - token,
        {
            let ghost row = head * tokens + token;
            proof {
                lemma_token_row(
                    values@.len() as int,
                    head as int,
                    token as int,
                    tokens as int,
                    channel_count as int,
                );
                assert(start(row) == token * channel_count + head_offset);
            }
            let length: usize = values.len();
            assert(token * channel_count + head_end <= length);
            push_window(
                &mut output,
                values,
                token * channel_count + head_offset,
                head_width,
                Ghost(row),
                Ghost(start),
            );
            token = token + 1;
        }
        assert((head + 1) * tokens == head * tokens + tokens) by (nonlinear_arith);
        head = head + 1;
    }
    Ok(output)
}

proof fn lemma_quotient_fits(length: int, width: int)
    requires
        0 <= length,
        0 < width,
    ensures
        0 <= length / width,
        length / width * width <= length,
{
    vstd::arithmetic::div_mod::lemma_fundamental_div_mod(length, width);
    vstd::arithmetic::div_mod::lemma_mod_bound(length, width);
    assert(length / width * width == width * (length / width)) by (nonlinear_arith);
    assert(0 <= length / width) by (nonlinear_arith)
        requires
            0 <= length,
            0 < width,
    ;
}

proof fn lemma_token_row(length: int, head: int, token: int, tokens: int, channels: int)
    requires
        0 <= head,
        0 <= token < tokens,
        0 < channels,
        tokens * channels <= length,
    ensures
        0 <= head * tokens + token,
        (head * tokens + token) % tokens == token,
        (head * tokens + token) / tokens == head,
        0 <= token * channels,
        token * channels + channels <= length,
{
    assert(0 <= head * tokens) by (nonlinear_arith)
        requires
            0 <= head,
            0 < tokens,
    ;
    vstd::arithmetic::div_mod::lemma_fundamental_div_mod_converse(
        head * tokens + token,
        tokens,
        head,
        token,
    );
    assert(0 <= token * channels && token * channels + channels <= tokens * channels)
        by (nonlinear_arith)
        requires
            0 <= token,
            token + 1 <= tokens,
            0 < channels,
    ;
}

/// Why grouped key heads cannot be tiled over value heads, if they cannot: the
/// first value head whose key head is missing refuses.
pub open spec fn tile_failure(
    length: int,
    source: usize,
    key_head_count: int,
    value_heads: int,
) -> Option<Error>
    decreases value_heads,
{
    if value_heads <= 0 {
        None
    } else if let Some(error) = tile_failure(length, source, key_head_count, value_heads - 1) {
        Some(error)
    } else {
        let start = ((value_heads - 1) % key_head_count) * source;
        if start > usize::MAX {
            Some(Error::ArithmeticOverflow { context: "source Q/K head offset" })
        } else if start + source > usize::MAX {
            Some(Error::ArithmeticOverflow { context: "source Q/K head end" })
        } else if start + source > length {
            Some(Error::RecurrentInput { hidden: source, actual: length as usize })
        } else {
            None
        }
    }
}

proof fn lemma_tile_failure(
    length: int,
    source: usize,
    key_head_count: int,
    shorter: int,
    longer: int,
)
    requires
        0 <= shorter <= longer,
        tile_failure(length, source, key_head_count, shorter) is Some,
    ensures
        tile_failure(length, source, key_head_count, longer) == tile_failure(
            length,
            source,
            key_head_count,
            shorter,
        ),
    decreases longer - shorter,
{
    if shorter < longer {
        lemma_tile_failure(length, source, key_head_count, shorter, longer - 1);
    }
}

/// Repeat grouped key heads so that value head `h` reads key head `h % key_head_count`.
pub fn tile_key_heads<T: Copy>(
    grouped: &[T],
    token_count: usize,
    key_head_count: usize,
    value_head_count: usize,
    key_dim: usize,
) -> (tiled: Result<Vec<T>, Error>)
    requires
        key_head_count > 0 || value_head_count == 0,
    ensures
        ({
            let source = (token_count * key_dim) as usize;
            let extent = extent_failure(
                value_head_count,
                token_count,
                key_dim,
                "tiled Q/K heads",
                "tiled Q/K values",
            );
            let failure = tile_failure(
                grouped@.len() as int,
                source,
                key_head_count as int,
                value_head_count as int,
            );
            match tiled {
                Ok(tiled) => {
                    &&& extent is None
                    &&& token_count * key_dim <= usize::MAX
                    &&& failure is None
                    &&& tiled@ == arrangement::tiled(
                        grouped@,
                        key_head_count as int,
                        value_head_count as int,
                        source as int,
                    )
                },
                Err(error) => if extent is Some {
                    extent == Some(error)
                } else {
                    ||| {
                        &&& value_head_count * token_count * key_dim > 0
                        &&& error.recurrent_allocation(
                            "tiled Q/K heads",
                            (value_head_count * token_count * key_dim) as usize,
                        )
                    }
                    ||| {
                        &&& token_count * key_dim > usize::MAX
                        &&& error == (Error::ArithmeticOverflow { context: "source Q/K head" })
                    }
                    ||| token_count * key_dim <= usize::MAX && failure == Some(error)
                },
            }
        }),
{
    let length: usize = row_extent(
        value_head_count,
        token_count,
        key_dim,
        "tiled Q/K heads",
        "tiled Q/K values",
    )?;
    let storage: Vec<T> = reserve_f32("tiled Q/K heads", length)?;
    let source: usize = checked_product(token_count, key_dim, "source Q/K head")?;
    tile_into(grouped, source, key_head_count, value_head_count, storage)
}

/// Repeat grouped key heads of `source` values each into an empty list.
pub fn tile_into<T: Copy>(
    grouped: &[T],
    source: usize,
    key_head_count: usize,
    value_head_count: usize,
    storage: Vec<T>,
) -> (tiled: Result<Vec<T>, Error>)
    requires
        key_head_count > 0 || value_head_count == 0,
        storage@.len() == 0,
    ensures
        ({
            let failure = tile_failure(
                grouped@.len() as int,
                source,
                key_head_count as int,
                value_head_count as int,
            );
            match tiled {
                Ok(tiled) => {
                    &&& failure is None
                    &&& tiled@ == arrangement::tiled(
                        grouped@,
                        key_head_count as int,
                        value_head_count as int,
                        source as int,
                    )
                },
                Err(error) => failure == Some(error),
            }
        }),
{
    let ghost first = arrangement::tiled_start(key_head_count as int, source as int);
    let mut output: Vec<T> = storage;
    let mut value_head: usize = 0;
    assert(output@ =~= arrangement::windows(grouped@, source as int, 0, first)) by {
        assert(0 * source == 0) by (nonlinear_arith);
    }
    while value_head < value_head_count
        invariant
            0 <= value_head <= value_head_count,
            key_head_count > 0 || value_head_count == 0,
            first == arrangement::tiled_start(key_head_count as int, source as int),
            tile_failure(
                grouped@.len() as int,
                source,
                key_head_count as int,
                value_head as int,
            ) is None,
            output@ == arrangement::windows(grouped@, source as int, value_head as int, first),
        decreases value_head_count - value_head,
    {
        proof {
            if tile_failure(
                grouped@.len() as int,
                source,
                key_head_count as int,
                value_head + 1,
            ) is Some {
                lemma_tile_failure(
                    grouped@.len() as int,
                    source,
                    key_head_count as int,
                    value_head + 1,
                    value_head_count as int,
                );
            }
        }
        let source_head: usize = value_head % key_head_count;
        let start: usize = checked_product(source_head, source, "source Q/K head offset")?;
        let end: usize = checked_add(start, source, "source Q/K head end")?;
        if end > grouped.len() {
            return Err(Error::RecurrentInput { hidden: source, actual: grouped.len() });
        }
        push_window(
            &mut output,
            grouped,
            start,
            source,
            Ghost(value_head as int),
            Ghost(first),
        );
        value_head = value_head + 1;
    }
    Ok(output)
}

/// Why head-major rows cannot be laid out token by token, if they cannot: the
/// first missing row refuses.
pub open spec fn token_rows_failure(
    length: int,
    tokens: int,
    heads: int,
    width: usize,
    rows: int,
) -> Option<Error>
    decreases rows,
{
    if rows <= 0 {
        None
    } else if let Some(error) = token_rows_failure(length, tokens, heads, width, rows - 1) {
        Some(error)
    } else {
        let start = arrangement::token_major_start(tokens, heads, width as int)(rows - 1);
        if start + width > length {
            Some(Error::RecurrentInput { hidden: width, actual: length as usize })
        } else {
            None
        }
    }
}

proof fn lemma_token_rows_failure(
    length: int,
    tokens: int,
    heads: int,
    width: usize,
    shorter: int,
    longer: int,
)
    requires
        0 <= shorter <= longer,
        token_rows_failure(length, tokens, heads, width, shorter) is Some,
    ensures
        token_rows_failure(length, tokens, heads, width, longer) == token_rows_failure(
            length,
            tokens,
            heads,
            width,
            shorter,
        ),
    decreases longer - shorter,
{
    if shorter < longer {
        lemma_token_rows_failure(length, tokens, heads, width, shorter, longer - 1);
    }
}

/// Lay out head-major rows token by token.
pub fn heads_to_tokens<T: Copy>(
    values: &[T],
    token_count: usize,
    head_count: usize,
    head_width: usize,
) -> (rows: Result<Vec<T>, Error>)
    ensures
        ({
            let extent = extent_failure(
                token_count,
                head_count,
                head_width,
                "recurrent output token heads",
                "recurrent output token values",
            );
            let failure = token_rows_failure(
                values@.len() as int,
                token_count as int,
                head_count as int,
                head_width,
                token_count * head_count,
            );
            match rows {
                Ok(rows) => {
                    &&& extent is None
                    &&& failure is None
                    &&& rows@ == arrangement::token_major(
                        values@,
                        token_count as int,
                        head_count as int,
                        head_width as int,
                    )
                },
                Err(error) => if extent is Some {
                    extent == Some(error)
                } else {
                    ||| {
                        &&& token_count * head_count * head_width > 0
                        &&& error.recurrent_allocation(
                            "token-major recurrent output",
                            (token_count * head_count * head_width) as usize,
                        )
                    }
                    ||| {
                        &&& head_count == 0 && token_count * head_width > usize::MAX
                        &&& error == (Error::ArithmeticOverflow {
                            context: "recurrent output head",
                        })
                    }
                    ||| failure == Some(error)
                },
            }
        }),
{
    let length: usize = row_extent(
        token_count,
        head_count,
        head_width,
        "recurrent output token heads",
        "recurrent output token values",
    )?;
    let storage: Vec<T> = reserve_f32("token-major recurrent output", length)?;
    proof {
        assert(head_count > 0 ==> token_count * head_width <= token_count * head_count * head_width)
            by (nonlinear_arith)
            requires
                token_count >= 0,
                head_count >= 0,
                head_width >= 0,
        ;
    }
    let head_len: usize = checked_product(token_count, head_width, "recurrent output head")?;
    token_rows_into(values, token_count, head_count, head_width, head_len, storage)
}

/// Lay out head-major rows of heads of `head_len` values each into an empty list.
pub fn token_rows_into<T: Copy>(
    values: &[T],
    token_count: usize,
    head_count: usize,
    head_width: usize,
    head_len: usize,
    storage: Vec<T>,
) -> (rows: Result<Vec<T>, Error>)
    requires
        token_count * head_count * head_width <= usize::MAX,
        head_len == token_count * head_width,
        storage@.len() == 0,
    ensures
        ({
            let failure = token_rows_failure(
                values@.len() as int,
                token_count as int,
                head_count as int,
                head_width,
                token_count * head_count,
            );
            match rows {
                Ok(rows) => {
                    &&& failure is None
                    &&& rows@ == arrangement::token_major(
                        values@,
                        token_count as int,
                        head_count as int,
                        head_width as int,
                    )
                },
                Err(error) => failure == Some(error),
            }
        }),
{
    let ghost first = arrangement::token_major_start(
        token_count as int,
        head_count as int,
        head_width as int,
    );
    let mut output: Vec<T> = storage;
    let mut token: usize = 0;
    assert(0 * head_count == 0) by (nonlinear_arith);
    assert(output@ =~= arrangement::windows(values@, head_width as int, 0, first)) by {
        assert(0 * head_width == 0) by (nonlinear_arith);
    }
    while token < token_count
        invariant
            0 <= token <= token_count,
            token_count * head_count * head_width <= usize::MAX,
            head_len == token_count * head_width,
            first == arrangement::token_major_start(
                token_count as int,
                head_count as int,
                head_width as int,
            ),
            token_rows_failure(
                values@.len() as int,
                token_count as int,
                head_count as int,
                head_width,
                token * head_count,
            ) is None,
            output@ == arrangement::windows(
                values@,
                head_width as int,
                token * head_count,
                first,
            ),
        decreases token_count - token,
    {
        let mut head: usize = 0;
        assert(token * head_count + 0 == token * head_count);
        while head < head_count
            invariant
                0 <= head <= head_count,
                0 <= token < token_count,
                token_count * head_count * head_width <= usize::MAX,
                head_len == token_count * head_width,
                first == arrangement::token_major_start(
                    token_count as int,
                    head_count as int,
                    head_width as int,
                ),
                token_rows_failure(
                    values@.len() as int,
                    token_count as int,
                    head_count as int,
                    head_width,
                    token * head_count + head,
                ) is None,
                output@ == arrangement::windows(
                    values@,
                    head_width as int,
                    token * head_count + head,
                    first,
                ),
            decreases head_count - head,
        {
            let ghost row = token * head_count + head;
            proof {
                lemma_head_row(
                    token as int,
                    token_count as int,
                    head as int,
                    head_count as int,
                    head_width as int,
                );
                assert(first(row) == head * head_len + token * head_width);
                if token_rows_failure(
                    values@.len() as int,
                    token_count as int,
                    head_count as int,
                    head_width,
                    row + 1,
                ) is Some {
                    lemma_token_rows_failure(
                        values@.len() as int,
                        token_count as int,
                        head_count as int,
                        head_width,
                        row + 1,
                        token_count * head_count,
                    );
                }
            }
            let start: usize = head * head_len + token * head_width;
            if start + head_width > values.len() {
                return Err(Error::RecurrentInput { hidden: head_width, actual: values.len() });
            }
            push_window(&mut output, values, start, head_width, Ghost(row), Ghost(first));
            head = head + 1;
        }
        assert((token + 1) * head_count == token * head_count + head_count) by (nonlinear_arith);
        token = token + 1;
    }
    Ok(output)
}

proof fn lemma_head_row(token: int, tokens: int, head: int, heads: int, width: int)
    requires
        0 <= token < tokens,
        0 <= head < heads,
        0 <= width,
    ensures
        0 <= token * heads + head < tokens * heads,
        (token * heads + head) % heads == head,
        (token * heads + head) / heads == token,
        0 <= head * (tokens * width),
        0 <= token * width,
        head * (tokens * width) + token * width + width <= tokens * heads * width,
{
    assert(0 <= token * heads + head < tokens * heads) by (nonlinear_arith)
        requires
            0 <= token < tokens,
            0 <= head < heads,
    ;
    vstd::arithmetic::div_mod::lemma_fundamental_div_mod_converse(
        token * heads + head,
        heads,
        token,
        head,
    );
    assert(0 <= token * width && token * width + width <= tokens * width) by (nonlinear_arith)
        requires
            0 <= token,
            token + 1 <= tokens,
            0 <= width,
    ;
    let head_len = tokens * width;
    assert(0 <= head * head_len && head * head_len + head_len <= heads * head_len)
        by (nonlinear_arith)
        requires
            0 <= head,
            head + 1 <= heads,
            0 <= head_len,
    ;
    assert(heads * (tokens * width) == tokens * heads * width) by (nonlinear_arith);
}

/// What one recurrent step computes outside: its output rows and the next state.
#[derive(Debug)]
pub struct RecurrentOutput {
    pub output: Vec<u32>,
    pub convolution_history: Vec<u32>,
    pub state: Vec<u32>,
}

/// The parameters and persistent state of one recurrent block, as bit patterns.
#[derive(Debug)]
pub struct Qwen35RecurrentExecution {
    pub block_index: u64,
    pub layout: ExecutionLayout,
    pub attention_norm: Vec<u32>,
    pub ssm_a: Vec<u32>,
    pub ssm_conv: Vec<u32>,
    pub ssm_dt: Vec<u32>,
    pub ssm_norm: Vec<u32>,
    pub convolution_history: Vec<u32>,
    pub recurrent_state: Vec<u32>,
}

/// The shape of a block's convolution parameter.
pub open spec fn conv_dims(layout: Qwen35RecurrentLayout) -> Seq<u64> {
    seq![layout.conv_kernel, (2 * (layout.state * layout.group_count) + layout.inner) as u64]
}

/// The values of the convolution history: one kernel less one of every channel.
pub open spec fn history_values(layout: ExecutionLayout) -> int {
    layout.conv_width * (layout.conv_kernel - 1)
}

/// The values of the recurrent state: one key-by-value matrix for every value head.
pub open spec fn state_values(layout: ExecutionLayout) -> int {
    layout.value_head_count * (layout.key_dim * layout.value_dim)
}

/// Why a zero state of a geometry has no representable extent, if it has none.
pub open spec fn state_failure(layout: ExecutionLayout) -> Option<Error> {
    if layout.key_dim * layout.value_dim > usize::MAX {
        Some(Error::ArithmeticOverflow { context: "recurrent GDN state head" })
    } else if state_values(layout) > usize::MAX {
        Some(Error::ArithmeticOverflow { context: "recurrent GDN state" })
    } else {
        None
    }
}

/// Whether a zero state of a geometry is refused with an error: the history first,
/// then the recurrent state; the allocator may refuse either.
pub open spec fn zero_state_refused(layout: ExecutionLayout, error: Error) -> bool {
    if layout.conv_kernel == 0 {
        error == (Error::ArithmeticOverflow { context: "recurrent convolution kernel minus one" })
    } else if history_values(layout) > usize::MAX {
        error == (Error::ArithmeticOverflow { context: "recurrent convolution history" })
    } else {
        ||| {
            &&& history_values(layout) > 0
            &&& error.recurrent_allocation("convolution history", history_values(layout) as usize)
        }
        ||| state_failure(layout) == Some(error)
        ||| {
            &&& state_failure(layout) is None
            &&& state_values(layout) > 0
            &&& error.recurrent_allocation("GDN state", state_values(layout) as usize)
        }
    }
}

/// The parameters of a block: the role and the shape of each.
pub open spec fn parameter_role(index: int) -> &'static str {
    if index == 0 {
        ATTN_NORM_ROLE
    } else if index == 1 {
        SSM_A_ROLE
    } else if index == 2 {
        SSM_DT_ROLE
    } else if index == 3 {
        SSM_NORM_ROLE
    } else {
        SSM_CONV1D_ROLE
    }
}

/// The shape of a block's parameter.
pub open spec fn parameter_dims(layout: Qwen35RecurrentLayout, index: int) -> Seq<u64> {
    if index == 0 {
        seq![layout.hidden]
    } else if index == 1 || index == 2 {
        seq![layout.time_step_rank]
    } else if index == 3 {
        seq![layout.inner / layout.time_step_rank]
    } else {
        conv_dims(layout)
    }
}

/// The name of a block's parameter.
pub open spec fn parameter_name(block_index: u64, index: int) -> Seq<char> {
    text::block_name_spec(block_index as nat, parameter_role(index)@)
}

/// Whether the construction of a block's execution is refused with an error.
pub open spec fn construction_refused(
    artifact: VerifiedArtifact,
    layout: Qwen35RecurrentLayout,
    block_index: u64,
    error: Error,
) -> bool {
    let metadata = artifact.spec_observation().metadata@;
    if let Some(failure) = qwen35::epsilon_failure(metadata) {
        error == failure
    } else if let Some(failure) = ExecutionLayout::failure(layout) {
        error == failure
    } else {
        exists|host: ExecutionLayout| #[trigger]
            host.describes(layout, metadata[LAYERNORM_RMS_EPSILON_KEY@]->F32_0) && {
                match host.block_failure(block_index) {
                    Some(failure) => error == failure,
                    None => {
                        ||| exists|index: int| #[trigger]
                            first_refused(artifact, layout, block_index, index, error)
                        ||| {
                            &&& parameters_read(artifact, layout, block_index, 5)
                            &&& zero_state_refused(host, error)
                        }
                    },
                }
            }
    }
}

/// Whether the first `count` parameters of a block can be read.
pub open spec fn parameters_read(
    artifact: VerifiedArtifact,
    layout: Qwen35RecurrentLayout,
    block_index: u64,
    count: int,
) -> bool {
    forall|index: int|
        0 <= index < count ==> parameter_readable(artifact, layout, block_index, index)
}

/// Whether a parameter of a block can be read.
pub open spec fn parameter_readable(
    artifact: VerifiedArtifact,
    layout: Qwen35RecurrentLayout,
    block_index: u64,
    index: int,
) -> bool {
    exists|words: Seq<u32>|
        tensor_read(
            artifact,
            parameter_name(block_index, index),
            parameter_dims(layout, index),
            words,
        )
}

/// Whether a parameter is the first of a block that is refused, with an error.
pub open spec fn first_refused(
    artifact: VerifiedArtifact,
    layout: Qwen35RecurrentLayout,
    block_index: u64,
    index: int,
    error: Error,
) -> bool {
    &&& 0 <= index < 5
    &&& parameters_read(artifact, layout, block_index, index)
    &&& tensor_refused(
        artifact,
        parameter_name(block_index, index),
        parameter_dims(layout, index),
        error,
    )
}

/// Whether an execution is that of a block at its start: it holds the block's five
/// parameters, and its state is zero.
pub open spec fn constructed(
    artifact: VerifiedArtifact,
    layout: Qwen35RecurrentLayout,
    block_index: u64,
    execution: Qwen35RecurrentExecution,
) -> bool {
    let metadata = artifact.spec_observation().metadata@;
    &&& qwen35::epsilon_failure(metadata) is None
    &&& execution.block_index == block_index
    &&& execution.layout.describes(layout, metadata[LAYERNORM_RMS_EPSILON_KEY@]->F32_0)
    &&& execution.layout.block_failure(block_index) is None
    &&& parameter_is(artifact, layout, block_index, 0, execution.attention_norm@)
    &&& parameter_is(artifact, layout, block_index, 1, execution.ssm_a@)
    &&& parameter_is(artifact, layout, block_index, 2, execution.ssm_dt@)
    &&& parameter_is(artifact, layout, block_index, 3, execution.ssm_norm@)
    &&& parameter_is(artifact, layout, block_index, 4, execution.ssm_conv@)
    &&& execution.convolution_history@ == zeros(history_values(execution.layout))
    &&& execution.recurrent_state@ == zeros(state_values(execution.layout))
}

/// Whether values are those of a block's parameter.
pub open spec fn parameter_is(
    artifact: VerifiedArtifact,
    layout: Qwen35RecurrentLayout,
    block_index: u64,
    index: int,
    words: Seq<u32>,
) -> bool {
    tensor_read(
        artifact,
        parameter_name(block_index, index),
        parameter_dims(layout, index),
        words,
    )
}

/// A list of zero values.
pub open spec fn zeros(length: int) -> Seq<u32> {
    Seq::new(length as nat, |i: int| 0u32)
}

impl Qwen35RecurrentExecution {
    /// Read a block's parameters and start from a zero state.
    pub fn try_from_weights(
        artifact: &VerifiedArtifact,
        layout: Qwen35RecurrentLayout,
        block_index: u64,
    ) -> (execution: Result<Qwen35RecurrentExecution, Error>)
        ensures
            match execution {
                Ok(execution) => constructed(*artifact, layout, block_index, execution),
                Err(error) => construction_refused(*artifact, layout, block_index, error),
            },
    {
        let epsilon: u32 = recurrent_layernorm_rms_epsilon(&artifact.observation().metadata)?;
        let host = ExecutionLayout::try_from_profile(layout, epsilon)?;
        assert(host.describes(
            layout,
            artifact.spec_observation().metadata@[LAYERNORM_RMS_EPSILON_KEY@]->F32_0,
        ));
        host.validate_recurrent_block(block_index)?;
        let hidden_dims: [u64; 1] = [layout.hidden];
        let head_dims: [u64; 1] = [layout.time_step_rank];
        let norm_dims: [u64; 1] = [host.value_dim as u64];
        let convolution_dims: [u64; 2] = [layout.conv_kernel, host.conv_width as u64];
        assert(hidden_dims@ =~= parameter_dims(layout, 0));
        assert(head_dims@ =~= parameter_dims(layout, 1));
        assert(norm_dims@ =~= parameter_dims(layout, 3));
        assert(convolution_dims@ =~= parameter_dims(layout, 4));
        let attention_norm = read_parameter(artifact, layout, block_index, 0, ATTN_NORM_ROLE, &hidden_dims)?;
        let ssm_a = read_parameter(artifact, layout, block_index, 1, SSM_A_ROLE, &head_dims)?;
        let ssm_dt = read_parameter(artifact, layout, block_index, 2, SSM_DT_ROLE, &head_dims)?;
        let ssm_norm = read_parameter(artifact, layout, block_index, 3, SSM_NORM_ROLE, &norm_dims)?;
        let ssm_conv = read_parameter(artifact, layout, block_index, 4, SSM_CONV1D_ROLE, &convolution_dims)?;
        let (convolution_history, recurrent_state) = zero_state(host)?;
        Ok(
            Qwen35RecurrentExecution {
                block_index,
                layout: host,
                attention_norm,
                ssm_a,
                ssm_conv,
                ssm_dt,
                ssm_norm,
                convolution_history,
                recurrent_state,
            },
        )
    }

    /// Why an input is refused before a step, if it is, apart from its values.
    pub open spec fn input_failure(self, length: int) -> Option<Error> {
        if length == 0 || self.layout.hidden == 0 || length % (self.layout.hidden as int) != 0 {
            Some(Error::RecurrentInput { hidden: self.layout.hidden, actual: length as usize })
        } else {
            None
        }
    }

    /// Admit complete finite hidden rows and count their tokens.
    pub fn admit_input(&self, hidden_tokens: &[u32]) -> (tokens: Result<usize, Error>)
        ensures
            match tokens {
                Ok(tokens) => {
                    &&& self.input_failure(hidden_tokens@.len() as int) is None
                    &&& forall|i: int|
                        0 <= i < hidden_tokens@.len() ==> float_bits::finite(
                            #[trigger] hidden_tokens@[i],
                        )
                    &&& tokens == hidden_tokens@.len() as int / (self.layout.hidden as int)
                },
                Err(error) => if self.input_failure(hidden_tokens@.len() as int) is Some {
                    self.input_failure(hidden_tokens@.len() as int) == Some(error)
                } else {
                    exists|i: int| #[trigger]
                        refuses_value(hidden_tokens@, "input", 0, i, error)
                },
            },
    {
        if hidden_tokens.len() == 0 || !hidden_tokens.len().is_multiple_of(self.layout.hidden) {
            return Err(
                Error::RecurrentInput {
                    hidden: self.layout.hidden,
                    actual: hidden_tokens.len(),
                },
            );
        }
        ensure_finite(hidden_tokens, "input", 0)?;
        Ok(hidden_tokens.len() / self.layout.hidden)
    }

    /// Why a computed step does not fit its input and the prior state, if it does not:
    /// it hands out as many values as it was given, and replaces the convolution history
    /// and the recurrent state by as many values as they have.
    pub open spec fn computed_failure(self, step: RecurrentOutput, length: int) -> Option<Error> {
        if step.output@.len() != length {
            Some(
                Error::ExecutionAllocationPlan {
                    target: "recurrent step output",
                    planned: length as usize,
                    derived: step.output@.len() as usize,
                },
            )
        } else if step.convolution_history@.len() != self.convolution_history@.len() {
            Some(
                Error::ExecutionAllocationPlan {
                    target: "convolution history",
                    planned: self.convolution_history@.len() as usize,
                    derived: step.convolution_history@.len() as usize,
                },
            )
        } else if step.state@.len() != self.recurrent_state@.len() {
            Some(
                Error::ExecutionAllocationPlan {
                    target: "GDN state",
                    planned: self.recurrent_state@.len() as usize,
                    derived: step.state@.len() as usize,
                },
            )
        } else {
            None
        }
    }

    /// Publish the state of a step computed over hidden rows and hand out its rows, or
    /// discard a failed step and keep the prior state. The input is refused first, and
    /// a computed step that does not fit is refused as well.
    pub fn step(
        &mut self,
        hidden_tokens: &[u32],
        computed: Result<RecurrentOutput, Error>,
    ) -> (output: Result<Vec<u32>, Error>)
        ensures
            match output {
                Ok(output) => computed matches Ok(step) && {
                    &&& old(self).input_failure(hidden_tokens@.len() as int) is None
                    &&& forall|i: int|
                        0 <= i < hidden_tokens@.len() ==> float_bits::finite(
                            #[trigger] hidden_tokens@[i],
                        )
                    &&& old(self).computed_failure(step, hidden_tokens@.len() as int) is None
                    &&& output == step.output
                    &&& output@.len() == hidden_tokens@.len()
                    &&& *final(self) == (Qwen35RecurrentExecution {
                        convolution_history: step.convolution_history,
                        recurrent_state: step.state,
                        ..*old(self)
                    })
                },
                Err(error) => {
                    &&& *final(self) == *old(self)
                    &&& if old(self).input_failure(hidden_tokens@.len() as int) is Some {
                        old(self).input_failure(hidden_tokens@.len() as int) == Some(error)
                    } else {
                        ||| exists|i: int| #[trigger]
                            refuses_value(hidden_tokens@, "input", 0, i, error)
                        ||| {
                            &&& forall|i: int|
                                0 <= i < hidden_tokens@.len() ==> float_bits::finite(
                                    #[trigger] hidden_tokens@[i],
                                )
                            &&& match computed {
                                Err(failure) => error == failure,
                                Ok(step) => old(self).computed_failure(
                                    step,
                                    hidden_tokens@.len() as int,
                                ) == Some(error),
                            }
                        }
                    }
                },
            },
    {
        self.admit_input(hidden_tokens)?;
        let step = computed?;
        ensure_execution_plan("recurrent step output", step.output.len(), hidden_tokens.len())?;
        ensure_execution_plan(
            "convolution history",
            step.convolution_history.len(),
            self.convolution_history.len(),
        )?;
        ensure_execution_plan("GDN state", step.state.len(), self.recurrent_state.len())?;
        self.convolution_history = step.convolution_history;
        self.recurrent_state = step.state;
        Ok(step.output)
    }

    /// Whether this holds the values of another execution.
    pub open spec fn copies(self, other: Qwen35RecurrentExecution) -> bool {
        &&& self.block_index == other.block_index
        &&& self.layout == other.layout
        &&& self.attention_norm@ == other.attention_norm@
        &&& self.ssm_a@ == other.ssm_a@
        &&& self.ssm_conv@ == other.ssm_conv@
        &&& self.ssm_dt@ == other.ssm_dt@
        &&& self.ssm_norm@ == other.ssm_norm@
        &&& self.convolution_history@ == other.convolution_history@
        &&& self.recurrent_state@ == other.recurrent_state@
    }

    /// Whether a copy of this execution allocates a list of a length.
    pub open spec fn copies_length(self, length: int) -> bool {
        ||| length == self.attention_norm@.len()
        ||| length == self.ssm_a@.len()
        ||| length == self.ssm_conv@.len()
        ||| length == self.ssm_dt@.len()
        ||| length == self.ssm_norm@.len()
        ||| length == self.convolution_history@.len()
        ||| length == self.recurrent_state@.len()
    }

    /// Whether the allocator refused one of the lists of a copy of this execution.
    pub open spec fn copy_refused(self, error: Error) -> bool {
        error matches Error::RecurrentAllocation { target, length, .. } && target
            == "recurrent transaction copy" && length > 0 && self.copies_length(length as int)
    }

    /// Copy the block's state for one transaction. Empty lists are always copied; the
    /// allocator may refuse any other.
    pub fn try_clone_for_transaction(&self) -> (copy: Result<Qwen35RecurrentExecution, Error>)
        ensures
            match copy {
                Ok(copy) => copy.copies(*self),
                Err(error) => self.copy_refused(error),
            },
    {
        Ok(
            Qwen35RecurrentExecution {
                block_index: self.block_index,
                layout: self.layout,
                attention_norm: copy_values(&self.attention_norm)?,
                ssm_a: copy_values(&self.ssm_a)?,
                ssm_conv: copy_values(&self.ssm_conv)?,
                ssm_dt: copy_values(&self.ssm_dt)?,
                ssm_norm: copy_values(&self.ssm_norm)?,
                convolution_history: copy_values(&self.convolution_history)?,
                recurrent_state: copy_values(&self.recurrent_state)?,
            },
        )
    }
}

/// Read a parameter of a block whose earlier parameters were read.
fn read_parameter(
    artifact: &VerifiedArtifact,
    layout: Qwen35RecurrentLayout,
    block_index: u64,
    index: usize,
    role: &'static str,
    dims: &[u64],
) -> (words: Result<Vec<u32>, Error>)
    requires
        0 <= index < 5,
        role == parameter_role(index as int),
        dims@ == parameter_dims(layout, index as int),
        parameters_read(*artifact, layout, block_index, index as int),
    ensures
        match words {
            Ok(words) => {
                &&& tensor_read(
                    *artifact,
                    parameter_name(block_index, index as int),
                    parameter_dims(layout, index as int),
                    words@,
                )
                &&& parameters_read(*artifact, layout, block_index, index + 1)
            },
            Err(error) => first_refused(*artifact, layout, block_index, index as int, error),
        },
{
    let words: Vec<u32> = read_f32_tensor(
        artifact,
        block_tensor_name(block_index, role).as_str(),
        dims,
    )?;
    assert(tensor_read(
        *artifact,
        parameter_name(block_index, index as int),
        parameter_dims(layout, index as int),
        words@,
    ));
    assert(parameter_readable(*artifact, layout, block_index, index as int));
    Ok(words)
}

fn copy_values(values: &Vec<u32>) -> (copy: Result<Vec<u32>, Error>)
    ensures
        match copy {
            Ok(copy) => copy@ == values@,
            Err(error) => error matches Error::RecurrentAllocation { target, length, .. } && target
                == "recurrent transaction copy" && length == values@.len() && length > 0,
        },
{
    let mut copy: Vec<u32> = reserve_f32("recurrent transaction copy", values.len())?;
    extend_window(&mut copy, values, 0, values.len());
    assert(copy@ =~= values@);
    Ok(copy)
}

fn zero_state(layout: ExecutionLayout) -> (state: Result<(Vec<u32>, Vec<u32>), Error>)
    ensures
        match state {
            Ok((history, recurrent)) => {
                &&& history@ == zeros(history_values(layout))
                &&& recurrent@ == zeros(state_values(layout))
            },
            Err(error) => zero_state_refused(layout, error),
        },
{
    let taps: usize = match layout.conv_kernel.checked_sub(1) {
        Some(taps) => taps,
        None => {
            return Err(
                Error::ArithmeticOverflow { context: "recurrent convolution kernel minus one" },
            );
        },
    };
    let history: usize = checked_product(
        layout.conv_width,
        taps,
        "recurrent convolution history",
    )?;
    let convolution_history = zeroed_f32("convolution history", history)?;
    let matrix: usize = checked_product(
        layout.key_dim,
        layout.value_dim,
        "recurrent GDN state head",
    )?;
    let state: usize = checked_product(layout.value_head_count, matrix, "recurrent GDN state")?;
    let recurrent_state = zeroed_f32("GDN state", state)?;
    assert(convolution_history@ =~= zeros(history_values(layout)));
    assert(recurrent_state@ =~= zeros(state_values(layout)));
    Ok((convolution_history, recurrent_state))
}

/// The values that a recurrent block retains: its five parameters, its convolution
/// history, and its recurrent state.
pub open spec fn retained_values(layout: ExecutionLayout) -> int {
    layout.hidden + 2 * layout.value_head_count + layout.value_dim + layout.conv_kernel
        * layout.conv_width + history_values(layout) + state_values(layout)
}

/// Why the retained values of a recurrent block cannot be counted, if they cannot.
pub open spec fn retained_failure(layout: ExecutionLayout) -> Option<Error> {
    if layout.conv_kernel == 0 {
        Some(Error::ArithmeticOverflow { context: "recurrent convolution kernel minus one" })
    } else if history_values(layout) > usize::MAX {
        Some(Error::ArithmeticOverflow { context: "recurrent convolution history" })
    } else if state_failure(layout) is Some {
        state_failure(layout)
    } else if layout.conv_kernel * layout.conv_width > usize::MAX {
        Some(Error::ArithmeticOverflow { context: "recurrent convolution parameter" })
    } else if retained_values(layout) > usize::MAX {
        Some(Error::ArithmeticOverflow { context: "recurrent retained values" })
    } else {
        None
    }
}

/// Count the values that a recurrent block retains.
pub fn retained_elements(layout: ExecutionLayout) -> (elements: Result<usize, Error>)
    ensures
        match elements {
            Ok(elements) => {
                &&& retained_failure(layout) is None
                &&& elements == retained_values(layout)
            },
            Err(error) => retained_failure(layout) == Some(error),
        },
{
    let taps: usize = match layout.conv_kernel.checked_sub(1) {
        Some(taps) => taps,
        None => {
            return Err(
                Error::ArithmeticOverflow { context: "recurrent convolution kernel minus one" },
            );
        },
    };
    let history: usize = checked_product(
        layout.conv_width,
        taps,
        "recurrent convolution history",
    )?;
    let matrix: usize = checked_product(
        layout.key_dim,
        layout.value_dim,
        "recurrent GDN state head",
    )?;
    let state: usize = checked_product(layout.value_head_count, matrix, "recurrent GDN state")?;
    let convolution: usize = checked_product(
        layout.conv_kernel,
        layout.conv_width,
        "recurrent convolution parameter",
    )?;
    let parts: [usize; 7] = [
        layout.hidden,
        layout.value_head_count,
        layout.value_head_count,
        layout.value_dim,
        convolution,
        history,
        state,
    ];
    proof {
        reveal_with_fuel(qwen35_execution::total, 8);
    }
    sum_elements(&parts, "recurrent retained values")
}

/// A constructed block retains as many values as its geometry says.
pub proof fn lemma_constructed_retains(
    artifact: VerifiedArtifact,
    layout: Qwen35RecurrentLayout,
    block_index: u64,
    execution: Qwen35RecurrentExecution,
)
    requires
        constructed(artifact, layout, block_index, execution),
        execution.layout.conv_kernel > 0,
    ensures
        execution.attention_norm.len() + execution.ssm_a.len() + execution.ssm_dt.len()
            + execution.ssm_norm.len() + execution.ssm_conv.len()
            + execution.convolution_history.len() + execution.recurrent_state.len()
            == retained_values(execution.layout),
{
    let host = execution.layout;
    reveal_with_fuel(parameter_elements, 3);
    assert(parameter_dims(layout, 0).drop_last() =~= Seq::<u64>::empty());
    assert(parameter_dims(layout, 1).drop_last() =~= Seq::<u64>::empty());
    assert(parameter_dims(layout, 2).drop_last() =~= Seq::<u64>::empty());
    assert(parameter_dims(layout, 3).drop_last() =~= Seq::<u64>::empty());
    assert(parameter_dims(layout, 4).drop_last() =~= seq![layout.conv_kernel]);
    assert(seq![layout.conv_kernel].drop_last() =~= Seq::<u64>::empty());
    assert(0 <= history_values(host) && 0 <= state_values(host)) by {
        assert(0 <= host.conv_width * (host.conv_kernel - 1)) by (nonlinear_arith)
            requires
                host.conv_kernel > 0,
        ;
        assert(0 <= host.key_dim * host.value_dim) by (nonlinear_arith);
        assert(0 <= host.value_head_count * (host.key_dim * host.value_dim)) by (nonlinear_arith)
            requires
                0 <= host.key_dim * host.value_dim,
        ;
    }
    assert(1 * layout.hidden == layout.hidden && 1 * layout.time_step_rank
        == layout.time_step_rank && 1 * layout.conv_kernel == layout.conv_kernel);
    assert(execution.attention_norm.len() == host.hidden);
    assert(execution.ssm_a.len() == host.value_head_count);
    assert(execution.ssm_dt.len() == host.value_head_count);
    assert(execution.ssm_norm.len() == host.value_dim);
    assert(execution.ssm_conv.len() == host.conv_kernel * host.conv_width);
    assert(execution.convolution_history@.len() == history_values(host));
    assert(execution.recurrent_state@.len() == state_values(host));
}

} // verus!
