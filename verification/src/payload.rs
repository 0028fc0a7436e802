//! Reading verified `f32` parameters as bit patterns.

use crate::allocation::reserve;
use crate::error::{Error, RowFault};
use crate::gguf;
use crate::gguf::{read_word, GgmlType, VerifiedArtifact, VerifiedTensor};
use crate::qwen35_inventory::{copy_dims, same_dims};
use vstd::prelude::*;

verus! {

/// Whether a tensor is the first of its name in an artifact.
pub open spec fn found(artifact: VerifiedArtifact, name: Seq<char>, tensor: VerifiedTensor<'_>) -> bool {
    exists|i: int|
        {
            &&& #[trigger] gguf::first_named(artifact.spec_observation().tensors@, name, i)
            &&& i < artifact.spec_payloads().len()
            &&& *tensor.descriptor == artifact.spec_observation().tensors@[i]
            &&& *tensor.bytes == artifact.spec_payloads()[i]
        }
}

/// Whether a parameter is refused before its bytes are read: it is missing, not
/// stored as `f32`, or of another shape.
pub open spec fn parameter_refused(
    artifact: VerifiedArtifact,
    name: Seq<char>,
    dims: Seq<u64>,
    error: Error,
) -> bool {
    ||| {
        &&& gguf::unnamed(artifact.spec_observation().tensors@, name)
        &&& error matches Error::PayloadTensor { name: missing } && missing@ == name
    }
    ||| exists|tensor: VerifiedTensor<'_>| #[trigger]
        found(artifact, name, tensor) && if tensor.descriptor.ggml_type != GgmlType::F32 {
            error matches Error::ProjectionDtype { name: named, actual } && named@ == name
                && actual == tensor.descriptor.ggml_type
        } else {
            &&& tensor.descriptor.dims@ != dims
            &&& error matches Error::TensorShape { name: named, expected, actual }
            &&& named@ == name
            &&& expected@ == dims
            &&& actual@ == tensor.descriptor.dims@
        }
}

/// Find an `f32` parameter of a known shape.
pub fn find_parameter<'artifact>(
    artifact: &'artifact VerifiedArtifact,
    name: &str,
    expected_dims: &[u64],
) -> (tensor: Result<VerifiedTensor<'artifact>, Error>)
    ensures
        match tensor {
            Ok(tensor) => {
                &&& found(*artifact, name@, tensor)
                &&& tensor.descriptor.ggml_type == GgmlType::F32
                &&& tensor.descriptor.dims@ == expected_dims@
                &&& tensor.descriptor.name@ == name@
            },
            Err(error) => parameter_refused(*artifact, name@, expected_dims@, error),
        },
{
    let tensor = match artifact.tensor(name) {
        Some(tensor) => tensor,
        None => {
            return Err(Error::PayloadTensor { name: name.to_owned() });
        },
    };
    assert(found(*artifact, name@, tensor));
    if tensor.descriptor.ggml_type != GgmlType::F32 {
        return Err(
            Error::ProjectionDtype {
                name: tensor.descriptor.name.clone(),
                actual: tensor.descriptor.ggml_type,
            },
        );
    }
    if !same_dims(&tensor.descriptor.dims, expected_dims) {
        return Err(
            Error::TensorShape {
                name: tensor.descriptor.name.clone(),
                expected: copy_dims(expected_dims),
                actual: copy_dims(&tensor.descriptor.dims),
            },
        );
    }
    Ok(tensor)
}

/// Whether the bytes of a parameter are refused: they are no whole number of
/// words, or not as many words as the shape has elements.
pub open spec fn words_refused(
    tensor: VerifiedTensor<'_>,
    values: usize,
    context: &'static str,
    error: Error,
) -> bool {
    let length = tensor.bytes@.len();
    if length % 4 != 0 {
        &&& error matches Error::ProjectionRow { name, row, source }
        &&& name@ == tensor.descriptor.name@
        &&& row == 0
        &&& source == RowFault::Unreadable
    } else {
        &&& length != 4 * values
        &&& if 4 * values > usize::MAX {
            error == (Error::ArithmeticOverflow { context })
        } else {
            error matches Error::ProjectionBytes { name, expected, actual } && name@
                == tensor.descriptor.name@ && expected == 4 * values && actual == length
        }
    }
}

/// Whether a list holds the words of a byte string.
pub open spec fn words_of(bytes: Seq<u8>, words: Seq<u32>) -> bool {
    &&& bytes.len() == 4 * words.len()
    &&& forall|i: int| 0 <= i < words.len() ==> #[trigger] words[i] == gguf::word(bytes, i)
}

/// Read the words of a parameter of `values` elements.
pub fn read_words(
    tensor: VerifiedTensor<'_>,
    values: usize,
    context: &'static str,
    target: &'static str,
) -> (words: Result<Vec<u32>, Error>)
    ensures
        match words {
            Ok(words) => words@.len() == values && words_of(tensor.bytes@, words@),
            Err(error) => {
                ||| words_refused(tensor, values, context, error)
                ||| {
                    &&& tensor.bytes@.len() == 4 * values > 0
                    &&& error.execution_allocation(target, values)
                }
            },
        },
{
    check_words(tensor, values, context)?;
    let words: Vec<u32> = reserve(target, values)?;
    Ok(read_into(tensor.bytes, values, words))
}

/// Require a parameter to hold exactly `values` words.
pub fn check_words(
    tensor: VerifiedTensor<'_>,
    values: usize,
    context: &'static str,
) -> (checked: Result<(), Error>)
    ensures
        match checked {
            Ok(_) => tensor.bytes@.len() == 4 * values,
            Err(error) => {
                &&& tensor.bytes@.len() != 4 * values
                &&& words_refused(tensor, values, context, error)
            },
        },
{
    let length: usize = tensor.bytes.len();
    if length % 4 != 0 {
        return Err(
            Error::ProjectionRow {
                name: tensor.descriptor.name.clone(),
                row: 0,
                source: RowFault::Unreadable,
            },
        );
    }
    if length / 4 != values {
        let expected: usize = match values.checked_mul(4) {
            Some(expected) => expected,
            None => {
                return Err(Error::ArithmeticOverflow { context });
            },
        };
        return Err(
            Error::ProjectionBytes {
                name: tensor.descriptor.name.clone(),
                expected,
                actual: length,
            },
        );
    }
    Ok(())
}

/// Read the words of a byte string into an empty list.
pub fn read_into(bytes: &[u8], values: usize, words: Vec<u32>) -> (read: Vec<u32>)
    requires
        bytes@.len() == 4 * values,
        words@.len() == 0,
    ensures
        words_of(bytes@, read@),
{
    let mut words: Vec<u32> = words;
    let mut i: usize = 0;
    while i < values
        invariant
            0 <= i <= values,
            bytes@.len() == 4 * values,
            words@.len() == i,
            forall|j: int|
                0 <= j < words@.len() ==> #[trigger] words@[j] == gguf::word(bytes@, j),
        decreases values - i,
    {
        words.push(read_word(bytes, i));
        i = i + 1;
    }
    words
}

} // verus!
