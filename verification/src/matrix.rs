//! Checked matrix access to verified payloads.
//!
//! A matrix is admitted in two steps: its header names the storage format and
//! the widths, and the serialized length of one row, which the format's row
//! reader knows, completes it.

use crate::allocation::{allocate, projection_room};
use crate::error::{Error, RowFault};
use crate::gguf;
use crate::gguf::{GgmlType, VerifiedArtifact, VerifiedTensor};
use crate::payload;
use vstd::prelude::*;
use vstd::slice::slice_subrange;

verus! {

/// Storage formats that a row reader accepts.
#[derive(Clone, Copy, Debug, PartialEq, Eq, Structural)]
pub enum RowFormat {
    F32,
    Q8_0,
    Q4K,
    Q5K,
    Q6K,
    IQ4NL,
    IQ4XS,
}

/// The row format of a storage type, if a row reader accepts it.
pub open spec fn format_of(ggml_type: GgmlType) -> Option<RowFormat> {
    match ggml_type {
        GgmlType::F32 => Some(RowFormat::F32),
        GgmlType::Q8_0 => Some(RowFormat::Q8_0),
        GgmlType::Q4K => Some(RowFormat::Q4K),
        GgmlType::Q5K => Some(RowFormat::Q5K),
        GgmlType::Q6K => Some(RowFormat::Q6K),
        GgmlType::IQ4NL => Some(RowFormat::IQ4NL),
        GgmlType::IQ4XS => Some(RowFormat::IQ4XS),
        GgmlType::Other(_) => None,
    }
}

/// Return the row format of a storage type, if a row reader accepts it.
pub fn row_format(ggml_type: GgmlType) -> (format: Option<RowFormat>)
    ensures
        format == format_of(ggml_type),
{
    match ggml_type {
        GgmlType::F32 => Some(RowFormat::F32),
        GgmlType::Q8_0 => Some(RowFormat::Q8_0),
        GgmlType::Q4K => Some(RowFormat::Q4K),
        GgmlType::Q5K => Some(RowFormat::Q5K),
        GgmlType::Q6K => Some(RowFormat::Q6K),
        GgmlType::IQ4NL => Some(RowFormat::IQ4NL),
        GgmlType::IQ4XS => Some(RowFormat::IQ4XS),
        GgmlType::Other(_) => None,
    }
}

/// The format and widths of a stored matrix.
#[derive(Clone, Copy, Debug)]
pub struct MatrixHeader<'artifact> {
    pub tensor: VerifiedTensor<'artifact>,
    pub format: RowFormat,
    pub input_width: usize,
    pub output_width: usize,
}

/// Whether a matrix header is refused with an error: the tensor must exist, have
/// two dimensions, a readable storage type, and host-sized widths.
pub open spec fn header_refused(
    artifact: VerifiedArtifact,
    name: Seq<char>,
    error: Error,
) -> bool {
    ||| {
        &&& gguf::unnamed(artifact.spec_observation().tensors@, name)
        &&& error matches Error::PayloadTensor { name: missing } && missing@ == name
    }
    ||| exists|tensor: VerifiedTensor<'_>| #[trigger]
        payload::found(artifact, name, tensor) && {
            let dims = tensor.descriptor.dims@;
            if dims.len() != 2 {
                error matches Error::ProjectionRank { name: named, actual } && named@ == name
                    && actual == dims.len()
            } else if format_of(tensor.descriptor.ggml_type) is None {
                error matches Error::ProjectionDtype { name: named, actual } && named@ == name
                    && actual == tensor.descriptor.ggml_type
            } else if dims[0] > usize::MAX {
                error == (Error::ArithmeticOverflow { context: "row projection input width" })
            } else {
                &&& dims[1] > usize::MAX
                &&& error == (Error::ArithmeticOverflow { context: "row projection output width" })
            }
        }
}

impl<'artifact> MatrixHeader<'artifact> {
    /// Read the header of a stored matrix.
    pub fn from_payload(artifact: &'artifact VerifiedArtifact, name: &str) -> (header: Result<
        MatrixHeader<'artifact>,
        Error,
    >)
        ensures
            match header {
                Ok(header) => {
                    &&& payload::found(*artifact, name@, header.tensor)
                    &&& header.tensor.descriptor.name@ == name@
                    &&& header.tensor.descriptor.dims@.len() == 2
                    &&& format_of(header.tensor.descriptor.ggml_type) == Some(header.format)
                    &&& header.input_width == header.tensor.descriptor.dims@[0]
                    &&& header.output_width == header.tensor.descriptor.dims@[1]
                },
                Err(error) => header_refused(*artifact, name@, error),
            },
    {
        let tensor = match artifact.tensor(name) {
            Some(tensor) => tensor,
            None => {
                return Err(Error::PayloadTensor { name: name.to_owned() });
            },
        };
        assert(payload::found(*artifact, name@, tensor));
        if tensor.descriptor.dims.len() != 2 {
            return Err(
                Error::ProjectionRank {
                    name: tensor.descriptor.name.clone(),
                    actual: tensor.descriptor.dims.len(),
                },
            );
        }
        let format = match row_format(tensor.descriptor.ggml_type) {
            Some(format) => format,
            None => {
                return Err(
                    Error::ProjectionDtype {
                        name: tensor.descriptor.name.clone(),
                        actual: tensor.descriptor.ggml_type,
                    },
                );
            },
        };
        let input_width: usize = match usize::try_from(tensor.descriptor.dims[0]) {
            Ok(width) => width,
            Err(_) => {
                return Err(Error::ArithmeticOverflow { context: "row projection input width" });
            },
        };
        let output_width: usize = match usize::try_from(tensor.descriptor.dims[1]) {
            Ok(width) => width,
            Err(_) => {
                return Err(Error::ArithmeticOverflow { context: "row projection output width" });
            },
        };
        Ok(MatrixHeader { tensor, format, input_width, output_width })
    }

    /// Complete a matrix with the serialized length of one row; without one, the
    /// row has no layout in its format.
    pub fn with_row_bytes(self, row_byte_len: Option<usize>) -> (matrix: Result<
        CheckedMatrix<'artifact>,
        Error,
    >)
        ensures
            match matrix {
                Ok(matrix) => {
                    &&& row_byte_len == Some(matrix.row_byte_len)
                    &&& matrix.header == self
                    &&& matrix.wf()
                },
                Err(error) => match row_byte_len {
                    None => error matches Error::ProjectionLayout { name } && name@
                        == self.tensor.descriptor.name@,
                    Some(row) => if self.output_width * row > usize::MAX {
                        error == (Error::ArithmeticOverflow {
                            context: "row projection payload byte length",
                        })
                    } else {
                        &&& self.tensor.bytes@.len() != self.output_width * row
                        &&& error matches Error::ProjectionBytes { name, expected, actual }
                        &&& name@ == self.tensor.descriptor.name@
                        &&& expected == self.output_width * row
                        &&& actual == self.tensor.bytes@.len()
                    },
                },
            },
    {
        let row_byte_len: usize = match row_byte_len {
            Some(length) => length,
            None => {
                return Err(
                    Error::ProjectionLayout { name: self.tensor.descriptor.name.clone() },
                );
            },
        };
        let expected: usize = match self.output_width.checked_mul(row_byte_len) {
            Some(expected) => expected,
            None => {
                return Err(
                    Error::ArithmeticOverflow { context: "row projection payload byte length" },
                );
            },
        };
        let actual: usize = self.tensor.bytes.len();
        if actual != expected {
            return Err(
                Error::ProjectionBytes {
                    name: self.tensor.descriptor.name.clone(),
                    expected,
                    actual,
                },
            );
        }
        Ok(CheckedMatrix { header: self, row_byte_len })
    }
}

/// A stored matrix whose bytes are exactly its rows.
#[derive(Clone, Copy, Debug)]
pub struct CheckedMatrix<'artifact> {
    pub header: MatrixHeader<'artifact>,
    pub row_byte_len: usize,
}

impl<'artifact> CheckedMatrix<'artifact> {
    /// Whether the bytes are exactly the rows.
    pub open spec fn wf(self) -> bool {
        self.header.tensor.bytes@.len() == self.header.output_width * self.row_byte_len
    }

    /// The serialized bytes of a row.
    pub open spec fn row_spec(self, row: int) -> Seq<u8> {
        self.header.tensor.bytes@.subrange(
            row * self.row_byte_len,
            row * self.row_byte_len + self.row_byte_len,
        )
    }

    /// Return the number of values of a projection.
    pub fn projection_output_elements(output_width: usize) -> (elements: usize)
        ensures
            elements == output_width,
    {
        output_width
    }

    /// Return the number of values of a decoded row.
    pub fn decoded_row_elements(input_width: usize) -> (elements: usize)
        ensures
            elements == input_width,
    {
        input_width
    }

    /// Borrow the serialized bytes of a row.
    pub fn row_bytes(&self, row: usize) -> (bytes: Result<&'artifact [u8], Error>)
        requires
            self.wf(),
        ensures
            match bytes {
                Ok(bytes) => row < self.header.output_width && bytes@ == self.row_spec(
                    row as int,
                ),
                Err(error) => {
                    &&& row >= self.header.output_width
                    &&& error matches Error::ProjectionInputWidth { name, expected, actual }
                    &&& name@ == self.header.tensor.descriptor.name@
                    &&& expected == self.header.output_width
                    &&& actual == row
                },
            },
    {
        if row >= self.header.output_width {
            return Err(
                Error::ProjectionInputWidth {
                    name: self.header.tensor.descriptor.name.clone(),
                    expected: self.header.output_width,
                    actual: row,
                },
            );
        }
        let length: usize = self.header.tensor.bytes.len();
        proof {
            let width = self.row_byte_len as int;
            let rows = self.header.output_width as int;
            assert(0 <= row * width && row * width + width <= rows * width) by (nonlinear_arith)
                requires
                    row + 1 <= rows,
                    0 <= row,
                    0 <= width,
            ;
        }
        let start: usize = row * self.row_byte_len;
        let end: usize = start + self.row_byte_len;
        Ok(slice_subrange(self.header.tensor.bytes.as_slice(), start, end))
    }

    /// Take the decoded values of a row, or hand on why it has none.
    pub fn decode_row<T>(&self, row: usize, decoded: Result<Vec<T>, RowFault>) -> (values: Result<
        Vec<T>,
        Error,
    >)
        ensures
            match values {
                Ok(values) => row < self.header.output_width && decoded == Ok::<Vec<T>, RowFault>(
                    values,
                ),
                Err(error) => if row >= self.header.output_width {
                    &&& error matches Error::ProjectionInputWidth { name, expected, actual }
                    &&& name@ == self.header.tensor.descriptor.name@
                    &&& expected == self.header.output_width
                    &&& actual == row
                } else {
                    &&& decoded matches Err(fault)
                    &&& error matches Error::ProjectionRow { name, row: unread, source }
                    &&& name@ == self.header.tensor.descriptor.name@
                    &&& unread == row
                    &&& source == fault
                },
            },
    {
        if row >= self.header.output_width {
            return Err(
                Error::ProjectionInputWidth {
                    name: self.header.tensor.descriptor.name.clone(),
                    expected: self.header.output_width,
                    actual: row,
                },
            );
        }
        match decoded {
            Ok(values) => Ok(values),
            Err(source) => Err(
                Error::ProjectionRow {
                    name: self.header.tensor.descriptor.name.clone(),
                    row,
                    source,
                },
            ),
        }
    }

    /// Whether a projection is refused with an error before its rows are collected.
    pub open spec fn projection_refused(self, activations: int, error: Error) -> bool {
        ||| {
            &&& activations != self.header.input_width
            &&& error matches Error::ProjectionInputWidth { name, expected, actual }
            &&& name@ == self.header.tensor.descriptor.name@
            &&& expected == self.header.input_width
            &&& actual == activations
        }
        ||| {
            &&& activations == self.header.input_width
            &&& self.header.output_width > 0
            &&& error matches Error::ProjectionAllocation { name, output_width, .. }
            &&& name@ == self.header.tensor.descriptor.name@
            &&& output_width == self.header.output_width
        }
    }

    /// Collect a projection of `activations` values from the dot product of every
    /// row; a row that cannot be read refuses.
    pub fn project<T: Copy>(&self, activations: usize, rows: &[Result<T, RowFault>]) -> (output:
        Result<Vec<T>, Error>)
        requires
            rows@.len() == self.header.output_width,
        ensures
            match output {
                Ok(output) => {
                    &&& activations == self.header.input_width
                    &&& output@.len() == rows@.len()
                    &&& forall|i: int|
                        0 <= i < rows@.len() ==> rows@[i] == Ok::<T, RowFault>(
                            #[trigger] output@[i],
                        )
                },
                Err(error) => {
                    ||| self.projection_refused(activations as int, error)
                    ||| {
                        &&& activations == self.header.input_width
                        &&& error matches Error::ProjectionRow { name, row, source }
                        &&& name@ == self.header.tensor.descriptor.name@
                        &&& first_unread(rows@, row as int, source)
                    }
                },
            },
    {
        if activations != self.header.input_width {
            return Err(
                Error::ProjectionInputWidth {
                    name: self.header.tensor.descriptor.name.clone(),
                    expected: self.header.input_width,
                    actual: activations,
                },
            );
        }
        let length: usize = Self::projection_output_elements(self.header.output_width);
        let storage: Vec<T> = projection_room(
            allocate(length),
            &self.header.tensor.descriptor.name,
            self.header.output_width,
        )?;
        match collect_rows(rows, storage) {
            Ok(output) => Ok(output),
            Err((row, source)) => Err(
                Error::ProjectionRow {
                    name: self.header.tensor.descriptor.name.clone(),
                    row,
                    source,
                },
            ),
        }
    }
}

/// Whether `row` is the first row without a value, for a reason.
pub open spec fn first_unread<T>(
    rows: Seq<Result<T, RowFault>>,
    row: int,
    fault: RowFault,
) -> bool {
    &&& 0 <= row < rows.len()
    &&& rows[row] == Err::<T, RowFault>(fault)
    &&& forall|i: int| 0 <= i < row ==> #[trigger] rows[i] is Ok
}

/// Collect the value of every row into an empty list, or name the first row
/// without one and its reason.
pub fn collect_rows<T: Copy>(rows: &[Result<T, RowFault>], storage: Vec<T>) -> (output: Result<
    Vec<T>,
    (usize, RowFault),
>)
    requires
        storage@.len() == 0,
    ensures
        match output {
            Ok(output) => {
                &&& output@.len() == rows@.len()
                &&& forall|i: int|
                    0 <= i < rows@.len() ==> rows@[i] == Ok::<T, RowFault>(#[trigger] output@[i])
            },
            Err((row, fault)) => first_unread(rows@, row as int, fault),
        },
{
    let mut output: Vec<T> = storage;
    let mut row: usize = 0;
    while row < rows.len()
        invariant
            0 <= row <= rows.len(),
            output@.len() == row,
            forall|i: int| 0 <= i < row ==> rows@[i] == Ok::<T, RowFault>(#[trigger] output@[i]),
            forall|i: int| 0 <= i < row ==> #[trigger] rows@[i] is Ok,
        decreases rows.len() - row,
    {
        match rows[row] {
            Ok(value) => output.push(value),
            Err(fault) => {
                return Err((row, fault));
            },
        }
        row = row + 1;
    }
    Ok(output)
}

} // verus!
