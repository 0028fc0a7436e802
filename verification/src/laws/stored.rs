//! Laws of stored text, words, and matrices.

use crate::error::{Error, RowFault};
use crate::float_bits;
use crate::float_bits::{is_finite, is_positive_finite, is_zero};
use crate::gguf::{read_word, GgmlType, VerifiedArtifact, VerifiedTensor};
use crate::matrix::{collect_rows, CheckedMatrix, MatrixHeader, RowFormat};
use crate::payload::{find_parameter, read_words};
use crate::qwen35_execution::{block_name, read_f32};
use crate::text;
use crate::text::{decimal_text, numbered_name, parse_usize};
use vstd::prelude::*;

verus! {

/// The number that a text of digits is read as, from the left.
pub open spec fn read_digits(digits: Seq<char>) -> int {
    digits.fold_left(0int, |value: int, digit: char| 10 * value + (digit as int - '0' as int))
}

/// A numeral reads as its number, is made of digits alone, and has no leading zero
/// beyond the numeral of zero itself.
pub proof fn law_decimal(number: nat)
    ensures
        read_digits(text::decimal(number)) == number,
        text::decimal(number).len() > 0,
        forall|i: int|
            0 <= i < text::decimal(number).len() ==> '0' <= #[trigger] text::decimal(number)[i]
                <= '9',
        number > 0 ==> text::decimal(number)[0] != '0',
        number < 10 ==> text::decimal(number).len() == 1,
    decreases number,
{
    let digits = text::decimal(number);
    let step = |value: int, digit: char| 10 * value + (digit as int - '0' as int);
    reveal_with_fuel(Seq::fold_left, 2);
    if number < 10 {
        assert(digits.drop_last() =~= Seq::<char>::empty());
    } else {
        law_decimal(number / 10);
        assert(digits.drop_last() =~= text::decimal(number / 10));
        assert(digits[0] == text::decimal(number / 10)[0]);
    }
}

/// The written numeral of a number reads as that number.
pub proof fn law_numeral_is_written(number: u64, written: String)
    requires
        call_ensures(decimal_text, (number,), written),
    ensures
        read_digits(written@) == number,
        written@.len() > 0,
        forall|i: int| 0 <= i < written@.len() ==> '0' <= #[trigger] written@[i] <= '9',
        number > 0 ==> written@[0] != '0',
{
    law_decimal(number as nat);
}

/// Reading a written numeral gives back its number, with or without a plus sign.
pub proof fn law_numeral_is_read_back(
    number: u64,
    written: String,
    text: &str,
    read: Option<usize>,
)
    requires
        call_ensures(decimal_text, (number,), written),
        call_ensures(parse_usize, (text,), read),
        text@ == written@ || text@ == seq!['+'] + written@,
    ensures
        number <= usize::MAX ==> read == Some(number as usize),
{
    if number <= usize::MAX {
        text::lemma_decimal_parses(number as usize);
        text::lemma_decimal_digits(number as nat);
        assert('0' <= written@[0] <= '9');
        assert((seq!['+'] + written@).skip(1) =~= written@);
    }
}

/// A text is read as a number only where it holds digits alone, after at most one
/// plus sign, and at least one of them.
pub proof fn law_only_digits_are_read(text: &str, read: Option<usize>, i: int)
    requires
        call_ensures(parse_usize, (text,), read),
        0 <= i < text@.len(),
        !('0' <= text@[i] <= '9'),
        i > 0 || text@[0] != '+',
    ensures
        read is None,
{
    if text@[0] == '+' {
        assert(text@.skip(1)[i - 1] == text@[i]);
    }
}

/// The name of a block's tensor is `blk.`, the block's number, a dot, and the role.
pub proof fn law_block_tensor_names(
    block: usize,
    role: &str,
    name: String,
    index: u64,
    numbered: String,
)
    requires
        call_ensures(block_name, (block, role), name),
        call_ensures(numbered_name, (index, role), numbered),
    ensures
        name@ == "blk."@ + text::decimal(block as nat) + "."@ + role@,
        numbered@ == "blk."@ + text::decimal(index as nat) + "."@ + role@,
        name@ == numbered@ <==> block == index,
{
    if name@ == numbered@ {
        text::lemma_block_name_injective(block as nat, role@, index as nat, role@);
    }
}

/// Different blocks or different roles have different tensor names.
pub proof fn law_block_tensor_names_differ(
    block: usize,
    role: &str,
    name: String,
    other: usize,
    other_role: &str,
    other_name: String,
)
    requires
        call_ensures(block_name, (block, role), name),
        call_ensures(block_name, (other, other_role), other_name),
        block != other || role@ != other_role@,
    ensures
        name@ != other_name@,
{
    if name@ == other_name@ {
        text::lemma_block_name_injective(block as nat, role@, other as nat, other_role@);
    }
}

/// A word is its four bytes, the least significant first: each byte can be read off it.
pub proof fn law_words_are_little_endian(bytes: &[u8], i: usize, bits: u32)
    requires
        call_ensures(read_word, (bytes, i), bits),
        4 * i + 3 < bytes@.len(),
    ensures
        bits as int % 0x100 == bytes@[4 * i],
        bits as int / 0x100 % 0x100 == bytes@[4 * i + 1],
        bits as int / 0x1_0000 % 0x100 == bytes@[4 * i + 2],
        bits as int / 0x100_0000 == bytes@[4 * i + 3],
{
}

/// A tensor that is found has the name that was asked for, and no tensor before it has.
pub proof fn law_tensor_is_the_first_of_its_name(
    artifact: &VerifiedArtifact,
    name: &str,
    tensor: Option<VerifiedTensor<'_>>,
)
    requires
        call_ensures(VerifiedArtifact::tensor, (artifact, name), tensor),
    ensures
        tensor matches Some(tensor) ==> {
            &&& tensor.descriptor.name@ == name@
            &&& exists|i: int|
                0 <= i < artifact.spec_observation().tensors@.len()
                    && #[trigger] artifact.spec_observation().tensors@[i] == *tensor.descriptor
                    && artifact.spec_payloads()[i] == *tensor.bytes && forall|j: int|
                    0 <= j < i ==> (#[trigger] artifact.spec_observation().tensors@[j]).name@
                        != name@
        },
        tensor is None ==> forall|j: int|
            0 <= j < artifact.spec_observation().tensors@.len()
                ==> (#[trigger] artifact.spec_observation().tensors@[j]).name@ != name@,
{
}

/// The words of a tensor are all of its bytes, four to a word, in order.
pub proof fn law_words_are_all_bytes(
    tensor: VerifiedTensor<'_>,
    values: usize,
    context: &'static str,
    target: &'static str,
    words: Vec<u32>,
    i: int,
)
    requires
        call_ensures(
            read_words,
            (tensor, values, context, target),
            Ok::<Vec<u32>, Error>(words),
        ),
        0 <= i < values,
    ensures
        words@.len() == values,
        tensor.bytes@.len() == 4 * values,
        words@[i] as int % 0x100 == tensor.bytes@[4 * i],
        words@[i] as int / 0x100 % 0x100 == tensor.bytes@[4 * i + 1],
        words@[i] as int / 0x1_0000 % 0x100 == tensor.bytes@[4 * i + 2],
        words@[i] as int / 0x100_0000 == tensor.bytes@[4 * i + 3],
{
}

/// A parameter that is read is an `f32` tensor of the asked name and shape, every word
/// of it finite and taken from the artifact's bytes in order.
pub proof fn law_parameters_are_read_whole(
    artifact: &VerifiedArtifact,
    name: &str,
    dims: &[u64],
    planned: usize,
    values: Vec<u32>,
)
    requires
        call_ensures(read_f32, (artifact, name, dims, planned), Ok::<Vec<u32>, Error>(values)),
    ensures
        values@.len() == planned,
        exists|at: int|
            0 <= at < artifact.spec_observation().tensors@.len() && ({
                let tensor = #[trigger] artifact.spec_observation().tensors@[at];
                let bytes = artifact.spec_payloads()[at]@;
                &&& tensor.name@ == name@
                &&& tensor.ggml_type == GgmlType::F32
                &&& tensor.dims@ == dims@
                &&& bytes.len() == 4 * values@.len()
                &&& forall|i: int|
                    0 <= i < values@.len() ==> #[trigger] values@[i] == bytes[4 * i] + 0x100
                        * bytes[4 * i + 1] + 0x1_0000 * bytes[4 * i + 2] + 0x100_0000 * bytes[4 * i
                        + 3]
            }),
        forall|i: int|
            0 <= i < values@.len() ==> #[trigger] values@[i] & 0x7f80_0000u32 != 0x7f80_0000u32,
{
    assert forall|i: int| 0 <= i < values@.len() implies #[trigger] values@[i] & 0x7f80_0000u32
        != 0x7f80_0000u32 by {
        float_bits::lemma_finite_exponent(values@[i]);
    }
}

/// A tensor found as a parameter is stored as `f32` with the asked shape.
pub proof fn law_parameter_is_found(
    artifact: &VerifiedArtifact,
    name: &str,
    dims: &[u64],
    tensor: VerifiedTensor<'_>,
)
    requires
        call_ensures(find_parameter, (artifact, name, dims), Ok::<VerifiedTensor<'_>, Error>(tensor)),
    ensures
        tensor.descriptor.name@ == name@,
        tensor.descriptor.ggml_type == GgmlType::F32,
        tensor.descriptor.dims@ == dims@,
{
}

/// A matrix is applied to rows of its first dimension and gives rows of its second.
pub proof fn law_matrix_widths(
    artifact: &VerifiedArtifact,
    name: &str,
    header: MatrixHeader<'_>,
)
    requires
        call_ensures(
            MatrixHeader::from_payload,
            (artifact, name),
            Ok::<MatrixHeader<'_>, Error>(header),
        ),
    ensures
        header.tensor.descriptor.name@ == name@,
        header.tensor.descriptor.dims@
            == seq![header.input_width as u64, header.output_width as u64],
        !(header.tensor.descriptor.ggml_type is Other),
        header.tensor.descriptor.ggml_type == GgmlType::F32 <==> header.format == RowFormat::F32,
        header.tensor.descriptor.ggml_type == GgmlType::Q8_0 <==> header.format == RowFormat::Q8_0,
        header.tensor.descriptor.ggml_type == GgmlType::Q4K <==> header.format == RowFormat::Q4K,
        header.tensor.descriptor.ggml_type == GgmlType::Q5K <==> header.format == RowFormat::Q5K,
        header.tensor.descriptor.ggml_type == GgmlType::Q6K <==> header.format == RowFormat::Q6K,
        header.tensor.descriptor.ggml_type == GgmlType::IQ4NL <==> header.format
            == RowFormat::IQ4NL,
        header.tensor.descriptor.ggml_type == GgmlType::IQ4XS <==> header.format
            == RowFormat::IQ4XS,
{
    assert(header.tensor.descriptor.dims@ =~= seq![
        header.input_width as u64,
        header.output_width as u64,
    ]);
}

/// The rows of a matrix are its bytes cut into as many equal pieces as it has outputs:
/// byte `j` of row `r` is byte `r * length + j` of the tensor.
pub proof fn law_matrix_rows(
    header: MatrixHeader<'_>,
    row_byte_len: usize,
    matrix: CheckedMatrix<'_>,
    lent: &CheckedMatrix<'_>,
    row: usize,
    bytes: &[u8],
    j: int,
)
    requires
        call_ensures(
            MatrixHeader::with_row_bytes,
            (header, Some(row_byte_len)),
            Ok::<CheckedMatrix<'_>, Error>(matrix),
        ),
        *lent == matrix,
        call_ensures(CheckedMatrix::row_bytes, (lent, row), Ok::<&[u8], Error>(bytes)),
        0 <= j < row_byte_len,
    ensures
        row < header.output_width,
        header.tensor.bytes@.len() == header.output_width * row_byte_len,
        bytes@.len() == row_byte_len,
        bytes@[j] == header.tensor.bytes@[row * row_byte_len + j],
{
    let outputs = header.output_width as int;
    assert(0 <= row * row_byte_len && (row + 1) * row_byte_len <= outputs * row_byte_len)
        by (nonlinear_arith)
        requires
            row + 1 <= outputs,
    ;
    assert((row + 1) * row_byte_len == row * row_byte_len + row_byte_len) by (nonlinear_arith);
}

/// A projection takes a row of the matrix's input width and gives the value of every
/// output row in order; it is refused for any other width.
pub proof fn law_matrix_projects<T: Copy>(
    matrix: &CheckedMatrix<'_>,
    activations: usize,
    rows: &[Result<T, RowFault>],
    output: Result<Vec<T>, Error>,
)
    requires
        call_ensures(CheckedMatrix::project::<T>, (matrix, activations, rows), output),
        rows@.len() == matrix.header.output_width,
    ensures
        output is Ok ==> activations == matrix.header.input_width,
        output matches Ok(output) ==> output@.len() == matrix.header.output_width && forall|i: int|
            0 <= i < output@.len() ==> Ok::<T, RowFault>(#[trigger] output@[i]) == rows@[i],
{
}

/// Collected rows keep their order, and the first row without a value refuses.
pub proof fn law_rows_are_collected<T: Copy>(
    rows: &[Result<T, RowFault>],
    storage: Vec<T>,
    output: Result<Vec<T>, (usize, RowFault)>,
)
    requires
        call_ensures(collect_rows::<T>, (rows, storage), output),
    ensures
        output is Ok <==> forall|i: int| 0 <= i < rows@.len() ==> #[trigger] rows@[i] is Ok,
        output matches Err((row, fault)) ==> row < rows@.len() && rows@[row as int] == Err::<
            T,
            RowFault,
        >(fault) && forall|i: int| 0 <= i < row ==> #[trigger] rows@[i] is Ok,
{
    if output is Ok {
        assert forall|i: int| 0 <= i < rows@.len() implies #[trigger] rows@[i] is Ok by {
            assert(rows@[i] == Ok::<T, RowFault>(output->Ok_0@[i]));
        }
    }
}

/// A number is finite where its exponent bits are not all ones, positive where it also
/// has no sign bit and is no zero, and zero where nothing but its sign bit may be set.
pub proof fn law_float_bits(bits: u32, finite: bool, positive: bool, zero: bool)
    requires
        call_ensures(is_finite, (bits,), finite),
        call_ensures(is_positive_finite, (bits,), positive),
        call_ensures(is_zero, (bits,), zero),
    ensures
        finite <==> bits & 0x7f80_0000u32 != 0x7f80_0000u32,
        zero <==> bits & 0x7fff_ffffu32 == 0,
        positive <==> finite && !zero && bits & 0x8000_0000u32 == 0,
{
    float_bits::lemma_finite_exponent(bits);
    assert((bits & 0x7fff_ffffu32 == 0) == (bits == 0 || bits == 0x8000_0000u32)) by (bit_vector);
    assert((bits & 0x8000_0000u32 == 0) == (bits < 0x8000_0000u32)) by (bit_vector);
}

} // verus!
