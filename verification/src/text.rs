//! Text helpers: equality, decimal numerals, and block tensor names.

use vstd::prelude::*;
use vstd::string::{StrSliceExecFns, StringExecFns};

verus! {

/// Report whether two texts hold the same characters.
pub fn same_text(left: &str, right: &str) -> (same: bool)
    ensures
        same == (left@ == right@),
{
    left.to_owned() == right.to_owned()
}

/// The decimal digit of a number below ten.
pub open spec fn digit_char(digit: nat) -> char {
    (48 + digit) as u8 as char
}

/// The decimal numeral of a number, most significant digit first.
pub open spec fn decimal(number: nat) -> Seq<char>
    decreases number,
{
    if number < 10 {
        seq![digit_char(number)]
    } else {
        decimal(number / 10).push(digit_char(number % 10))
    }
}

/// Whether every character is a decimal digit.
pub open spec fn all_digits(text: Seq<char>) -> bool {
    forall|i: int| 0 <= i < text.len() ==> '0' <= #[trigger] text[i] <= '9'
}

/// The name of a role's tensor in a numbered block: `blk.{block}.{role}`.
pub open spec fn block_name_spec(block: nat, role: Seq<char>) -> Seq<char> {
    "blk."@ + decimal(block) + "."@ + role
}

/// A numeral has at least one character, and all of them are digits.
pub proof fn lemma_decimal_digits(number: nat)
    ensures
        decimal(number).len() > 0,
        all_digits(decimal(number)),
    decreases number,
{
    if number >= 10 {
        lemma_decimal_digits(number / 10);
    }
}

/// Different numbers have different numerals.
pub proof fn lemma_decimal_injective(left: nat, right: nat)
    requires
        decimal(left) == decimal(right),
    ensures
        left == right,
    decreases left,
{
    lemma_decimal_digits(left / 10);
    lemma_decimal_digits(right / 10);
    assert(decimal(left).last() == digit_char(left % 10));
    assert(decimal(right).last() == digit_char(right % 10));
    assert(digit_char(left % 10) == digit_char(right % 10) ==> left % 10 == right % 10);
    if left >= 10 {
        assert(decimal(left).drop_last() =~= decimal(left / 10));
        assert(right >= 10) by {
            assert(decimal(left).len() >= 2);
        }
        assert(decimal(right).drop_last() =~= decimal(right / 10));
        lemma_decimal_injective(left / 10, right / 10);
    } else {
        assert(decimal(left).len() == 1);
        assert(right < 10) by {
            if right >= 10 {
                assert(decimal(right).len() >= 2);
            }
        }
    }
}

/// A block tensor name determines both its block and its role.
pub proof fn lemma_block_name_injective(
    left: nat,
    left_role: Seq<char>,
    right: nat,
    right_role: Seq<char>,
)
    requires
        block_name_spec(left, left_role) == block_name_spec(right, right_role),
    ensures
        left == right,
        left_role == right_role,
{
    reveal_strlit("blk.");
    reveal_strlit(".");
    lemma_decimal_digits(left);
    lemma_decimal_digits(right);
    let a = decimal(left);
    let b = decimal(right);
    let name = block_name_spec(left, left_role);
    let other = block_name_spec(right, right_role);
    assert(name[4 + a.len() as int] == '.');
    assert(other[4 + b.len() as int] == '.');
    assert forall|i: int| 0 <= i < a.len() implies #[trigger] name[4 + i] == a[i] by {}
    assert forall|i: int| 0 <= i < b.len() implies #[trigger] other[4 + i] == b[i] by {}
    if a.len() < b.len() {
        assert(other[4 + a.len() as int] == b[a.len() as int]);
    }
    if b.len() < a.len() {
        assert(name[4 + b.len() as int] == a[b.len() as int]);
    }
    assert(a =~= b) by {
        assert forall|i: int| 0 <= i < a.len() implies a[i] == b[i] by {
            assert(name[4 + i] == a[i]);
            assert(other[4 + i] == b[i]);
        }
    }
    lemma_decimal_injective(left, right);
    assert(left_role =~= name.subrange(5 + a.len() as int, name.len() as int));
    assert(right_role =~= other.subrange(5 + b.len() as int, other.len() as int));
}

fn digit_text(digit: u64) -> (text: &'static str)
    requires
        digit < 10,
    ensures
        text@ == seq![digit_char(digit as nat)],
{
    proof {
        reveal_strlit("0");
        reveal_strlit("1");
        reveal_strlit("2");
        reveal_strlit("3");
        reveal_strlit("4");
        reveal_strlit("5");
        reveal_strlit("6");
        reveal_strlit("7");
        reveal_strlit("8");
        reveal_strlit("9");
    }
    match digit {
        0 => "0",
        1 => "1",
        2 => "2",
        3 => "3",
        4 => "4",
        5 => "5",
        6 => "6",
        7 => "7",
        8 => "8",
        _ => "9",
    }
}

/// Write a number as a decimal numeral.
pub fn decimal_text(number: u64) -> (text: String)
    ensures
        text@ == decimal(number as nat),
    decreases number,
{
    if number < 10 {
        digit_text(number).to_owned()
    } else {
        let mut text = decimal_text(number / 10);
        text.append(digit_text(number % 10));
        proof {
            assert(text@ =~= decimal(number as nat));
        }
        text
    }
}

/// Name the tensor of `role` in block `block_index`.
pub fn numbered_name(block_index: u64, role: &str) -> (name: String)
    ensures
        name@ == block_name_spec(block_index as nat, role@),
{
    let mut name = "blk.".to_owned();
    name.append(decimal_text(block_index).as_str());
    name.append(".");
    name.append(role);
    name
}

/// The number that a string of digits denotes.
pub open spec fn digits_value(digits: Seq<char>) -> nat
    decreases digits.len(),
{
    if digits.len() == 0 {
        0
    } else {
        10 * digits_value(digits.drop_last()) + (digits.last() as nat - 48) as nat
    }
}

/// A text without its leading plus sign.
pub open spec fn unsigned_digits(text: Seq<char>) -> Seq<char> {
    if text.len() > 0 && text[0] == '+' {
        text.skip(1)
    } else {
        text
    }
}

/// The host-sized number that a text denotes: an optional plus sign, then at
/// least one decimal digit and nothing else.
pub open spec fn parsed_usize(text: Seq<char>) -> Option<usize> {
    let digits = unsigned_digits(text);
    if digits.len() > 0 && all_digits(digits) && digits_value(digits) <= usize::MAX {
        Some(digits_value(digits) as usize)
    } else {
        None
    }
}

proof fn lemma_digits_prefix(digits: Seq<char>, length: int)
    requires
        0 <= length <= digits.len(),
    ensures
        digits_value(digits.take(length)) <= digits_value(digits),
    decreases digits.len(),
{
    if length == digits.len() {
        assert(digits.take(length) =~= digits);
    } else {
        lemma_digits_prefix(digits.drop_last(), length);
        assert(digits.drop_last().take(length) =~= digits.take(length));
    }
}

/// Read a host-sized number.
pub fn parse_usize(text: &str) -> (number: Option<usize>)
    ensures
        number == parsed_usize(text@),
{
    let length: usize = text.unicode_len();
    let start: usize = if length > 0 && text.get_char(0) == '+' {
        1
    } else {
        0
    };
    let ghost digits = unsigned_digits(text@);
    assert(digits =~= text@.skip(start as int));
    if start == length {
        return None;
    }
    let mut number: usize = 0;
    let mut i: usize = start;
    assert(digits.take(0) =~= Seq::<char>::empty());
    while i < length
        invariant
            start <= i <= length,
            start < length,
            length == text@.len(),
            digits == unsigned_digits(text@),
            digits == text@.skip(start as int),
            forall|j: int| 0 <= j < i - start ==> '0' <= #[trigger] digits[j] <= '9',
            number == digits_value(digits.take(i - start)),
        decreases length - i,
    {
        let letter: char = text.get_char(i);
        assert(letter == digits[i - start]);
        if !('0' <= letter && letter <= '9') {
            assert(!all_digits(digits));
            return None;
        }
        let digit: usize = letter as usize - 48;
        proof {
            assert(digits.take(i - start + 1).drop_last() =~= digits.take(i - start));
            lemma_digits_prefix(digits, i - start + 1);
        }
        number = match number.checked_mul(10) {
            Some(scaled) => match scaled.checked_add(digit) {
                Some(number) => number,
                None => {
                    return None;
                },
            },
            None => {
                return None;
            },
        };
        i = i + 1;
    }
    assert(digits.take(length - start) =~= digits);
    Some(number)
}

proof fn lemma_decimal_value(number: nat)
    ensures
        digits_value(decimal(number)) == number,
    decreases number,
{
    if number < 10 {
        assert(decimal(number).drop_last() =~= Seq::<char>::empty());
        assert(decimal(number).last() == digit_char(number));
        assert(digits_value(decimal(number).drop_last()) == 0);
    } else {
        lemma_decimal_value(number / 10);
        assert(decimal(number).drop_last() =~= decimal(number / 10));
        assert(decimal(number).last() == digit_char(number % 10));
    }
}

/// Reading a numeral gives back the number it was written from.
pub proof fn lemma_decimal_parses(number: usize)
    ensures
        parsed_usize(decimal(number as nat)) == Some(number),
{
    lemma_decimal_digits(number as nat);
    lemma_decimal_value(number as nat);
    let digits = decimal(number as nat);
    assert('0' <= digits[0] <= '9');
    assert(unsigned_digits(digits) == digits);
}

} // verus!
