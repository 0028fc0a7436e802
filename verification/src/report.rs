//! The one-line report of a structural preflight.

use crate::qwen35::Qwen35StructuralProfile;
use crate::text;
use crate::text::decimal_text;
use vstd::prelude::*;
use vstd::string::StringExecFns;

verus! {

/// The schema version that a report states.
pub const REPORT_SCHEMA_VERSION: u64 = 1;

/// The hexadecimal digit of a number below sixteen.
pub open spec fn hex_char(digit: nat) -> char {
    if digit < 10 {
        (48 + digit) as u8 as char
    } else {
        (87 + digit) as u8 as char
    }
}

/// The hexadecimal text of bytes: two lower-case digits for each.
pub open spec fn hex(bytes: Seq<u8>) -> Seq<char>
    decreases bytes.len(),
{
    if bytes.len() == 0 {
        seq![]
    } else {
        hex(bytes.drop_last()) + seq![
            hex_char(bytes.last() as nat / 16),
            hex_char(bytes.last() as nat % 16),
        ]
    }
}

/// The hexadecimal text of bytes determines them.
pub proof fn lemma_hex_injective(left: Seq<u8>, right: Seq<u8>)
    requires
        hex(left) == hex(right),
    ensures
        left == right,
    decreases left.len(),
{
    lemma_hex_length(left);
    lemma_hex_length(right);
    if left.len() > 0 {
        let text = hex(left);
        let other = hex(right);
        let end = 2 * left.len() as int;
        assert(text[end - 2] == hex_char(left.last() as nat / 16));
        assert(text[end - 1] == hex_char(left.last() as nat % 16));
        assert(other[end - 2] == hex_char(right.last() as nat / 16));
        assert(other[end - 1] == hex_char(right.last() as nat % 16));
        lemma_hex_char(left.last() as nat / 16, right.last() as nat / 16);
        lemma_hex_char(left.last() as nat % 16, right.last() as nat % 16);
        assert(text.take(end - 2) =~= hex(left.drop_last()));
        assert(other.take(end - 2) =~= hex(right.drop_last()));
        lemma_hex_injective(left.drop_last(), right.drop_last());
        assert(left =~= left.drop_last().push(left.last()));
        assert(right =~= right.drop_last().push(right.last()));
    } else {
        assert(left =~= right);
    }
}

proof fn lemma_hex_length(bytes: Seq<u8>)
    ensures
        hex(bytes).len() == 2 * bytes.len(),
    decreases bytes.len(),
{
    if bytes.len() > 0 {
        lemma_hex_length(bytes.drop_last());
    }
}

proof fn lemma_hex_char(left: nat, right: nat)
    requires
        left < 16,
        right < 16,
        hex_char(left) == hex_char(right),
    ensures
        left == right,
{
}

fn hex_digit(digit: u8) -> (text: &'static str)
    requires
        digit < 16,
    ensures
        text@ == seq![hex_char(digit as nat)],
{
    proof {
        reveal_strlit("0");
        reveal_strlit("1");
        reveal_strlit("2");
        reveal_strlit("3");
        reveal_strlit("4");
        reveal_strlit("5");
        reveal_strlit("6");
        reveal_strlit("7");
        reveal_strlit("8");
        reveal_strlit("9");
        reveal_strlit("a");
        reveal_strlit("b");
        reveal_strlit("c");
        reveal_strlit("d");
        reveal_strlit("e");
        reveal_strlit("f");
    }
    match digit {
        0 => "0",
        1 => "1",
        2 => "2",
        3 => "3",
        4 => "4",
        5 => "5",
        6 => "6",
        7 => "7",
        8 => "8",
        9 => "9",
        10 => "a",
        11 => "b",
        12 => "c",
        13 => "d",
        14 => "e",
        _ => "f",
    }
}

/// Write bytes in hexadecimal.
pub fn hex_text(bytes: &[u8]) -> (text: String)
    ensures
        text@ == hex(bytes@),
{
    let mut text = "".to_owned();
    proof {
        reveal_strlit("");
        assert(bytes@.take(0) =~= Seq::<u8>::empty());
        assert(text@ =~= hex(bytes@.take(0)));
    }
    let mut i: usize = 0;
    while i < bytes.len()
        invariant
            0 <= i <= bytes@.len(),
            text@ == hex(bytes@.take(i as int)),
        decreases bytes@.len() - i,
    {
        text.append(hex_digit(bytes[i] / 16));
        text.append(hex_digit(bytes[i] % 16));
        proof {
            let longer = bytes@.take(i + 1);
            assert(longer.drop_last() =~= bytes@.take(i as int));
            assert(longer.last() == bytes@[i as int]);
            assert(text@ =~= hex(longer));
        }
        i = i + 1;
    }
    assert(bytes@.take(i as int) =~= bytes@);
    text
}

/// The report of an observed artifact.
pub open spec fn report_text(profile: Qwen35StructuralProfile<'_>) -> Seq<char> {
    let artifact = profile.artifact();
    let dimensions = profile.spec_dimensions();
    "{\"schema_version\":"@ + text::decimal(REPORT_SCHEMA_VERSION as nat)
        + ",\"outcome\":\"structural_preflight\",\"digest\":{\"algorithm\":\"sha256\",\"hex\":\""@
        + hex(artifact.digest@) + "\"},\"file_bytes\":"@ + text::decimal(artifact.file_len as nat)
        + ",\"tensor_count\":"@ + text::decimal(artifact.tensors@.len())
        + ",\"stored_block_count\":"@ + text::decimal(dimensions.stored_block_count as nat)
        + ",\"main_block_count\":"@ + text::decimal(dimensions.main_block_count as nat)
        + ",\"nextn_block_count\":"@ + text::decimal(dimensions.nextn_block_count as nat) + "}"@
}

/// Report what a structural preflight observed, as one JSON object.
pub fn report(profile: &Qwen35StructuralProfile<'_>) -> (report: String)
    ensures
        report@ == report_text(*profile),
{
    let observed = profile.observed();
    let mut report = "{\"schema_version\":".to_owned();
    report.append(decimal_text(REPORT_SCHEMA_VERSION).as_str());
    report.append(
        ",\"outcome\":\"structural_preflight\",\"digest\":{\"algorithm\":\"sha256\",\"hex\":\"",
    );
    report.append(hex_text(observed.digest.as_slice()).as_str());
    report.append("\"},\"file_bytes\":");
    report.append(decimal_text(observed.file_len).as_str());
    report.append(",\"tensor_count\":");
    report.append(decimal_text(observed.tensors.len() as u64).as_str());
    report.append(",\"stored_block_count\":");
    report.append(decimal_text(profile.stored_block_count()).as_str());
    report.append(",\"main_block_count\":");
    report.append(decimal_text(profile.main_block_count()).as_str());
    report.append(",\"nextn_block_count\":");
    report.append(decimal_text(profile.nextn_block_count()).as_str());
    report.append("}");
    report
}

} // verus!
