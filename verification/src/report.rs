//! The lines that are shown when an entry finds a file at its destination:
//! a header, one line for each algorithm that was tried, and a verdict.

use vstd::prelude::*;
use vstd::string::StringExecFns;
use crate::conflict::{verdict_of, OutcomeView};
use crate::resolver::{
    first_listed, first_match, match_view, narrow_view, wide_view, ChecksumMatch,
};
use crate::text::texts;

verus! {

/// The lowercase hexadecimal digit for a value below sixteen.
pub open spec fn hex_digit(nibble: int) -> char {
    seq!['0', '1', '2', '3', '4', '5', '6', '7', '8', '9', 'a', 'b', 'c', 'd', 'e', 'f'][nibble]
}

/// Bytes as lowercase hexadecimal text: two digits for each byte, the high
/// half of the byte first.
pub open spec fn hex_text(bytes: Seq<u8>) -> Seq<char> {
    Seq::new(
        2 * bytes.len(),
        |i: int|
            if i % 2 == 0 {
                hex_digit(bytes[i / 2] as int / 16)
            } else {
                hex_digit(bytes[i / 2] as int % 16)
            },
    )
}

/// The eight bytes of a 64-bit value, least significant first.
pub open spec fn low_first_bytes(value: u64) -> Seq<u8> {
    seq![
        (value % 0x100) as u8,
        (value / 0x100 % 0x100) as u8,
        (value / 0x1_0000 % 0x100) as u8,
        (value / 0x100_0000 % 0x100) as u8,
        (value / 0x1_0000_0000 % 0x100) as u8,
        (value / 0x100_0000_0000 % 0x100) as u8,
        (value / 0x1_0000_0000_0000 % 0x100) as u8,
        (value / 0x100_0000_0000_0000 % 0x100) as u8,
    ]
}

/// A checksum as sixteen hexadecimal digits, in one of the two byte orders.
pub open spec fn checksum_hex_text(value: u64, low_first: bool) -> Seq<char> {
    if low_first {
        hex_text(low_first_bytes(value))
    } else {
        hex_text(low_first_bytes(value).reverse())
    }
}

/// `text` shows `value` in hexadecimal, in one of the two byte orders.
pub open spec fn shows_checksum(text: Seq<char>, value: u64) -> bool {
    text == checksum_hex_text(value, true) || text == checksum_hex_text(value, false)
}

/// `hex::encode` writes each byte as two lowercase hexadecimal digits, the
/// high half first, and nothing else.
#[verifier::external_body]
fn hex_encode(bytes: &[u8]) -> (text: String)
    ensures
        text@ == hex_text(bytes@),
{
    ::hex::encode(bytes)
}

/// `u64::to_ne_bytes` gives the eight bytes of the value in the order in
/// which this machine keeps them in memory: least significant first on some
/// machines, most significant first on the others.
#[verifier::external_body]
fn native_bytes(value: u64) -> (bytes: [u8; 8])
    ensures
        bytes@ == low_first_bytes(value) || bytes@ == low_first_bytes(value).reverse(),
{
    value.to_ne_bytes()
}

/// A checksum as hexadecimal text, byte by byte in the order in which this
/// machine keeps the value in memory.
pub fn checksum_hex(value: u64) -> (text: String)
    ensures
        shows_checksum(text@, value),
{
    let bytes = native_bytes(value);
    hex_encode(bytes.as_slice())
}

/// The header of a report: which file is already there, and the two
/// checksums recorded for the entry.
pub open spec fn header_text(
    destination: Seq<char>,
    entry_hex: Seq<char>,
    compressed_hex: Seq<char>,
) -> Seq<char> {
    destination + " already exists with CRC "@ + entry_hex + " ("@ + compressed_hex
        + " compressed)"@
}

/// The line for one algorithm that was tried.
pub open spec fn attempt_text(
    bits: Seq<char>,
    name: Seq<char>,
    digest_hex: Seq<char>,
) -> Seq<char> {
    "calculating CRC "@ + bits + " "@ + name + ": "@ + digest_hex
}

/// The last line of a report.
pub open spec fn verdict_text(outcome: OutcomeView) -> Seq<char> {
    match outcome {
        OutcomeView::SkippedIdentical(name) => name + " matches successfully"@,
        _ => "WARNING: no valid CRC32 match found!"@,
    }
}

/// The decimal digit for a value below ten.
pub open spec fn decimal_digit(value: int) -> char {
    seq!['0', '1', '2', '3', '4', '5', '6', '7', '8', '9'][value]
}

/// A number in decimal, without leading zeros; zero is `0`.
pub open spec fn decimal_text(value: nat) -> Seq<char>
    decreases value,
{
    if value < 10 {
        seq![decimal_digit(value as int)]
    } else {
        decimal_text(value / 10).push(decimal_digit((value % 10) as int))
    }
}

/// The line that says that an entry was written.
pub open spec fn written_text(
    byte_count: nat,
    destination: Seq<char>,
    entry_hex: Seq<char>,
) -> Seq<char> {
    "wrote "@ + decimal_text(byte_count) + " bytes to "@ + destination + " (crc: "@ + entry_hex
        + ")"@
}

/// `line` says that an entry of `byte_count` bytes with this checksum was
/// written to `destination`.
pub open spec fn is_written_line(
    line: Seq<char>,
    byte_count: nat,
    destination: Seq<char>,
    entry_checksum: u64,
) -> bool {
    exists|entry_hex: Seq<char>|
        shows_checksum(entry_hex, entry_checksum) && line == #[trigger] written_text(
            byte_count,
            destination,
            entry_hex,
        )
}

/// `line` is the header for this destination and these checksums.
pub open spec fn is_header(
    line: Seq<char>,
    destination: Seq<char>,
    entry_checksum: u64,
    compressed_checksum: u64,
) -> bool {
    exists|entry_hex: Seq<char>, compressed_hex: Seq<char>|
        {
            &&& shows_checksum(entry_hex, entry_checksum)
            &&& shows_checksum(compressed_hex, compressed_checksum)
            &&& line == #[trigger] header_text(destination, entry_hex, compressed_hex)
        }
}

/// `line` is the line for an algorithm of this width and name that gave
/// `digest`.
pub open spec fn is_attempt(
    line: Seq<char>,
    bits: Seq<char>,
    name: Seq<char>,
    digest: u64,
) -> bool {
    exists|digest_hex: Seq<char>|
        shows_checksum(digest_hex, digest) && line == #[trigger] attempt_text(
            bits,
            name,
            digest_hex,
        )
}

/// `lines` is the full report on a destination, for the digests that the
/// algorithms gave for the file that is there: the header, a line for each
/// wide digest, a line for each narrow digest widened to 64 bits, and the
/// verdict on the first digest that equals the entry's checksum.
pub open spec fn is_report(
    lines: Seq<Seq<char>>,
    destination: Seq<char>,
    entry_checksum: u64,
    compressed_checksum: u64,
    wide: Seq<(u64, Seq<char>)>,
    narrow: Seq<(u32, Seq<char>)>,
) -> bool {
    &&& lines.len() == wide.len() + narrow.len() + 2
    &&& is_header(lines[0], destination, entry_checksum, compressed_checksum)
    &&& forall|i: int|
        0 <= i < wide.len() ==> is_attempt(#[trigger] lines[1 + i], "64"@, wide[i].1, wide[i].0)
    &&& forall|i: int|
        0 <= i < narrow.len() ==> is_attempt(
            #[trigger] lines[1 + wide.len() + i],
            "32"@,
            narrow[i].1,
            narrow[i].0 as u64,
        )
    &&& lines[lines.len() - 1] == verdict_text(
        verdict_of(first_listed(wide, narrow, entry_checksum)),
    )
}

fn digit_char(value: usize) -> (digit: char)
    requires
        value < 10,
    ensures
        digit == decimal_digit(value as int),
{
    match value {
        0 => '0',
        1 => '1',
        2 => '2',
        3 => '3',
        4 => '4',
        5 => '5',
        6 => '6',
        7 => '7',
        8 => '8',
        _ => '9',
    }
}

/// The text before the last digits of a number, where `rest` is the number
/// without those digits: nothing once no digit is left.
spec fn leading_text(rest: nat) -> Seq<char> {
    if rest == 0 {
        Seq::empty()
    } else {
        decimal_text(rest)
    }
}

/// A number in decimal.
pub fn decimal(value: usize) -> (text: String)
    ensures
        text@ == decimal_text(value as nat),
{
    let mut digits: Vec<char> = Vec::new();
    digits.push(digit_char(value % 10));
    let mut rest: usize = value / 10;
    while rest > 0
        invariant
            decimal_text(value as nat) == leading_text(rest as nat) + digits@.reverse(),
        decreases rest,
    {
        digits.push(digit_char(rest % 10));
        assert(decimal_text(rest as nat) == leading_text((rest / 10) as nat).push(
            decimal_digit((rest % 10) as int),
        ));
        rest = rest / 10;
    }
    let mut text = String::new();
    let mut left: usize = digits.len();
    while left > 0
        invariant
            left <= digits@.len(),
            text@ == digits@.reverse().take(digits@.len() - left),
        decreases left,
    {
        left -= 1;
        text.push(digits[left]);
        assert(text@ == digits@.reverse().take(digits@.len() - left));
    }
    text
}

/// The line that says that an entry of `byte_count` bytes was written to
/// `destination`, with the checksum recorded for the entry.
pub fn written_line(byte_count: usize, destination: &str, entry_checksum: u64) -> (line: String)
    ensures
        is_written_line(line@, byte_count as nat, destination@, entry_checksum),
{
    let entry_hex = checksum_hex(entry_checksum);
    let count = decimal(byte_count);
    let mut line = "wrote ".to_string();
    line.append(count.as_str());
    line.append(" bytes to ");
    line.append(destination);
    line.append(" (crc: ");
    line.append(entry_hex.as_str());
    line.append(")");
    assert(line@ == written_text(byte_count as nat, destination@, entry_hex@));
    line
}

fn header_line(destination: &str, entry_checksum: u64, compressed_checksum: u64) -> (line: String)
    ensures
        is_header(line@, destination@, entry_checksum, compressed_checksum),
{
    let entry_hex = checksum_hex(entry_checksum);
    let compressed_hex = checksum_hex(compressed_checksum);
    let mut line = destination.to_string();
    line.append(" already exists with CRC ");
    line.append(entry_hex.as_str());
    line.append(" (");
    line.append(compressed_hex.as_str());
    line.append(" compressed)");
    assert(line@ == header_text(destination@, entry_hex@, compressed_hex@));
    line
}

fn attempt_line(bits: &str, name: &str, digest: u64) -> (line: String)
    ensures
        is_attempt(line@, bits@, name@, digest),
{
    let digest_hex = checksum_hex(digest);
    let mut line = "calculating CRC ".to_string();
    line.append(bits);
    line.append(" ");
    line.append(name);
    line.append(": ");
    line.append(digest_hex.as_str());
    assert(line@ == attempt_text(bits@, name@, digest_hex@));
    line
}

fn verdict_line(found: &Option<ChecksumMatch>) -> (line: String)
    ensures
        line@ == verdict_text(verdict_of(match_view(*found))),
{
    match found {
        Some(hit) => {
            let mut line = hit.algorithm_name.clone();
            line.append(" matches successfully");
            line
        },
        None => "WARNING: no valid CRC32 match found!".to_string(),
    }
}

/// The report on a destination that already exists, built from the digests
/// that were computed for the file that is there. In quiet mode there is no
/// report.
pub fn report_lines(
    destination: &str,
    entry_checksum: u64,
    compressed_checksum: u64,
    wide: &[(u64, String)],
    narrow: &[(u32, String)],
    quiet: bool,
) -> (lines: Vec<String>)
    ensures
        quiet ==> lines@.len() == 0,
        !quiet ==> is_report(
            texts(lines@),
            destination@,
            entry_checksum,
            compressed_checksum,
            wide_view(wide@),
            narrow_view(narrow@),
        ),
{
    let mut lines: Vec<String> = Vec::new();
    if quiet {
        return lines;
    }
    lines.push(header_line(destination, entry_checksum, compressed_checksum));
    let ghost header = lines@[0]@;
    let mut i: usize = 0;
    while i < wide.len()
        invariant
            i <= wide@.len(),
            lines@.len() == 1 + i,
            lines@[0]@ == header,
            forall|j: int|
                0 <= j < i ==> is_attempt(
                    (#[trigger] lines@[1 + j])@,
                    "64"@,
                    wide@[j].1@,
                    wide@[j].0,
                ),
        decreases wide@.len() - i,
    {
        lines.push(attempt_line("64", wide[i].1.as_str(), wide[i].0));
        i += 1;
    }
    let mut i: usize = 0;
    while i < narrow.len()
        invariant
            i <= narrow@.len(),
            lines@.len() == 1 + wide@.len() + i,
            lines@[0]@ == header,
            forall|j: int|
                0 <= j < wide@.len() ==> is_attempt(
                    (#[trigger] lines@[1 + j])@,
                    "64"@,
                    wide@[j].1@,
                    wide@[j].0,
                ),
            forall|j: int|
                0 <= j < i ==> is_attempt(
                    (#[trigger] lines@[1 + wide@.len() + j])@,
                    "32"@,
                    narrow@[j].1@,
                    narrow@[j].0 as u64,
                ),
        decreases narrow@.len() - i,
    {
        lines.push(attempt_line("32", narrow[i].1.as_str(), narrow[i].0 as u64));
        i += 1;
    }
    let found = first_match(wide, narrow, entry_checksum);
    lines.push(verdict_line(&found));
    proof {
        let shown = texts(lines@);
        let w = wide_view(wide@);
        let n = narrow_view(narrow@);
        assert forall|j: int| 0 <= j < w.len() implies is_attempt(
            #[trigger] shown[1 + j],
            "64"@,
            w[j].1,
            w[j].0,
        ) by {
            assert(shown[1 + j] == lines@[1 + j]@);
        }
        assert forall|j: int| 0 <= j < n.len() implies is_attempt(
            #[trigger] shown[1 + w.len() + j],
            "32"@,
            n[j].1,
            n[j].0 as u64,
        ) by {
            assert(shown[1 + w.len() + j] == lines@[1 + wide@.len() + j]@);
        }
    }
    lines
}

} // verus!
