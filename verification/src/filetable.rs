//! The listing of a process's descriptors: one decimal number to a line,
//! and the flag that tells which of them leave with the old image.

use vstd::prelude::*;

verus! {

/// `b` is an ASCII decimal digit.
pub open spec fn is_digit(b: u8) -> bool {
    0x30 <= b && b <= 0x39
}

/// The number that a digit stands for; 0 for any other byte.
pub open spec fn digit_value(b: u8) -> nat {
    if is_digit(b) {
        (b - 0x30) as nat
    } else {
        0
    }
}

/// The number that `digits` write in base ten.
pub open spec fn decimal(digits: Seq<u8>) -> nat
    decreases digits.len(),
{
    if digits.len() == 0 {
        0
    } else {
        decimal(digits.drop_last()) * 10 + digit_value(digits.last())
    }
}

/// `line` without its line ending: one `\n`, and one `\r` before it.
pub open spec fn trim_line_end(line: Seq<u8>) -> Seq<u8> {
    if line.len() > 0 && line.last() == 0x0a {
        if line.len() > 1 && line[line.len() - 2] == 0x0d {
            line.take(line.len() - 2)
        } else {
            line.drop_last()
        }
    } else {
        line
    }
}

/// `text` without the one `+` that may open a number.
pub open spec fn unsigned_digits(text: Seq<u8>) -> Seq<u8> {
    if text.len() > 0 && text[0] == 0x2b {
        text.skip(1)
    } else {
        text
    }
}

/// `text` is a decimal number: an optional `+`, then one digit or more and nothing else.
pub open spec fn is_number(text: Seq<u8>) -> bool {
    let digits = unsigned_digits(text);
    digits.len() > 0 && forall|i: int| 0 <= i < digits.len() ==> is_digit(#[trigger] digits[i])
}

/// The descriptor that one line of the listing names: the number it writes,
/// where it is a decimal number that fits a `usize`.
pub open spec fn spec_parse_descriptor(line: Seq<u8>) -> Option<usize> {
    let text = trim_line_end(line);
    if is_number(text) && decimal(unsigned_digits(text)) <= usize::MAX {
        Some(decimal(unsigned_digits(text)) as usize)
    } else {
        None
    }
}

/// A number is no smaller than the number that its first digits write.
pub proof fn lemma_decimal_prefix(digits: Seq<u8>, k: int)
    requires
        0 <= k <= digits.len(),
    ensures
        decimal(digits.take(k)) <= decimal(digits),
    decreases digits.len() - k,
{
    if k < digits.len() {
        lemma_decimal_prefix(digits, k + 1);
        assert(digits.take(k + 1).drop_last() =~= digits.take(k));
    } else {
        assert(digits.take(k) =~= digits);
    }
}

/// Reads one line of the descriptor listing. A line that is no number names
/// no descriptor.
pub fn parse_descriptor(line: &[u8]) -> (fd: Option<usize>)
    ensures
        fd == spec_parse_descriptor(line@),
{
    let n: usize = line.len();
    let end: usize = if n > 0 && line[n - 1] == 0x0a {
        if n > 1 && line[n - 2] == 0x0d {
            n - 2
        } else {
            n - 1
        }
    } else {
        n
    };
    let start: usize = if end > 0 && line[0] == 0x2b {
        1
    } else {
        0
    };
    let ghost text = trim_line_end(line@);
    let ghost digits = unsigned_digits(text);
    assert(text =~= line@.take(end as int));
    assert(digits =~= line@.subrange(start as int, end as int));
    if start == end {
        return None;
    }
    let mut value: usize = 0;
    let mut i: usize = start;
    while i < end
        invariant
            start <= i <= end <= line.len(),
            digits == line@.subrange(start as int, end as int),
            digits == unsigned_digits(trim_line_end(line@)),
            forall|k: int| 0 <= k < i - start ==> is_digit(#[trigger] digits[k]),
            value == decimal(digits.take(i - start)),
        decreases end - i,
    {
        let b: u8 = line[i];
        assert(digits[i - start] == b);
        if b < 0x30 || b > 0x39 {
            assert(!is_digit(digits[i - start]));
            return None;
        }
        proof {
            lemma_decimal_prefix(digits, i - start + 1);
            assert(digits.take(i - start + 1).drop_last() =~= digits.take(i - start));
        }
        let tens = match value.checked_mul(10) {
            Some(tens) => tens,
            None => {
                return None;
            },
        };
        value = match tens.checked_add((b - 0x30) as usize) {
            Some(sum) => sum,
            None => {
                return None;
            },
        };
        i += 1;
    }
    assert(digits.take(i - start) =~= digits);
    Some(value)
}

/// Reads the constant `syscall::flag::O_CLOEXEC`, the close-on-exec bit of a
/// descriptor's flags. That it is `0x0100_0000` is taken from the crate's
/// source and not proved.
#[verifier::external_body]
fn o_cloexec() -> (r: usize)
    ensures
        r == 0x0100_0000,
{
    syscall::flag::O_CLOEXEC
}

/// The flags carry the close-on-exec bit.
pub open spec fn spec_is_cloexec(flags: usize) -> bool {
    flags & 0x0100_0000 == 0x0100_0000
}

/// Whether a descriptor with these flags leaves with the old image.
pub fn is_cloexec(flags: usize) -> (flagged: bool)
    ensures
        flagged == spec_is_cloexec(flags),
{
    let bit: usize = o_cloexec();
    flags & bit == bit
}

} // verus!
