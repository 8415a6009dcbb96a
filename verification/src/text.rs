//! Numbers in text: writing them in decimal, reading them back, and finding
//! the separators between them.

use std::num::ParseIntError;
use vstd::prelude::*;
use vstd::string::StrSliceExecFns;
use vstd::string::StringExecFns;

verus! {

/// The character of the decimal digit `d`; a nine for any number above
/// nine.
pub open spec fn digit_char(d: int) -> char {
    if d == 0 {
        '0'
    } else if d == 1 {
        '1'
    } else if d == 2 {
        '2'
    } else if d == 3 {
        '3'
    } else if d == 4 {
        '4'
    } else if d == 5 {
        '5'
    } else if d == 6 {
        '6'
    } else if d == 7 {
        '7'
    } else if d == 8 {
        '8'
    } else {
        '9'
    }
}

/// Whether `c` is one of the ten decimal digits.
pub open spec fn is_digit(c: char) -> bool {
    c == '0' || c == '1' || c == '2' || c == '3' || c == '4' || c == '5' || c == '6' || c == '7'
        || c == '8' || c == '9'
}

/// The value of the decimal digit `c`.
pub open spec fn digit_value(c: char) -> nat {
    if c == '1' {
        1
    } else if c == '2' {
        2
    } else if c == '3' {
        3
    } else if c == '4' {
        4
    } else if c == '5' {
        5
    } else if c == '6' {
        6
    } else if c == '7' {
        7
    } else if c == '8' {
        8
    } else if c == '9' {
        9
    } else {
        0
    }
}

/// The number `n` written in decimal, without leading zeros.
pub open spec fn decimal(n: nat) -> Seq<char>
    decreases n,
{
    if n < 10 {
        seq![digit_char(n as int)]
    } else {
        decimal(n / 10).push(digit_char((n % 10) as int))
    }
}

/// The number `n` written in decimal with zeros in front of it, so that it
/// has at least `width` digits.
pub open spec fn zero_padded(n: nat, width: nat) -> Seq<char> {
    if decimal(n).len() >= width {
        decimal(n)
    } else {
        Seq::new((width - decimal(n).len()) as nat, |i: int| '0') + decimal(n)
    }
}

/// The number that the decimal digits of `digits` stand for.
pub open spec fn digits_value(digits: Seq<char>) -> nat
    decreases digits.len(),
{
    if digits.len() == 0 {
        0
    } else {
        digits_value(digits.drop_last()) * 10 + digit_value(digits.last())
    }
}

/// The digits of a number in text: the text without the plus sign that may
/// stand in front of it.
pub open spec fn number_digits(text: Seq<char>) -> Seq<char> {
    if text.len() > 0 && text[0] == '+' {
        text.skip(1)
    } else {
        text
    }
}

/// Whether `text` is a number that 64 bits can hold: at least one decimal
/// digit and nothing else, but for a plus sign that may stand in front.
pub open spec fn is_number(text: Seq<char>) -> bool {
    let digits = number_digits(text);
    &&& digits.len() > 0
    &&& forall|i: int| 0 <= i < digits.len() ==> is_digit(#[trigger] digits[i])
    &&& digits_value(digits) <= u64::MAX
}

/// The number that `text` stands for.
pub open spec fn number_value(text: Seq<char>) -> nat {
    digits_value(number_digits(text))
}

/// The place of the last `sep` in `text`, or -1 where there is none.
pub open spec fn last_index(text: Seq<char>, sep: char) -> int
    decreases text.len(),
{
    if text.len() == 0 {
        -1
    } else if text.last() == sep {
        text.len() - 1
    } else {
        last_index(text.drop_last(), sep)
    }
}

/// The place of the first `sep` in `text`, or the length of `text` where
/// there is none.
pub open spec fn first_index(text: Seq<char>, sep: char) -> int
    decreases text.len(),
{
    if text.len() == 0 {
        0
    } else if text.first() == sep {
        0
    } else {
        1 + first_index(text.drop_first(), sep)
    }
}

/// The place `k` is that of the last `sep` in `text` if `sep` stands there
/// and nowhere behind it.
pub proof fn lemma_last_index(text: Seq<char>, sep: char, k: int)
    requires
        -1 <= k < text.len(),
        k >= 0 ==> text[k] == sep,
        forall|j: int| k < j < text.len() ==> text[j] != sep,
    ensures
        last_index(text, sep) == k,
    decreases text.len(),
{
    if text.len() > 0 && text.last() != sep {
        lemma_last_index(text.drop_last(), sep, k);
    }
}

/// The place `k` is that of the first `sep` in `text` if `sep` stands there
/// and nowhere before it.
pub proof fn lemma_first_index(text: Seq<char>, sep: char, k: int)
    requires
        0 <= k <= text.len(),
        k < text.len() ==> text[k] == sep,
        forall|j: int| 0 <= j < k ==> text[j] != sep,
    ensures
        first_index(text, sep) == k,
    decreases text.len(),
{
    if text.len() > 0 && text.first() != sep {
        let rest = text.drop_first();
        assert forall|j: int| 0 <= j < k - 1 implies rest[j] != sep by {
            assert(rest[j] == text[j + 1]);
        }
        lemma_first_index(rest, sep, k - 1);
    }
}

/// Finds the last `sep` among the first `end` characters of `text`: gives
/// the place behind it, or 0 where there is none.
pub fn after_last(text: &str, sep: char, end: usize) -> (start: usize)
    requires
        end <= text@.len(),
    ensures
        start == last_index(text@.take(end as int), sep) + 1,
        start <= end,
{
    let mut start: usize = end;
    while start > 0 && text.get_char(start - 1) != sep
        invariant
            start <= end <= text@.len(),
            forall|j: int| start <= j < end ==> text@[j] != sep,
        decreases start,
    {
        start -= 1;
    }
    proof {
        let head = text@.take(end as int);
        assert forall|j: int| start - 1 < j < head.len() implies head[j] != sep by {
            assert(head[j] == text@[j]);
        }
        lemma_last_index(head, sep, start - 1);
    }
    start
}

/// Finds the first `sep` in `text` from the place `from` on: gives its
/// place, or the length of `text` where there is none.
pub fn find_first(text: &str, sep: char, from: usize) -> (at: usize)
    requires
        from <= text@.len(),
    ensures
        at == from + first_index(text@.skip(from as int), sep),
        from <= at <= text@.len(),
{
    let len = text.unicode_len();
    let mut at: usize = from;
    while at < len && text.get_char(at) != sep
        invariant
            from <= at <= len,
            len == text@.len(),
            forall|j: int| from <= j < at ==> text@[j] != sep,
        decreases len - at,
    {
        at += 1;
    }
    proof {
        let tail = text@.skip(from as int);
        assert forall|j: int| 0 <= j < at - from implies tail[j] != sep by {
            assert(tail[j] == text@[j + from]);
        }
        if at < len {
            assert(tail[at - from] == text@[at as int]);
        }
        lemma_first_index(tail, sep, at - from);
    }
    at
}

/// The text of the decimal digit `d`; any number above nine is shown as a
/// nine.
pub fn digit_str(d: u8) -> (text: &'static str)
    ensures
        text@ == seq![digit_char(d as int)],
{
    proof {
        reveal_strlit("0");
        reveal_strlit("1");
        reveal_strlit("2");
        reveal_strlit("3");
        reveal_strlit("4");
        reveal_strlit("5");
        reveal_strlit("6");
        reveal_strlit("7");
        reveal_strlit("8");
        reveal_strlit("9");
    }
    let text = match d {
        0 => "0",
        1 => "1",
        2 => "2",
        3 => "3",
        4 => "4",
        5 => "5",
        6 => "6",
        7 => "7",
        8 => "8",
        _ => "9",
    };
    assert(text@ =~= seq![digit_char(d as int)]);
    text
}

/// Writes `n` in decimal at the end of `out`.
pub fn push_decimal(out: &mut String, n: u128)
    ensures
        final(out)@ == old(out)@ + decimal(n as nat),
    decreases n,
{
    if n >= 10 {
        push_decimal(out, n / 10);
    }
    out.append(digit_str((n % 10) as u8));
    assert(out@ =~= old(out)@ + decimal(n as nat));
}

/// Writes `n` in decimal at the end of `out`, with a zero in front of a
/// single digit.
pub fn push_two_digits(out: &mut String, n: u128)
    ensures
        final(out)@ == old(out)@ + zero_padded(n as nat, 2),
{
    if n < 10 {
        out.append("0");
        proof {
            reveal_strlit("0");
            assert(Seq::new(1, |i: int| '0') =~= "0"@);
        }
    }
    push_decimal(out, n);
    proof {
        lemma_decimal_len(n as nat);
        assert(out@ =~= old(out)@ + zero_padded(n as nat, 2));
    }
}

/// Writes `n` in decimal at the end of `out`, with zeros in front of it
/// where it has less than three digits.
pub fn push_three_digits(out: &mut String, n: u128)
    ensures
        final(out)@ == old(out)@ + zero_padded(n as nat, 3),
{
    if n < 10 {
        out.append("00");
        proof {
            reveal_strlit("00");
            assert(Seq::new(2, |i: int| '0') =~= "00"@);
        }
    } else if n < 100 {
        out.append("0");
        proof {
            reveal_strlit("0");
            assert(Seq::new(1, |i: int| '0') =~= "0"@);
        }
    }
    push_decimal(out, n);
    proof {
        lemma_decimal_len(n as nat);
        assert(out@ =~= old(out)@ + zero_padded(n as nat, 3));
    }
}

/// A number below ten has one digit, a number below a hundred two, and any
/// other number at least three.
pub proof fn lemma_decimal_len(n: nat)
    ensures
        n < 10 ==> decimal(n).len() == 1,
        10 <= n < 100 ==> decimal(n).len() == 2,
        100 <= n ==> decimal(n).len() >= 3,
        decimal(n).len() >= 1,
    decreases n,
{
    if n >= 10 {
        lemma_decimal_len(n / 10);
    }
}

/// The number `n` in decimal.
pub fn decimal_string(n: u128) -> (text: String)
    ensures
        text@ == decimal(n as nat),
{
    let mut text = String::new();
    push_decimal(&mut text, n);
    assert(text@ =~= decimal(n as nat));
    text
}

/// The error of the standard library for text that is no number. Nothing is
/// read from it: it is handed on to the caller.
#[verifier::external_type_specification]
#[verifier::external_body]
pub struct ExParseIntError(ParseIntError);

/// Reads `text` as a number of 64 bits through `str::parse`. As the standard
/// library documents it, the text has to be decimal digits, after a plus
/// sign or without one, and nothing else, no blank either; text that is
/// empty, that holds anything else, or whose number is too large is an
/// error.
#[verifier::external_body]
pub(crate) fn parse_u64(text: &str) -> (parsed: Result<u64, ParseIntError>)
    ensures
        parsed.is_ok() == is_number(text@),
        parsed matches Ok(value) ==> value == number_value(text@),
{
    text.parse::<u64>()
}

} // verus!
