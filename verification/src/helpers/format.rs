//! Time as a clock shows it, as in `01:02:03.004`, and as it is read from
//! the same notation: up to four fields between colons, days, hours, minutes
//! and seconds, of which the seconds may have a decimal fraction.

use crate::error::int_error_text;
use crate::format::{fields_from_end, field_unit};
use crate::text::{
    after_last, decimal, digit_value, digits_value, find_first, first_index, is_digit, is_number,
    number_digits, number_value, parse_u64, push_decimal, push_three_digits, push_two_digits,
    zero_padded,
};
use crate::time::{Duration, NANOS_PER_MILLI, NANOS_PER_SEC};
use std::num::ParseIntError;
use vstd::prelude::*;
use vstd::string::StrSliceExecFns;
use vstd::string::StringExecFns;

verus! {

/// The seconds of a clock reading of `millis` milliseconds, in two digits,
/// and behind them the milliseconds in three, where there are any.
pub open spec fn seconds_text(millis: nat) -> Seq<char> {
    zero_padded((millis / 1000) % 60, 2) + if millis % 1000 != 0 {
        "."@ + zero_padded(millis % 1000, 3)
    } else {
        Seq::<char>::empty()
    }
}

/// The clock reading of a span: seconds in two digits, with minutes and
/// hours in two digits in front of them once the span reaches them, days by
/// their number once it reaches those, and milliseconds behind the seconds
/// where there are any. Parts of a millisecond are left out.
pub open spec fn clock_text(time: Duration) -> Seq<char> {
    let millis = (time.nanos / NANOS_PER_MILLI) as nat;
    let mins = millis / 60_000;
    let hours = millis / 3_600_000;
    let days = millis / 86_400_000;
    if mins == 0 {
        seconds_text(millis)
    } else if hours == 0 {
        zero_padded(mins % 60, 2) + ":"@ + seconds_text(millis)
    } else if days == 0 {
        zero_padded(hours % 24, 2) + ":"@ + zero_padded(mins % 60, 2) + ":"@ + seconds_text(millis)
    } else {
        decimal(days) + "days "@ + zero_padded(hours % 24, 2) + ":"@ + zero_padded(mins % 60, 2)
            + ":"@ + seconds_text(millis)
    }
}

/// Writes the seconds of a clock reading at the end of `out`.
fn push_seconds(out: &mut String, millis: u128)
    ensures
        final(out)@ == old(out)@ + seconds_text(millis as nat),
{
    push_two_digits(out, (millis / 1000) % 60);
    if millis % 1000 != 0 {
        out.append(".");
        push_three_digits(out, millis % 1000);
    }
    assert(out@ =~= old(out)@ + seconds_text(millis as nat));
}

/// Shows a span as a clock does.
pub fn fmt_time(time: Duration) -> (text: String)
    ensures
        text@ == clock_text(time),
{
    let millis = time.as_millis();
    let mins = millis / 60_000;
    let hours = millis / 3_600_000;
    let days = millis / 86_400_000;
    let mut text = String::new();
    if days != 0 {
        push_decimal(&mut text, days);
        text.append("days ");
    }
    if hours != 0 {
        push_two_digits(&mut text, hours % 24);
        text.append(":");
    }
    if mins != 0 {
        push_two_digits(&mut text, mins % 60);
        text.append(":");
    }
    push_seconds(&mut text, millis);
    assert(text@ =~= clock_text(time));
    text
}

/// Why text in the clock notation is no span of time.
#[derive(Debug)]
pub enum ParseError {
    /// A field of days, hours or minutes is no number.
    ParseIntError(ParseIntError),
    /// The field of seconds is no decimal number.
    ParseSubSecsError,
    /// The fields are not laid out as the notation asks.
    BadFormat(String),
}

impl ParseError {
    /// The error in words.
    pub fn message(&self) -> (text: String)
        ensures
            *self is ParseSubSecsError ==> text@ == "Error in Parsing sub seconds"@,
            *self matches ParseError::BadFormat(reason) ==> text@ == "Bad Format: "@ + reason@,
    {
        match self {
            ParseError::ParseIntError(error) => {
                let mut text = String::from_str("Error in Parsing Integer: ");
                text.append(int_error_text(error).as_str());
                text
            },
            ParseError::ParseSubSecsError => String::from_str("Error in Parsing sub seconds"),
            ParseError::BadFormat(reason) => {
                let mut text = String::from_str("Bad Format: ");
                text.append(reason.as_str());
                text
            },
        }
    }
}

/// What went wrong with the clock notation.
pub enum Fault {
    BadNumber,
    BadSeconds,
    BadLayout,
}

/// Ten to the power of `n`.
pub open spec fn pow10(n: nat) -> nat
    decreases n,
{
    if n == 0 {
        1
    } else {
        10 * pow10((n - 1) as nat)
    }
}

/// What the digits behind a decimal point come to when the first of them
/// stands at the place `places` from the end: only `places` digits count.
pub open spec fn fraction_value(digits: Seq<char>, places: nat) -> nat
    decreases places,
{
    if places == 0 || digits.len() == 0 {
        0
    } else {
        digit_value(digits[0]) * pow10((places - 1) as nat) + fraction_value(
            digits.skip(1),
            (places - 1) as nat,
        )
    }
}

/// Whether `text` holds decimal digits only.
pub open spec fn all_digits(text: Seq<char>) -> bool {
    forall|i: int| 0 <= i < text.len() ==> is_digit(#[trigger] text[i])
}

/// The nanoseconds that a field of seconds stands for: whole seconds, and
/// behind a point their fraction, of which nine digits count. A plus sign
/// may stand in front; either side of the point may be empty, but not
/// both; the whole seconds have to fit in 64 bits. `None` for any other
/// text.
pub open spec fn seconds_nanos(text: Seq<char>) -> Option<nat> {
    let body = number_digits(text);
    let dot = first_index(body, '.');
    let whole = body.take(dot);
    let fraction = if dot < body.len() {
        body.skip(dot + 1)
    } else {
        Seq::<char>::empty()
    };
    if whole.len() + fraction.len() == 0 || !all_digits(whole) || !all_digits(fraction)
        || digits_value(whole) > u64::MAX {
        None
    } else {
        Some((digits_value(whole) * NANOS_PER_SEC + fraction_value(fraction, 9)) as nat)
    }
}

/// What the fields of `fields` come to in nanoseconds, of which the first
/// stands at `index` from the end. An empty field counts as zero. The
/// fields are read in order, and the first at fault decides the error: the
/// last field if it is no decimal number, an earlier one if it is no whole
/// number, a fifth one if it is not empty.
pub open spec fn clock_total(fields: Seq<Seq<char>>, index: nat) -> Result<nat, Fault>
    decreases fields.len(),
{
    if fields.len() == 0 {
        Ok(0)
    } else if fields[0].len() == 0 {
        clock_total(fields.skip(1), index + 1)
    } else if index == 0 && seconds_nanos(fields[0]) is None {
        Err(Fault::BadSeconds)
    } else if 1 <= index <= 3 && !is_number(fields[0]) {
        Err(Fault::BadNumber)
    } else if index > 3 {
        Err(Fault::BadLayout)
    } else {
        match clock_total(fields.skip(1), index + 1) {
            Ok(rest) => Ok(
                rest + if index == 0 {
                    seconds_nanos(fields[0]).unwrap()
                } else {
                    (number_value(fields[0]) * field_unit(index) * NANOS_PER_SEC) as nat
                },
            ),
            Err(fault) => Err(fault),
        }
    }
}

/// The nanoseconds `nanos` put in front of what the fields still to read
/// come to.
pub open spec fn brought(nanos: nat, rest: Result<nat, Fault>) -> Result<nat, Fault> {
    match rest {
        Ok(more) => Ok(nanos + more),
        Err(fault) => Err(fault),
    }
}

/// Whether `parsed` is what the fields of `text` come to.
pub open spec fn clock_parsed_as(parsed: Result<Duration, ParseError>, text: Seq<char>) -> bool {
    match clock_total(fields_from_end(text), 0) {
        Ok(nanos) => parsed == Ok::<Duration, ParseError>(Duration { nanos: nanos as u128 }),
        Err(Fault::BadNumber) => parsed matches Err(ParseError::ParseIntError(_)),
        Err(Fault::BadSeconds) => parsed matches Err(ParseError::ParseSubSecsError),
        Err(Fault::BadLayout) => parsed matches Err(ParseError::BadFormat(message)) && message@
            == "Bad number of ':'"@,
    }
}

/// The value of the decimal digit `c`, or `None` where `c` is no digit.
pub fn digit_of(c: char) -> (digit: Option<u8>)
    ensures
        digit.is_some() == is_digit(c),
        digit matches Some(d) ==> d == digit_value(c) && d < 10,
{
    match c {
        '0' => Some(0),
        '1' => Some(1),
        '2' => Some(2),
        '3' => Some(3),
        '4' => Some(4),
        '5' => Some(5),
        '6' => Some(6),
        '7' => Some(7),
        '8' => Some(8),
        '9' => Some(9),
        _ => None,
    }
}

/// Whether the characters of `text` from `from` up to `to` are all digits.
fn digits_only(text: &str, from: usize, to: usize) -> (only: bool)
    requires
        from <= to <= text@.len(),
    ensures
        only == all_digits(text@.subrange(from as int, to as int)),
{
    let mut at = from;
    let ghost part = text@.subrange(from as int, to as int);
    while at < to
        invariant
            from <= at <= to <= text@.len(),
            part == text@.subrange(from as int, to as int),
            forall|i: int| 0 <= i < at - from ==> is_digit(#[trigger] part[i]),
        decreases to - at,
    {
        if digit_of(text.get_char(at)).is_none() {
            assert(!is_digit(part[at - from]));
            return false;
        }
        at += 1;
    }
    true
}

/// Reads the digits behind the point, from `from` to the end of `text`:
/// their value in nanoseconds, or `None` where one of them is no digit.
fn read_fraction(text: &str, from: usize) -> (nanos: Option<u128>)
    requires
        from <= text@.len(),
    ensures
        nanos.is_some() == all_digits(text@.skip(from as int)),
        nanos matches Some(n) ==> n == fraction_value(text@.skip(from as int), 9) && n
            < 1_000_000_000,
{
    let len = text.unicode_len();
    let ghost digits = text@.skip(from as int);
    let mut at = from;
    let mut nanos: u128 = 0;
    let mut scale: u128 = 100_000_000;
    let mut places: u8 = 9;
    proof {
        assert(pow10(8) == 100_000_000) by {
            reveal_with_fuel(pow10, 9);
        }
        assert(digits.skip(0) =~= digits);
    }
    while at < len
        invariant
            from <= at <= len,
            len == text@.len(),
            digits == text@.skip(from as int),
            places <= 9,
            places > 0 ==> scale == pow10((places - 1) as nat),
            forall|i: int| 0 <= i < at - from ==> is_digit(#[trigger] digits[i]),
            nanos + fraction_value(digits.skip(at - from), places as nat) == fraction_value(
                digits,
                9,
            ),
            nanos + (if places > 0 {
                10 * scale as int
            } else {
                1
            }) <= 1_000_000_000,
            places > 0 ==> 1 <= scale <= 100_000_000,
        decreases len - at,
    {
        let ghost rest = digits.skip(at - from);
        proof {
            assert(rest[0] == digits[at - from]);
            assert(rest.skip(1) =~= digits.skip(at - from + 1));
        }
        match digit_of(text.get_char(at)) {
            None => {
                assert(!is_digit(digits[at - from]));
                return None;
            },
            Some(digit) => {
                if places > 0 {
                    assert(digit as u128 * scale <= 9 * scale) by (nonlinear_arith)
                        requires
                            digit <= 9,
                    ;
                    nanos += digit as u128 * scale;
                    places -= 1;
                    if places > 0 {
                        assert(pow10(places as nat) == 10 * pow10((places - 1) as nat));
                        scale = scale / 10;
                    }
                }
            },
        }
        at += 1;
    }
    proof {
        assert(digits.skip(at - from).len() == 0);
        assert(fraction_value(digits.skip(at - from), places as nat) == 0);
    }
    Some(nanos)
}

/// Reads a field of seconds: whole seconds, and behind a point their
/// fraction.
pub fn parse_seconds(text: &str) -> (nanos: Option<u128>)
    ensures
        match seconds_nanos(text@) {
            Some(n) => nanos == Some(n as u128) && n <= u64::MAX * NANOS_PER_SEC
                + 999_999_999,
            None => nanos is None,
        },
{
    let len = text.unicode_len();
    let start: usize = if len > 0 && text.get_char(0) == '+' {
        1
    } else {
        0
    };
    let dot = find_first(text, '.', start);
    let ghost body = number_digits(text@);
    let ghost whole_text = body.take(dot - start);
    proof {
        assert(body =~= text@.skip(start as int));
        assert(whole_text =~= text@.subrange(start as int, dot as int));
    }
    if !digits_only(text, start, dot) {
        return None;
    }
    let fraction = if dot < len {
        proof {
            assert(body.skip(dot - start + 1) =~= text@.skip(dot + 1));
        }
        match read_fraction(text, dot + 1) {
            Some(nanos) => nanos,
            None => {
                return None;
            },
        }
    } else {
        0
    };
    if dot == start && (dot >= len || dot + 1 == len) {
        return None;
    }
    let whole: u128 = if dot == start {
        assert(whole_text.len() == 0);
        0
    } else {
        let piece = text.substring_char(start, dot);
        proof {
            assert(piece@ == whole_text);
            assert(number_digits(whole_text) == whole_text);
        }
        match parse_u64(piece) {
            Ok(whole) => whole as u128,
            Err(_) => {
                return None;
            },
        }
    };
    Some(whole * NANOS_PER_SEC + fraction)
}

/// What a field in front of other fields comes to.
proof fn lemma_clock_total_unfold(field: Seq<char>, earlier: Seq<Seq<char>>, index: nat)
    ensures
        clock_total(seq![field] + earlier, index) == if field.len() == 0 {
            clock_total(earlier, index + 1)
        } else if index == 0 && seconds_nanos(field) is None {
            Err::<nat, Fault>(Fault::BadSeconds)
        } else if 1 <= index <= 3 && !is_number(field) {
            Err::<nat, Fault>(Fault::BadNumber)
        } else if index > 3 {
            Err::<nat, Fault>(Fault::BadLayout)
        } else {
            brought(
                if index == 0 {
                    seconds_nanos(field).unwrap()
                } else {
                    (number_value(field) * field_unit(index) * NANOS_PER_SEC) as nat
                },
                clock_total(earlier, index + 1),
            )
        },
        clock_total(Seq::<Seq<char>>::empty(), index) == Ok::<nat, Fault>(0),
{
    let fields = seq![field] + earlier;
    assert(fields[0] == field);
    assert(fields.skip(1) =~= earlier);
}

/// Reads a span of time in the clock notation, with a fraction of seconds.
pub fn parse_time(time_str: &str) -> (parsed: Result<Duration, ParseError>)
    ensures
        clock_parsed_as(parsed, time_str@),
{
    let mut nanos: u128 = 0;
    let mut end: usize = time_str.unicode_len();
    let mut i: usize = 0;
    proof {
        assert(time_str@.take(end as int) =~= time_str@);
    }
    loop
        invariant
            end <= time_str@.len() <= usize::MAX,
            i + end <= time_str@.len(),
            nanos <= 6375194751874021038144000000000000,
            i < 4 ==> nanos <= i * 1593798687968505259536000000000000,
            brought(nanos as nat, clock_total(fields_from_end(time_str@.take(end as int)), i as nat))
                == clock_total(fields_from_end(time_str@), 0),
        decreases end,
    {
        let start = after_last(time_str, ':', end);
        let ghost head = time_str@.take(end as int);
        let ghost field = time_str@.subrange(start as int, end as int);
        let ghost earlier = if start > 0 {
            fields_from_end(time_str@.take(start - 1))
        } else {
            Seq::<Seq<char>>::empty()
        };
        proof {
            assert(head.skip(start as int) =~= field);
            if start > 0 {
                assert(head.take(start - 1) =~= time_str@.take(start - 1));
                assert(fields_from_end(head) == seq![field] + earlier);
            } else {
                assert(head =~= field);
                assert(fields_from_end(head) =~= seq![field] + earlier);
            }
            lemma_clock_total_unfold(field, earlier, i as nat);
            lemma_clock_total_unfold(field, earlier, (i + 1) as nat);
        }
        let ghost before = nanos;
        if start < end {
            let piece = time_str.substring_char(start, end);
            if i == 0 {
                match parse_seconds(piece) {
                    Some(en) => {
                        nanos += en;
                    },
                    None => {
                        return Err(ParseError::ParseSubSecsError);
                    },
                }
            } else if i <= 3 {
                match parse_u64(piece) {
                    Err(e) => {
                        return Err(ParseError::ParseIntError(e));
                    },
                    Ok(en) => {
                        let en: u128 = en as u128;
                        let ghost unit = field_unit(i as nat);
                        if i == 1 {
                            nanos += en * 60 * NANOS_PER_SEC;
                        } else if i == 2 {
                            nanos += en * 60 * 60 * NANOS_PER_SEC;
                        } else {
                            nanos += en * 3600 * 24 * NANOS_PER_SEC;
                        }
                        assert(nanos - before == number_value(field) * unit * NANOS_PER_SEC)
                            by (nonlinear_arith)
                            requires
                                number_value(field) == en,
                                NANOS_PER_SEC == 1_000_000_000,
                                unit == 60 && nanos - before == en * 60 * NANOS_PER_SEC || unit
                                    == 3600 && nanos - before == en * 60 * 60 * NANOS_PER_SEC
                                    || unit == 86400 && nanos - before == en * 3600 * 24
                                    * NANOS_PER_SEC,
                        ;
                    },
                }
            } else {
                return Err(ParseError::BadFormat(String::from_str("Bad number of ':'")));
            }
        }
        assert(brought(nanos as nat, clock_total(earlier, (i + 1) as nat)) == clock_total(
            fields_from_end(time_str@),
            0,
        ));
        if start == 0 {
            return Ok(Duration { nanos });
        }
        end = start - 1;
        i = i + 1;
    }
}

} // verus!
