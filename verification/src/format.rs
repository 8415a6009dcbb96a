//! Time as text: how a span is shown, and how one is read from what the
//! user typed.
//!
//! Two notations are read. The clock notation separates up to four fields by
//! colons, `days:hours:minutes:seconds`, of which any may be left empty. The
//! unit notation names the units, as in `2h25m30s`.

use crate::error::{int_error_text, PorsmoError};
use crate::text::{
    after_last, decimal, decimal_string, find_first, first_index, is_number, last_index,
    number_value, parse_u64, push_decimal,
};
use crate::time::{Duration, NANOS_PER_SEC};
use std::num::ParseIntError;
use vstd::prelude::*;
use vstd::string::StrSliceExecFns;
use vstd::string::StringExecFns;

verus! {

/// Why text in the clock notation is no span of time.
#[derive(Debug)]
pub enum TimeParseError {
    /// A field is no number.
    ParseIntError(ParseIntError),
    /// There are more than four fields.
    BadNumberOfSeparators,
}

impl TimeParseError {
    /// The error in words.
    pub fn message(&self) -> (text: String)
        ensures
            *self is BadNumberOfSeparators ==> text@ == "Bad number of `:`"@,
    {
        match self {
            TimeParseError::ParseIntError(error) => int_error_text(error),
            TimeParseError::BadNumberOfSeparators => String::from_str("Bad number of `:`"),
        }
    }
}

/// What reading a span of time from text comes to.
pub enum Reading {
    /// The text stands for this span.
    Time(Duration),
    /// A part of the text that should be a number is none.
    BadNumber,
    /// The text is not laid out as the notation asks.
    BadFormat,
}

/// The text of a span in hours, minutes and seconds, as in `1h 2m 3s`.
/// Parts of a second are left out.
pub open spec fn duration_text(dur: Duration) -> Seq<char> {
    let total = (dur.nanos / NANOS_PER_SEC) as nat;
    decimal(total / 3600) + "h "@ + decimal((total / 60) % 60) + "m "@ + decimal(total % 60) + "s"@
}

/// Shows a span in hours, minutes and seconds.
pub fn format_duration(dur: Duration) -> (text: String)
    ensures
        text@ == duration_text(dur),
{
    let total_secs = dur.as_secs();
    let secs = total_secs % 60;
    let mins = (total_secs / 60) % 60;
    let hours = total_secs / 3600;
    let mut text = String::new();
    push_decimal(&mut text, hours);
    text.append("h ");
    push_decimal(&mut text, mins);
    text.append("m ");
    push_decimal(&mut text, secs);
    text.append("s");
    assert(text@ =~= duration_text(dur));
    text
}

/// The text of `time` seconds with the units that it reaches, largest
/// first, as in `2h 5m 7s`. The largest unit is days; below the largest unit
/// that is reached, a unit that comes to zero is left out, but for the
/// seconds.
pub open spec fn time_text(time: nat) -> Seq<char>
    decreases time,
{
    if time < 60 {
        decimal(time) + "s"@
    } else if time < 3600 {
        decimal(time / 60) + "m "@ + time_text(time % 60)
    } else if time < 86400 {
        decimal(time / 3600) + "h "@ + time_text(time % 3600)
    } else {
        decimal(time / 86400) + "days "@ + time_text(time % 86400)
    }
}

/// Shows `time` seconds with the units that it reaches.
pub fn fmt_time(time: u64) -> (text: String)
    ensures
        text@ == time_text(time as nat),
    decreases time,
{
    if time < 60 {
        let mut text = decimal_string(time as u128);
        text.append("s");
        text
    } else if time < 3600 {
        let mut text = decimal_string((time / 60) as u128);
        text.append("m ");
        let rest = fmt_time(time % 60);
        text.append(rest.as_str());
        text
    } else if time < 86400 {
        let mut text = decimal_string((time / 3600) as u128);
        text.append("h ");
        let rest = fmt_time(time % 3600);
        text.append(rest.as_str());
        text
    } else {
        let mut text = decimal_string((time / 86400) as u128);
        text.append("days ");
        let rest = fmt_time(time % 86400);
        text.append(rest.as_str());
        text
    }
}

/// The fields of text in the clock notation, the last one first.
pub open spec fn fields_from_end(text: Seq<char>) -> Seq<Seq<char>>
    decreases text.len(),
{
    let k = last_index(text, ':');
    if 0 <= k < text.len() {
        seq![text.skip(k + 1)] + fields_from_end(text.take(k))
    } else {
        seq![text]
    }
}

/// The seconds in one unit of the field at `index`, counted from the end:
/// seconds, minutes, hours, days.
pub open spec fn field_unit(index: nat) -> nat {
    if index == 0 {
        1
    } else if index == 1 {
        60
    } else if index == 2 {
        3600
    } else {
        86400
    }
}

/// What the fields of `fields` come to, of which the first stands at
/// `index` from the end: the seconds they add up to, an empty field
/// counting as zero. The fields are read in order, and the first that is not
/// empty and either no number or a fifth field decides the error.
pub open spec fn fields_total(fields: Seq<Seq<char>>, index: nat) -> Result<nat, Reading>
    decreases fields.len(),
{
    if fields.len() == 0 {
        Ok(0)
    } else if fields[0].len() > 0 && !is_number(fields[0]) {
        Err(Reading::BadNumber)
    } else if fields[0].len() > 0 && index > 3 {
        Err(Reading::BadFormat)
    } else {
        match fields_total(fields.skip(1), index + 1) {
            Ok(rest) => Ok(
                rest + if fields[0].len() > 0 {
                    number_value(fields[0]) * field_unit(index)
                } else {
                    0
                },
            ),
            Err(fault) => Err(fault),
        }
    }
}

/// The seconds `secs` put in front of what the fields still to read come to.
pub open spec fn carried(secs: nat, rest: Result<nat, Reading>) -> Result<nat, Reading> {
    match rest {
        Ok(more) => Ok(secs + more),
        Err(fault) => Err(fault),
    }
}

/// What a field in front of other fields comes to: the field decides an
/// error of its own, and adds its seconds to what the others come to.
pub proof fn lemma_fields_total_unfold(field: Seq<char>, earlier: Seq<Seq<char>>, index: nat)
    ensures
        fields_total(seq![field] + earlier, index) == if field.len() > 0 && !is_number(field) {
            Err::<nat, Reading>(Reading::BadNumber)
        } else if field.len() > 0 && index > 3 {
            Err::<nat, Reading>(Reading::BadFormat)
        } else {
            carried(
                if field.len() > 0 {
                    number_value(field) * field_unit(index)
                } else {
                    0
                },
                fields_total(earlier, index + 1),
            )
        },
        fields_total(Seq::<Seq<char>>::empty(), index) == Ok::<nat, Reading>(0),
{
    let fields = seq![field] + earlier;
    assert(fields[0] == field);
    assert(fields.skip(1) =~= earlier);
}

/// What text in the clock notation comes to.
pub open spec fn read_time(text: Seq<char>) -> Reading {
    match fields_total(fields_from_end(text), 0) {
        Ok(secs) => Reading::Time(Duration { nanos: (secs * NANOS_PER_SEC) as u128 }),
        Err(fault) => fault,
    }
}

/// Whether `parsed` is what `reading` says.
pub open spec fn time_parsed_as(parsed: Result<Duration, TimeParseError>, reading: Reading) -> bool {
    match reading {
        Reading::Time(dur) => parsed == Ok::<Duration, TimeParseError>(dur),
        Reading::BadNumber => parsed matches Err(TimeParseError::ParseIntError(_)),
        Reading::BadFormat => parsed matches Err(TimeParseError::BadNumberOfSeparators),
    }
}

/// Reads a span of time in the clock notation.
pub fn parse_time(time_str: &str) -> (parsed: Result<Duration, TimeParseError>)
    ensures
        time_parsed_as(parsed, read_time(time_str@)),
{
    let mut secs: u128 = 0;
    let mut end: usize = time_str.unicode_len();
    let mut i: usize = 0;
    proof {
        assert(time_str@.take(end as int) =~= time_str@);
    }
    loop
        invariant
            end <= time_str@.len() <= usize::MAX,
            i + end <= time_str@.len(),
            secs <= 6375194751874021038144000,
            i < 4 ==> secs <= i * 1593798687968505259536000,
            carried(secs as nat, fields_total(fields_from_end(time_str@.take(end as int)), i as nat))
                == fields_total(fields_from_end(time_str@), 0),
        decreases end,
    {
        let start = after_last(time_str, ':', end);
        let ghost head = time_str@.take(end as int);
        let ghost field = time_str@.subrange(start as int, end as int);
        let ghost earlier = if start > 0 {
            fields_from_end(time_str@.take(start - 1))
        } else {
            Seq::<Seq<char>>::empty()
        };
        proof {
            assert(head.skip(start as int) =~= field);
            if start > 0 {
                assert(head.take(start - 1) =~= time_str@.take(start - 1));
                assert(fields_from_end(head) == seq![field] + earlier);
            } else {
                assert(head =~= field);
                assert(fields_from_end(head) =~= seq![field] + earlier);
            }
            lemma_fields_total_unfold(field, earlier, i as nat);
        }
        let ghost before = secs;
        if start < end {
            let piece = time_str.substring_char(start, end);
            match parse_u64(piece) {
                Err(e) => {
                    return Err(TimeParseError::ParseIntError(e));
                },
                Ok(en) => {
                    let en: u128 = en as u128;
                    let ghost unit = field_unit(i as nat);
                    if i == 0 {
                        secs += en;
                    } else if i == 1 {
                        secs += en * 60;
                    } else if i == 2 {
                        secs += en * 60 * 60;
                    } else if i == 3 {
                        secs += en * 3600 * 24;
                    } else {
                        return Err(TimeParseError::BadNumberOfSeparators);
                    }
                    assert(secs - before == number_value(field) * unit) by (nonlinear_arith)
                        requires
                            number_value(field) == en,
                            unit == 1 && secs - before == en || unit == 60 && secs - before == en
                                * 60 || unit == 3600 && secs - before == en * 60 * 60 || unit
                                == 86400 && secs - before == en * 3600 * 24,
                    ;
                },
            }
        }
        assert(carried(secs as nat, fields_total(earlier, (i + 1) as nat)) == fields_total(
            fields_from_end(time_str@),
            0,
        ));
        if start == 0 {
            return Ok(Duration { nanos: secs * NANOS_PER_SEC });
        }
        end = start - 1;
        i = i + 1;
    }
}

/// The text before the first `sep` and the text behind it, or `None` where
/// `text` holds no `sep`.
pub open spec fn split_once(text: Seq<char>, sep: char) -> Option<(Seq<char>, Seq<char>)> {
    let at = first_index(text, sep);
    if at < text.len() {
        Some((text.take(at), text.skip(at + 1)))
    } else {
        None
    }
}

/// Cuts `text` in two at its first `sep`.
pub fn cut_once<'a>(text: &'a str, sep: char) -> (parts: Option<(&'a str, &'a str)>)
    ensures
        match split_once(text@, sep) {
            Some((before, behind)) => parts matches Some(found) && found.0@ == before && found.1@
                == behind,
            None => parts is None,
        },
{
    let len = text.unicode_len();
    let at = find_first(text, sep, 0);
    proof {
        assert(text@.skip(0) =~= text@);
    }
    if at < len {
        let before = text.substring_char(0, at);
        let behind = text.substring_char(at + 1, len);
        proof {
            assert(text@.subrange(0, at as int) =~= text@.take(at as int));
            assert(text@.subrange(at + 1, len as int) =~= text@.skip(at + 1));
        }
        Some((before, behind))
    } else {
        None
    }
}

/// What the part of text in the unit notation in front of the unit letter
/// `unit` comes to, in units, and the text that is left behind the letter.
/// A unit that is not named counts as zero and leaves the whole text.
pub open spec fn unit_part(text: Seq<char>, unit: char) -> Result<(nat, Seq<char>), Reading> {
    match split_once(text, unit) {
        Some((number, rest)) => if is_number(number) {
            Ok((number_value(number), rest))
        } else {
            Err(Reading::BadNumber)
        },
        None => Ok((0, text)),
    }
}

/// What the end of text in the unit notation comes to, in seconds: a number
/// and the letter `s`, or nothing at all.
pub open spec fn seconds_part(text: Seq<char>) -> Result<nat, Reading> {
    match split_once(text, 's') {
        Some((number, rest)) => if rest.len() != 0 {
            Err(Reading::BadFormat)
        } else if is_number(number) {
            Ok(number_value(number))
        } else {
            Err(Reading::BadNumber)
        },
        None => if text.len() == 0 {
            Ok(0)
        } else {
            Err(Reading::BadFormat)
        },
    }
}

/// What text in the unit notation comes to: hours, minutes and seconds in
/// this order, each a number with its letter, each of which may be left
/// out.
pub open spec fn read_duration(text: Seq<char>) -> Reading {
    match unit_part(text, 'h') {
        Err(fault) => fault,
        Ok((hours, text)) => match unit_part(text, 'm') {
            Err(fault) => fault,
            Ok((mins, text)) => match seconds_part(text) {
                Err(fault) => fault,
                Ok(secs) => Reading::Time(
                    Duration { nanos: ((hours * 3600 + mins * 60 + secs) * NANOS_PER_SEC) as u128 },
                ),
            },
        },
    }
}

/// Whether `parsed` is what `reading` says.
pub open spec fn duration_parsed_as(parsed: Result<Duration, PorsmoError>, reading: Reading) -> bool {
    match reading {
        Reading::Time(dur) => parsed == Ok::<Duration, PorsmoError>(dur),
        Reading::BadNumber => parsed matches Err(PorsmoError::ParseIntError(_)),
        Reading::BadFormat => parsed matches Err(PorsmoError::WrongFormatError),
    }
}

/// Reads a span of time in the unit notation.
pub fn parse_duration(text: &str) -> (parsed: Result<Duration, PorsmoError>)
    ensures
        duration_parsed_as(parsed, read_duration(text@)),
{
    let (hours, text): (u128, &str) = match cut_once(text, 'h') {
        Some((hours, rest)) => match parse_u64(hours) {
            Ok(hours) => (hours as u128 * 3600, rest),
            Err(e) => {
                return Err(PorsmoError::ParseIntError(e));
            },
        },
        None => (0, text),
    };

    let (mins, text): (u128, &str) = match cut_once(text, 'm') {
        Some((mins, rest)) => match parse_u64(mins) {
            Ok(mins) => (mins as u128 * 60, rest),
            Err(e) => {
                return Err(PorsmoError::ParseIntError(e));
            },
        },
        None => (0, text),
    };

    let secs: u128 = match cut_once(text, 's') {
        Some((secs, rest)) => {
            if rest.unicode_len() != 0 {
                return Err(PorsmoError::WrongFormatError);
            }
            match parse_u64(secs) {
                Ok(secs) => secs as u128,
                Err(e) => {
                    return Err(PorsmoError::ParseIntError(e));
                },
            }
        },
        None => {
            if text.unicode_len() != 0 {
                return Err(PorsmoError::WrongFormatError);
            }
            0
        },
    };

    Ok(Duration { nanos: (hours + mins + secs) * NANOS_PER_SEC })
}

} // verus!
