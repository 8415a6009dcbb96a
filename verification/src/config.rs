//! The settings that a configuration file may hold, and how they are read
//! from its text.
//!
//! The file is TOML. Four entries of its root table are read:
//! `short_break_duration`, `long_break_duration` and `work_time_duration`,
//! each a string in the unit notation, and `long_break_frequency`, an
//! integer.

use crate::format::{parse_duration, read_duration, Reading};
use crate::time::Duration;
use vstd::prelude::*;
use vstd::string::StringExecFns;

verus! {

/// What a configuration file says; `None` for what it leaves out.
#[derive(Debug, Clone, Copy, PartialEq, Eq, Structural)]
pub struct AppConfig {
    pub short_break: Option<Duration>,
    pub long_break: Option<Duration>,
    pub long_break_frequency: Option<u32>,
    pub work_time: Option<Duration>,
}

/// A value of the `toml` crate. Nothing is read from it but through the
/// functions below.
#[verifier::external_type_specification]
#[verifier::external_body]
pub struct ExTomlValue(toml::Value);

/// The error of the `toml` crate for text that is no TOML. Nothing is read
/// from it but its text.
#[verifier::external_type_specification]
#[verifier::external_body]
pub struct ExTomlError(toml::de::Error);

/// The string entries of a TOML value that is a table, by their keys; the
/// empty map for any other value.
pub uninterp spec fn table_strings(value: toml::Value) -> Map<Seq<char>, Seq<char>>;

/// The integer entries of a TOML value that is a table, by their keys; the
/// empty map for any other value.
pub uninterp spec fn table_integers(value: toml::Value) -> Map<Seq<char>, i64>;

/// Whether a TOML value is a table.
pub uninterp spec fn table_like(value: toml::Value) -> bool;

/// What a TOML document holds, as far as the configuration reads it:
/// whether its root is a table, the string entries of the root and its
/// integer entries.
pub struct Document {
    pub table: bool,
    pub strings: Map<Seq<char>, Seq<char>>,
    pub integers: Map<Seq<char>, i64>,
}

/// What the text of a TOML document holds, or `None` where the text is no
/// TOML document.
pub uninterp spec fn toml_document(contents: Seq<char>) -> Option<Document>;

/// What a TOML value holds, as far as the configuration reads it.
pub open spec fn held(value: toml::Value) -> Document {
    Document {
        table: table_like(value),
        strings: table_strings(value),
        integers: table_integers(value),
    }
}

/// Reads TOML through `str::parse::<toml::Value>`, which takes the text as
/// a whole document. The parser looks at nothing but the text, so what
/// comes back is a function of the text: it is an error exactly for text
/// that is no document, and otherwise the value holds what the document
/// holds.
#[verifier::external_body]
fn parse_document(contents: &str) -> (parsed: Result<toml::Value, toml::de::Error>)
    ensures
        match toml_document(contents@) {
            Some(document) => parsed matches Ok(value) && held(value) == document,
            None => parsed is Err,
        },
{
    contents.parse::<toml::Value>()
}

/// Asks through `Value::is_table` whether a value is a table.
#[verifier::external_body]
fn is_table(value: &toml::Value) -> (table: bool)
    ensures
        table == table_like(*value),
{
    value.is_table()
}

/// Looks up a string entry through `Value::get` and `Value::as_str`: the
/// text of the entry under `key` if the value is a table that holds a
/// string there, and `None` otherwise.
#[verifier::external_body]
fn string_entry(value: &toml::Value, key: &str) -> (entry: Option<String>)
    ensures
        match entry {
            Some(text) => table_strings(*value).contains_key(key@) && table_strings(*value)[key@]
                == text@,
            None => !table_strings(*value).contains_key(key@),
        },
{
    value.get(key).and_then(toml::Value::as_str).map(String::from)
}

/// Looks up an integer entry through `Value::get` and `Value::as_integer`:
/// the number under `key` if the value is a table that holds an integer
/// there, and `None` otherwise.
#[verifier::external_body]
fn integer_entry(value: &toml::Value, key: &str) -> (entry: Option<i64>)
    ensures
        match entry {
            Some(number) => table_integers(*value).contains_key(key@) && table_integers(
                *value,
            )[key@] == number,
            None => !table_integers(*value).contains_key(key@),
        },
{
    value.get(key).and_then(toml::Value::as_integer)
}

/// The text of a TOML error, as its `Display` gives it. It is made for
/// people to read, and nothing is promised of it.
#[verifier::external_body]
fn error_text(error: &toml::de::Error) -> (text: String) {
    error.to_string()
}

/// The span that a setting in the unit notation stands for, or `None` where
/// the text is no span.
pub open spec fn setting_duration(text: Seq<char>) -> Option<Duration> {
    match read_duration(text) {
        Reading::Time(dur) => Some(dur),
        _ => None,
    }
}

/// A frequency as the configuration keeps it: the low 32 bits of the
/// number in the file.
pub open spec fn setting_frequency(number: i64) -> u32 {
    number as u32
}

/// The entry of `entries` under `key`, if there is one.
pub open spec fn lookup<V>(entries: Map<Seq<char>, V>, key: Seq<char>) -> Option<V> {
    if entries.contains_key(key) {
        Some(entries[key])
    } else {
        None
    }
}

impl AppConfig {
    /// The configuration that says nothing.
    pub open spec fn nothing() -> AppConfig {
        AppConfig { short_break: None, long_break: None, long_break_frequency: None, work_time: None }
    }

    /// The configuration after the four entries of a file are taken in.
    /// An entry that the file holds replaces what was there, also where its
    /// text is no span of time: the setting is then empty. An entry that
    /// the file does not hold changes nothing.
    pub open spec fn with_entries(
        self,
        short_break: Option<Seq<char>>,
        long_break: Option<Seq<char>>,
        long_break_frequency: Option<i64>,
        work_time: Option<Seq<char>>,
    ) -> AppConfig {
        AppConfig {
            short_break: match short_break {
                Some(text) => setting_duration(text),
                None => self.short_break,
            },
            long_break: match long_break {
                Some(text) => setting_duration(text),
                None => self.long_break,
            },
            long_break_frequency: match long_break_frequency {
                Some(number) => Some(setting_frequency(number)),
                None => self.long_break_frequency,
            },
            work_time: match work_time {
                Some(text) => setting_duration(text),
                None => self.work_time,
            },
        }
    }

    /// The configuration after the four entries of `document` are taken in.
    pub open spec fn with_held(self, document: Document) -> AppConfig {
        self.with_entries(
            lookup(document.strings, "short_break_duration"@),
            lookup(document.strings, "long_break_duration"@),
            lookup(document.integers, "long_break_frequency"@),
            lookup(document.strings, "work_time_duration"@),
        )
    }

    /// The configuration after the entries of the document `value` are
    /// taken in.
    pub open spec fn with_document(self, value: toml::Value) -> AppConfig {
        self.with_held(held(value))
    }

    /// The configuration after the text of a file is read into it: the
    /// entries of a document whose root is a table are taken in, and any
    /// other text leaves the configuration as it is.
    pub open spec fn with_text(self, contents: Seq<char>) -> AppConfig {
        match toml_document(contents) {
            Some(document) => if document.table {
                self.with_held(document)
            } else {
                self
            },
            None => self,
        }
    }

    /// The configuration that says nothing.
    pub fn empty() -> (config: Self)
        ensures
            config == AppConfig::nothing(),
    {
        AppConfig { short_break: None, long_break: None, long_break_frequency: None, work_time: None }
    }

    /// Reads one setting in the unit notation.
    pub fn duration_setting(text: &str) -> (setting: Option<Duration>)
        ensures
            setting == setting_duration(text@),
    {
        match parse_duration(text) {
            Ok(dur) => Some(dur),
            Err(_) => None,
        }
    }

    /// Takes in the four entries of a file.
    pub fn apply_entries(
        &mut self,
        short_break: Option<&str>,
        long_break: Option<&str>,
        long_break_frequency: Option<i64>,
        work_time: Option<&str>,
    )
        ensures
            *final(self) == old(self).with_entries(
                match short_break {
                    Some(text) => Some(text@),
                    None => None,
                },
                match long_break {
                    Some(text) => Some(text@),
                    None => None,
                },
                long_break_frequency,
                match work_time {
                    Some(text) => Some(text@),
                    None => None,
                },
            ),
    {
        if let Some(s) = short_break {
            self.short_break = Self::duration_setting(s);
        }
        if let Some(s) = long_break {
            self.long_break = Self::duration_setting(s);
        }
        if let Some(f) = long_break_frequency {
            self.long_break_frequency = Some(#[verifier::truncate] (f as u32));
        }
        if let Some(s) = work_time {
            self.work_time = Self::duration_setting(s);
        }
    }

    /// Takes in the entries of a document that was read. A document whose
    /// root is no table is refused, and the configuration stays as it is.
    pub fn apply_document(&mut self, value: &toml::Value) -> (done: Result<(), String>)
        ensures
            table_like(*value) ==> done.is_ok() && *final(self) == old(self).with_document(*value),
            !table_like(*value) ==> *final(self) == *old(self) && (done matches Err(message)
                && message@ == "TOML root is not a table"@),
    {
        if is_table(value) {
            let short_break = string_entry(value, "short_break_duration");
            let long_break = string_entry(value, "long_break_duration");
            let frequency = integer_entry(value, "long_break_frequency");
            let work_time = string_entry(value, "work_time_duration");
            self.apply_entries(
                match &short_break {
                    Some(s) => Some(s.as_str()),
                    None => None,
                },
                match &long_break {
                    Some(s) => Some(s.as_str()),
                    None => None,
                },
                frequency,
                match &work_time {
                    Some(s) => Some(s.as_str()),
                    None => None,
                },
            );
            Ok(())
        } else {
            Err(String::from_str("TOML root is not a table"))
        }
    }

    /// Reads the text of a configuration file into the configuration. Text
    /// that is no TOML, or whose root is no table, is refused with a
    /// message, and the configuration stays as it is; otherwise the entries
    /// of the document are taken in.
    pub fn load_from_text(&mut self, contents: &str) -> (done: Result<(), String>)
        ensures
            *final(self) == old(self).with_text(contents@),
            done.is_ok() == (toml_document(contents@) matches Some(document) && document.table),
            toml_document(contents@) matches Some(document) && !document.table ==> (
            done matches Err(message) && message@ == "TOML root is not a table"@),
            toml_document(contents@) is None ==> (done matches Err(message) && exists|
                detail: Seq<char>,
            |
                message@ == "TOML parse error: "@ + detail),
    {
        match parse_document(contents) {
            Ok(value) => self.apply_document(&value),
            Err(e) => {
                let mut message = String::from_str("TOML parse error: ");
                message.append(error_text(&e).as_str());
                Err(message)
            },
        }
    }
}

} // verus!
