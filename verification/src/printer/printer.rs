//! The printer's rule: what is written for an item, by output format.

use vstd::prelude::*;
use vstd::string::StringExecFns;
use crate::error::{CommandError, CommandErrorView};
use crate::output::OutputFmt;

verus! {

/// The error of `serde_json`, `serde_json::Error`. It is carried from the
/// encoder to the place where it becomes a failure of this library, and
/// nothing is read of it.
#[verifier::external_type_specification]
#[verifier::external_body]
pub struct ExJsonError(serde_json::Error);

/// The JSON text that `serde_json::to_string` writes for a text value.
pub uninterp spec fn json_text(data: Seq<char>) -> Seq<char>;

/// `serde_json::to_string` on a text value. It succeeds, and the result is
/// the compact JSON text of the value, the same for the same value. The
/// encoder fails only where the value refuses to be written or the writer
/// does: a text never refuses, and the writer is a vector in memory.
#[verifier::external_body]
fn json_encode(data: &str) -> (r: Result<String, serde_json::Error>)
    ensures
        r is Ok,
        r matches Ok(t) ==> t@ == json_text(data@),
{
    serde_json::to_string(data)
}

/// The printer of a command: it writes results to the standard output and
/// logs beside them, in the format it was made with.
#[derive(Clone, Copy, Debug, PartialEq, Eq, Structural)]
pub struct StdoutPrinter {
    pub fmt: OutputFmt,
}

/// What is written for a result, given what the JSON encoder made of it.
pub open spec fn spec_written(
    fmt: OutputFmt,
    data: Seq<char>,
    encoded: Option<Seq<char>>,
) -> Result<Seq<char>, CommandErrorView> {
    match fmt {
        OutputFmt::Plain => Ok(data),
        OutputFmt::Json => match encoded {
            Some(t) => Ok(t),
            None => Err(CommandErrorView::CannotWriteJson),
        },
    }
}

/// An encoder's answer without its error.
pub open spec fn encoded_view(encoded: Result<String, serde_json::Error>) -> Option<Seq<char>> {
    match encoded {
        Ok(t) => Some(t@),
        Err(_) => None,
    }
}

/// A written text, or the failure to write, as a mathematical value.
pub open spec fn written_view(r: Result<String, CommandError>) -> Result<
    Seq<char>,
    CommandErrorView,
> {
    match r {
        Ok(t) => Ok(t@),
        Err(e) => Err(e@),
    }
}

/// What is written for a result: in plain format the text itself, in JSON
/// format what the encoder made of it, and a failure where the encoder failed.
pub fn written(fmt: OutputFmt, data: &str, encoded: Result<String, serde_json::Error>) -> (r:
    Result<String, CommandError>)
    ensures
        written_view(r) == spec_written(fmt, data@, encoded_view(encoded)),
{
    match fmt {
        OutputFmt::Plain => Ok(String::from_str(data)),
        OutputFmt::Json => match encoded {
            Ok(t) => Ok(t),
            Err(_) => Err(CommandError::CannotWriteJson),
        },
    }
}

impl Default for StdoutPrinter {
    fn default() -> (r: Self)
        ensures
            r.fmt == OutputFmt::Plain,
    {
        StdoutPrinter { fmt: OutputFmt::Plain }
    }
}

impl From<OutputFmt> for StdoutPrinter {
    fn from(fmt: OutputFmt) -> (r: Self) {
        StdoutPrinter { fmt }
    }
}

impl vstd::std_specs::convert::FromSpecImpl<OutputFmt> for StdoutPrinter {
    open spec fn obeys_from_spec() -> bool {
        true
    }

    open spec fn from_spec(fmt: OutputFmt) -> Self {
        StdoutPrinter { fmt }
    }
}

impl StdoutPrinter {
    pub fn new(fmt: OutputFmt) -> (r: Self)
        ensures
            r.fmt == fmt,
    {
        StdoutPrinter { fmt }
    }

    pub fn is_json(&self) -> (r: bool)
        ensures
            r == (self.fmt == OutputFmt::Json),
    {
        match self.fmt {
            OutputFmt::Json => true,
            OutputFmt::Plain => false,
        }
    }

    /// What is written for a log: the text in plain format, nothing in JSON
    /// format, where only the result is written.
    pub fn print_log(&self, data: &str) -> (r: Option<String>)
        ensures
            self.fmt == OutputFmt::Plain ==> (r matches Some(t) && t@ == data@),
            self.fmt == OutputFmt::Json ==> r is None,
    {
        match self.fmt {
            OutputFmt::Plain => Some(String::from_str(data)),
            OutputFmt::Json => None,
        }
    }

    /// What is written for a result: the text in plain format, its JSON text
    /// in JSON format. A text can always be written in both.
    pub fn print(&self, data: &str) -> (r: Result<String, CommandError>)
        ensures
            self.fmt == OutputFmt::Plain ==> written_view(r) == Ok::<Seq<char>, CommandErrorView>(
                data@,
            ),
            self.fmt == OutputFmt::Json ==> written_view(r) == Ok::<Seq<char>, CommandErrorView>(
                json_text(data@),
            ),
    {
        match self.fmt {
            OutputFmt::Plain => Ok(String::from_str(data)),
            OutputFmt::Json => written(self.fmt, data, json_encode(data)),
        }
    }
}

} // verus!
