//! Classification of a child process's failed output, with one flat
//! human-readable message per failure shape. The OS-level error values are
//! carried here already rendered as plain text.

use vstd::prelude::*;
use vstd::string::StringExecFns;

use crate::decimal::decimal_i32;
use crate::decimal::spec_decimal_int;

verus! {

#[derive(Debug, PartialEq, Eq, Clone)]
pub enum OutputError {
    /// Non-zero exit code
    Code(i32),
    /// IO error, rendered as text
    Io(String),
    /// Terminated by signal
    Signal(i32),
    /// Unknown failure
    Unknown,
    /// Stdout not UTF-8; the conversion error, rendered as text
    Utf8(String),
}

/// The canonical message for each failure shape.
pub open spec fn spec_output_error_message(e: OutputError) -> Seq<char> {
    match e {
        OutputError::Code(code) => "Process exited with status code "@ + spec_decimal_int(
            code as int,
        ),
        OutputError::Io(io_error) => "Error executing process: "@ + io_error@,
        OutputError::Signal(signal) => "Process terminated by signal "@ + spec_decimal_int(
            signal as int,
        ),
        OutputError::Unknown => "Process experienced an unknown failure"@,
        OutputError::Utf8(err) => "Could not convert process stdout to UTF-8: "@ + err@,
    }
}

impl OutputError {
    /// The human-readable message for this failure.
    pub fn message(&self) -> (r: String)
        ensures
            r@ == spec_output_error_message(*self),
    {
        match self {
            OutputError::Code(code) => {
                let mut s = "Process exited with status code ".to_owned();
                s.append(decimal_i32(*code).as_str());
                s
            },
            OutputError::Io(io_error) => {
                let mut s = "Error executing process: ".to_owned();
                s.append(io_error.as_str());
                s
            },
            OutputError::Signal(signal) => {
                let mut s = "Process terminated by signal ".to_owned();
                s.append(decimal_i32(*signal).as_str());
                s
            },
            OutputError::Unknown => "Process experienced an unknown failure".to_owned(),
            OutputError::Utf8(err) => {
                let mut s = "Could not convert process stdout to UTF-8: ".to_owned();
                s.append(err.as_str());
                s
            },
        }
    }
}

} // verus!
