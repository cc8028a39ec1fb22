//! The codes with which the program ends.

use vstd::prelude::*;
use vstd::string::StringExecFns;

verus! {

/// The exit codes of the program.
#[derive(Clone, Copy, Debug, PartialEq, Eq, Structural)]
pub enum Code {
    /// The program ran as expected (code `0`).
    Success,
    /// The game engine failed (code `1`).
    PistonFailure,
    /// An I/O operation failed (code `2`).
    IOFailure,
}

impl Code {
    /// The number that stands for the code.
    pub open spec fn number(self) -> i32 {
        match self {
            Code::Success => 0i32,
            Code::PistonFailure => 1i32,
            Code::IOFailure => 2i32,
        }
    }
}

/// The line that tells of a failure with the given description, as it is
/// shown before the program ends.
pub fn failure_line(description: &str) -> (line: String)
    ensures
        line@ == "Error: "@ + description@,
{
    String::from_str("Error: ").concat(description)
}

impl From<Code> for i32 {
    fn from(code: Code) -> (number: i32) {
        match code {
            Code::Success => 0,
            Code::PistonFailure => 1,
            Code::IOFailure => 2,
        }
    }
}

impl vstd::std_specs::convert::FromSpecImpl<Code> for i32 {
    open spec fn obeys_from_spec() -> bool {
        true
    }

    open spec fn from_spec(code: Code) -> i32 {
        code.number()
    }
}

} // verus!
