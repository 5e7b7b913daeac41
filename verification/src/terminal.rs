//! Errors of the terminal the game runs in.

use vstd::prelude::*;

verus! {

/// What can go wrong with the terminal; each carries the message of the failed operation.
#[derive(Debug)]
pub enum Error {
    RawModeError { message: String },
    TtyError { message: String },
    WriteError { message: String },
}

impl Error {
    /// The error as displayed: what failed, `: ` and the message of the failure.
    pub open spec fn spec_text(&self) -> Seq<char> {
        match self {
            Error::RawModeError { message } => "Unable switch output to raw mode: "@ + message@,
            Error::TtyError { message } => "Unable to get TTY: "@ + message@,
            Error::WriteError { message } => "Unable write to output: "@ + message@,
        }
    }

    /// The error as displayed (see `spec_text`).
    pub fn text(&self) -> (s: String)
        ensures
            s@ == self.spec_text(),
    {
        let (prefix, message) = match self {
            Error::RawModeError { message } => ("Unable switch output to raw mode: ", message),
            Error::TtyError { message } => ("Unable to get TTY: ", message),
            Error::WriteError { message } => ("Unable write to output: ", message),
        };
        let mut s = String::from_str(prefix);
        s.append(message.as_str());
        s
    }
}

} // verus!
