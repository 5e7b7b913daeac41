//! Errors of drawing on the terminal.

use vstd::prelude::*;

verus! {

/// What can go wrong when drawing; each carries the message of the failed write.
#[derive(Debug)]
pub enum Error {
    DisplayFmtError { message: String },
    DisplayIoError { message: String },
}

impl Error {
    /// The error as displayed: `Error writing to the terminal: ` and the message.
    pub open spec fn spec_text(&self) -> Seq<char> {
        match self {
            Error::DisplayFmtError { message } => "Error writing to the terminal: "@ + message@,
            Error::DisplayIoError { message } => "Error writing to the terminal: "@ + message@,
        }
    }

    /// The error as displayed (see `spec_text`).
    pub fn text(&self) -> (s: String)
        ensures
            s@ == self.spec_text(),
    {
        let message = match self {
            Error::DisplayFmtError { message } => message,
            Error::DisplayIoError { message } => message,
        };
        let mut s = String::from_str("Error writing to the terminal: ");
        s.append(message.as_str());
        s
    }
}

} // verus!
