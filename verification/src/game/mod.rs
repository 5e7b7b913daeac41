//! A model of a Klondike game with cards that know whether they face up: a table of piles, a
//! game whose selection walks over fixed areas, and a game whose areas take and give the focus.

use vstd::prelude::*;

use crate::utils::{decimal, spec_decimal};

pub mod card;
pub mod deck;
pub mod focus;
pub mod klondike;
pub mod stack;
pub mod table;






verus! {

/// Errors of the card model.
#[derive(Copy, Clone, Debug, PartialEq, Eq, Structural)]
pub enum Error {
    /// A rank outside `1..=13`.
    InvalidRank { value: u8 },
}

impl Error {
    /// The message of the error: `invalid rank: ` and the value.
    pub open spec fn spec_message(self) -> Seq<char> {
        match self {
            Error::InvalidRank { value } => "invalid rank: "@ + spec_decimal(value as nat),
        }
    }

    /// The message of the error, as it is displayed.
    pub fn message(&self) -> (s: String)
        ensures
            s@ == self.spec_message(),
    {
        match self {
            Error::InvalidRank { value } => {
                let mut s = String::from_str("invalid rank: ");
                let number = decimal(*value as u64);
                s.append(number.as_str());
                s
            },
        }
    }
}

} // verus!
