//! A staged decision procedure for passing motions by majority rule.
//!
//! A motion moves through four stages: `Prototype` (its developers vote to
//! propose it), `Proposal` (public debate until a fixed deadline), `Petition`
//! (a random sample of the electorate approves it), and `Referendum` (the
//! full electorate votes for or against). Each transition consumes the old
//! stage value and is gated by a majority or deadline check; a failed
//! transition hands the caller's value back unchanged.

pub mod motion;
pub mod person;
pub mod procedure;
pub mod ratio;
mod sampling;
pub mod time;

pub use motion::Motion;
pub use person::{Person, PersonId, PersonList};
pub use procedure::Procedure;
