//! The immutable record of what is being decided and who may decide it.

use vstd::prelude::*;
use crate::person::PersonId;

verus! {

/// A proposed action, fixed before any procedure begins and never mutated
/// afterwards.
pub struct Motion {
    pub title: &'static str,
    pub description: &'static str,
    /// 0 contributors - anonymous motions are possible
    pub developers: Vec<PersonId>,
    /// the group of people who may be affected by the motion, and who can
    /// therefore vote on it
    pub electors: Vec<PersonId>,
}

impl Motion {
    pub fn dev_count(&self) -> (n: usize)
        ensures
            n == self.developers@.len(),
    {
        self.developers.len()
    }

    pub fn elector_count(&self) -> (n: usize)
        ensures
            n == self.electors@.len(),
    {
        self.electors.len()
    }
}

} // verus!
