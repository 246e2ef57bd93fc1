//! A monetary amount stored as an integer count of the smallest unit.

use vstd::prelude::*;

verus! {

/// An amount of currency, held as a satoshi count.  The stored integer is
/// the single source of truth; any decimal form is a derived, lossy
/// projection computed outside this library.
#[derive(Debug, Clone, Copy)]
pub struct Amount {
    sat: u64,
}

impl View for Amount {
    type V = u64;

    closed spec fn view(&self) -> u64 {
        self.sat
    }
}

impl Amount {
    /// Wraps a satoshi count.  Total: every 64-bit value is a valid count.
    pub fn from_sat(satoshi: u64) -> (a: Amount)
        ensures
            a@ == satoshi,
    {
        Amount { sat: satoshi }
    }

    /// The stored satoshi count.
    pub fn sat(&self) -> (s: u64)
        ensures
            s == self@,
    {
        self.sat
    }
}

} // verus!
