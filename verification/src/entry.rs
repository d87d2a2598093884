//! One timestamped reading.

use vstd::prelude::*;

verus! {

/// A reading together with the second at which it was taken.
///
/// `value` holds the measurement as the bit pattern of a 32-bit IEEE-754
/// number, so that entries compare and copy as plain integers. A `timestamp`
/// of zero marks a slot that no submission has filled yet.
#[derive(Clone, Copy, Debug, PartialEq, Eq, Structural)]
pub struct WindowEntry {
    pub value: u32,
    pub timestamp: u64,
}

impl WindowEntry {
    /// The entry that fills a slot before any reading arrives.
    pub open spec fn spec_placeholder(default_value: u32) -> WindowEntry {
        WindowEntry { value: default_value, timestamp: 0 }
    }

    /// True when no submission has filled this slot.
    pub open spec fn spec_is_placeholder(self) -> bool {
        self.timestamp == 0
    }

    /// Makes the entry that fills a slot before any reading arrives.
    #[verifier::when_used_as_spec(spec_placeholder)]
    pub fn placeholder(default_value: u32) -> (entry: WindowEntry)
        ensures
            entry == WindowEntry::spec_placeholder(default_value),
    {
        WindowEntry { value: default_value, timestamp: 0 }
    }

    /// Tells whether no submission has filled this slot.
    #[verifier::when_used_as_spec(spec_is_placeholder)]
    pub fn is_placeholder(self) -> (r: bool)
        ensures
            r == self.spec_is_placeholder(),
    {
        self.timestamp == 0
    }
}

} // verus!
