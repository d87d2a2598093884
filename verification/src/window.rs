//! The sliding-window store: a queue of fixed length, oldest entry first.

use crate::entry::WindowEntry;
use std::collections::VecDeque;
use vstd::prelude::*;

verus! {

/// A window of `count` slots that all hold the placeholder for `default_value`.
pub open spec fn filled(count: nat, default_value: u32) -> Seq<WindowEntry> {
    Seq::new(count, |i: int| WindowEntry::spec_placeholder(default_value))
}

/// The window `w` after `entry` arrived at the back and the oldest entry left
/// at the front. A window without slots keeps nothing.
pub open spec fn shifted(w: Seq<WindowEntry>, entry: WindowEntry) -> Seq<WindowEntry> {
    w.push(entry).skip(1)
}

/// The recent history of readings, oldest first. No operation changes how
/// many entries a window holds.
pub struct Window {
    entries: VecDeque<WindowEntry>,
}

impl View for Window {
    type V = Seq<WindowEntry>;

    closed spec fn view(&self) -> Seq<WindowEntry> {
        self.entries@
    }
}

impl Window {
    /// A window of `value_count` placeholder entries.
    pub fn new(value_count: usize, default_value: u32) -> (w: Window)
        ensures
            w@ == filled(value_count as nat, default_value),
    {
        let mut entries: VecDeque<WindowEntry> = VecDeque::new();
        let mut i: usize = 0;
        while i < value_count
            invariant
                i <= value_count,
                entries@ == filled(i as nat, default_value),
            decreases value_count - i,
        {
            entries.push_back(WindowEntry::placeholder(default_value));
            i = i + 1;
        }
        Window { entries }
    }

    /// The number of entries, which is the length the window was made with.
    pub fn len(&self) -> (n: usize)
        ensures
            n == self@.len(),
    {
        self.entries.len()
    }

    /// Drops the oldest entry and appends `entry` as the newest.
    pub fn push(&mut self, entry: WindowEntry)
        ensures
            final(self)@ == shifted(old(self)@, entry),
            final(self)@.len() == old(self)@.len(),
    {
        match self.entries.pop_front() {
            Some(_) => {
                self.entries.push_back(entry);
            },
            None => {},
        }
    }

    /// Replaces every entry with the placeholder for `default_value`.
    pub fn reset_all(&mut self, default_value: u32)
        ensures
            final(self)@ == filled(old(self)@.len(), default_value),
            final(self)@.len() == old(self)@.len(),
    {
        let count = self.entries.len();
        let mut i: usize = 0;
        while i < count
            invariant
                i <= count,
                count == old(self)@.len(),
                self@ == old(self)@.skip(i as int) + filled(i as nat, default_value),
            decreases count - i,
        {
            self.push(WindowEntry::placeholder(default_value));
            i = i + 1;
        }
    }

    /// A copy of the entries, oldest first.
    pub fn snapshot(&self) -> (entries: Vec<WindowEntry>)
        ensures
            entries@ == self@,
    {
        let count = self.entries.len();
        let mut out: Vec<WindowEntry> = Vec::new();
        let mut i: usize = 0;
        while i < count
            invariant
                i <= count,
                count == self.entries@.len(),
                out@ == self.entries@.take(i as int),
            decreases count - i,
        {
            out.push(self.entries[i]);
            i = i + 1;
        }
        out
    }
}

} // verus!
