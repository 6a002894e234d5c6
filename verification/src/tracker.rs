//! The table of outstanding allocations.
//!
//! Every buffer that was allocated and not yet reclaimed has one entry here:
//! its address, and under it the number of bytes that were allocated there.
//! The table is the only witness that an address still owns memory, so nothing
//! is read at an address that has no entry.
//!
//! A registry is made once for a guest instance and changed only through
//! `&mut`: a `record` and a `take` never overlap. An owner that shares one
//! between threads puts it behind a single lock.

use std::collections::HashMap;
use vstd::prelude::*;
use vstd::std_specs::hash::*;

verus! {

broadcast use group_hash_axioms;

/// The registry of one guest instance: address to allocated length.
pub struct Tracker {
    entries: HashMap<usize, usize>,
}

impl View for Tracker {
    type V = Map<usize, usize>;

    /// The outstanding allocations as a map from address to length.
    closed spec fn view(&self) -> Map<usize, usize> {
        self.entries@
    }
}

impl Tracker {
    /// A registry with no outstanding allocation.
    pub fn new() -> (tracker: Tracker)
        ensures
            tracker@ == Map::<usize, usize>::empty(),
    {
        Tracker { entries: HashMap::new() }
    }

    /// Whether `address` is outstanding in this registry.
    pub open spec fn tracks(&self, address: usize) -> bool {
        self@.contains_key(address)
    }

    /// Records that `length` bytes are outstanding at `address`.
    ///
    /// An entry that is already there is overwritten: the last length wins.
    /// Every other entry stays as it was.
    pub fn record(&mut self, address: usize, length: usize)
        ensures
            final(self)@ == old(self)@.insert(address, length),
    {
        self.entries.insert(address, length);
    }

    /// Removes the entry of `address` and returns its length; `None`, with the
    /// registry unchanged, where `address` has no entry.
    ///
    /// Nothing else removes an entry.
    pub fn take(&mut self, address: usize) -> (length: Option<usize>)
        ensures
            length == (if old(self).tracks(address) {
                Some(old(self)@[address])
            } else {
                None::<usize>
            }),
            final(self)@ == old(self)@.remove(address),
            !final(self).tracks(address),
    {
        self.entries.remove(&address)
    }

    /// The length recorded for `address`, if it is outstanding. The registry
    /// is left as it is.
    pub fn length_at(&self, address: usize) -> (length: Option<usize>)
        ensures
            length == (if self.tracks(address) {
                Some(self@[address])
            } else {
                None::<usize>
            }),
    {
        match self.entries.get(&address) {
            Some(length) => Some(*length),
            None => None,
        }
    }

    /// The number of outstanding allocations.
    pub fn outstanding(&self) -> (count: usize)
        ensures
            count == self@.len(),
    {
        self.entries.len()
    }
}

/// A second `take` of the same address finds nothing: once an entry has been
/// taken, the address is outstanding no more, whatever the registry held.
pub proof fn lemma_taken_is_gone(before: Map<usize, usize>, address: usize)
    ensures
        !before.remove(address).contains_key(address),
        before.remove(address).remove(address) == before.remove(address),
{
    assert(before.remove(address).remove(address) =~= before.remove(address));
}

/// `take` undoes `record` on an address that was not outstanding, and gives
/// the recorded length back whether or not it was.
pub proof fn lemma_record_then_take(before: Map<usize, usize>, address: usize, length: usize)
    ensures
        before.insert(address, length).contains_key(address),
        before.insert(address, length)[address] == length,
        before.insert(address, length).remove(address) == before.remove(address),
        !before.contains_key(address) ==> before.insert(address, length).remove(address) == before,
{
    assert(before.insert(address, length).remove(address) =~= before.remove(address));
    if !before.contains_key(address) {
        assert(before.remove(address) =~= before);
    }
}

/// Recording or taking one address leaves the entry of every other address
/// as it was.
pub proof fn lemma_other_addresses_untouched(
    before: Map<usize, usize>,
    address: usize,
    length: usize,
    other: usize,
)
    requires
        other != address,
    ensures
        before.insert(address, length).contains_key(other) == before.contains_key(other),
        before.remove(address).contains_key(other) == before.contains_key(other),
        before.contains_key(other) ==> before.insert(address, length)[other] == before[other]
            && before.remove(address)[other] == before[other],
{
}

} // verus!
