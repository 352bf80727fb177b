//! Append-only dense storage for lowered entities.
//!
//! An arena owns all values of one kind; an index into it is a stable,
//! copyable identity, valid relative to the arena instance that produced
//! it. Arenas never remove values, so an index, once handed out, keeps
//! denoting the same value.

use vstd::prelude::*;

verus! {

/// Append-only dense store. The view of an arena is the sequence of the
/// values allocated so far, in allocation order; an index is a position
/// in that sequence.
#[derive(PartialEq, Eq, Debug)]
pub struct Arena<T> {
    items: Vec<T>,
}

impl<T> View for Arena<T> {
    type V = Seq<T>;

    closed spec fn view(&self) -> Seq<T> {
        self.items@
    }
}

impl<T> Arena<T> {
    /// An empty arena; no identity has been handed out yet.
    pub fn new() -> (arena: Arena<T>)
        ensures
            arena@ =~= Seq::<T>::empty(),
    {
        Arena { items: Vec::new() }
    }

    /// How many values the arena holds.
    pub fn len(&self) -> (n: usize)
        ensures
            n == self@.len(),
    {
        self.items.len()
    }

    /// Allocates a value, returning its identity: the position just past
    /// the values allocated before it. All earlier identities keep their
    /// values.
    pub fn allocate(&mut self, value: T) -> (idx: usize)
        ensures
            idx == old(self)@.len(),
            final(self)@ =~= old(self)@.push(value),
    {
        let idx = self.items.len();
        self.items.push(value);
        idx
    }

    /// An arena is backed by one dense allocation, so the number of
    /// values it holds always fits the machine's word.
    pub proof fn lemma_len_bounded(&self)
        ensures
            self@.len() <= usize::MAX,
    {
        assert(vstd::std_specs::vec::spec_vec_len(&self.items) == self.items@.len());
    }

    /// Borrows the value an identity denotes.
    pub fn get(&self, idx: usize) -> (value: &T)
        requires
            idx < self@.len(),
        ensures
            *value == self@[idx as int],
    {
        &self.items[idx]
    }
}

impl<T: Clone> Clone for Arena<T> {
    fn clone(&self) -> (other: Self) {
        Arena { items: self.items.clone() }
    }
}

/// A contiguous, half-open range `[start, end)` of identities in one arena,
/// captured by snapshotting the arena length before and after a run of
/// allocations.
#[derive(Clone, Copy, PartialEq, Eq, Structural, Hash, Debug)]
pub struct IdRange {
    pub start: usize,
    pub end: usize,
}

impl IdRange {
    /// A range is well formed when its bounds are ordered.
    pub open spec fn wf(self) -> bool {
        self.start <= self.end
    }

    /// How many identities the range spans.
    pub open spec fn spec_len(self) -> int {
        self.end - self.start
    }

    /// Whether an identity falls inside the range.
    pub open spec fn spec_contains(self, idx: int) -> bool {
        self.start <= idx < self.end
    }

    /// Two ranges are disjoint when no identity falls inside both.
    pub open spec fn disjoint(self, other: IdRange) -> bool {
        self.end <= other.start || other.end <= self.start
    }

    pub fn new(start: usize, end: usize) -> (range: IdRange)
        requires
            start <= end,
        ensures
            range == (IdRange { start, end }),
    {
        IdRange { start, end }
    }

    /// How many identities the range spans.
    pub fn len(&self) -> (n: usize)
        requires
            self.wf(),
        ensures
            n == self.spec_len(),
    {
        self.end - self.start
    }
}

} // verus!
