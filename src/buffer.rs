use crate::seq_size::{
    elements_heap_size, lemma_seq_seen_grows, seq_heap, seq_seen, spare, spare_slots,
};
use crate::size::{stack_size, GetSize};
use crate::tracker::GetSizeTracker;
use vstd::prelude::*;

verus! {

/// Heap bytes of a growable buffer: one stack-sized slot for each live element and
/// each spare slot, plus what the live elements own.
pub open spec fn buffer_heap(
    capacity: nat,
    len: nat,
    slot: nat,
    elements: nat,
) -> nat {
    (len + spare(capacity, len)) * slot + elements
}

/// Computes `buffer_heap` from the sizes of its parts.
pub fn buffer_heap_size(capacity: usize, len: usize, slot: usize, elements: usize) -> (r: usize)
    requires
        buffer_heap(capacity as nat, len as nat, slot as nat, elements as nat) <= usize::MAX,
    ensures
        r == buffer_heap(capacity as nat, len as nat, slot as nat, elements as nat),
{
    let sp = spare_slots(capacity, len);
    let slots = len + sp;
    proof {
        assert(slots * slot <= buffer_heap(capacity as nat, len as nat, slot as nat, elements as nat));
    }
    slots * slot + elements
}

/// An owned growable buffer: its live elements and the number of slots allocated
/// for them.
pub struct Buffer<T> {
    pub items: Vec<T>,
    pub capacity: usize,
}

impl<T> Buffer<T> {
    /// A buffer that holds `items` with no spare slot.
    pub fn from_vec(items: Vec<T>) -> (r: Self)
        ensures
            r.items@ == items@,
            r.capacity == items@.len(),
    {
        let capacity = items.len();
        Buffer { items, capacity }
    }

    /// A buffer that holds `items` in `capacity` allocated slots.
    pub fn with_capacity(items: Vec<T>, capacity: usize) -> (r: Self)
        ensures
            r.items@ == items@,
            r.capacity == capacity,
    {
        Buffer { items, capacity }
    }

    pub fn len(&self) -> (r: usize)
        ensures
            r == self.items@.len(),
    {
        self.items.len()
    }
}

impl<T: GetSize> GetSize for Buffer<T> {
    open spec fn heap_size(&self, seen: Set<usize>, remembers: bool) -> nat {
        buffer_heap(
            self.capacity as nat,
            self.items@.len(),
            stack_size::<T>(),
            seq_heap(self.items@, seen, remembers),
        )
    }

    open spec fn seen_after(&self, seen: Set<usize>, remembers: bool) -> Set<usize> {
        seq_seen(self.items@, seen, remembers)
    }

    proof fn lemma_seen_grows(&self, seen: Set<usize>, remembers: bool) {
        lemma_seq_seen_grows(self.items@, seen, remembers);
    }

    fn get_heap_size<Tr: GetSizeTracker>(&self, tracker: &mut Tr) -> (r: usize) {
        let slot = T::get_stack_size();
        let elements = elements_heap_size(&self.items, tracker);
        buffer_heap_size(self.capacity, self.items.len(), slot, elements)
    }
}

/// An associative container: its live entries and the number of entry slots
/// allocated for them.
pub struct Table<K, V> {
    pub entries: Vec<(K, V)>,
    pub capacity: usize,
}

impl<K, V> Table<K, V> {
    /// A table that holds `entries` with no spare slot.
    pub fn from_vec(entries: Vec<(K, V)>) -> (r: Self)
        ensures
            r.entries@ == entries@,
            r.capacity == entries@.len(),
    {
        let capacity = entries.len();
        Table { entries, capacity }
    }

    /// A table that holds `entries` in `capacity` allocated slots.
    pub fn with_capacity(entries: Vec<(K, V)>, capacity: usize) -> (r: Self)
        ensures
            r.entries@ == entries@,
            r.capacity == capacity,
    {
        Table { entries, capacity }
    }

    pub fn len(&self) -> (r: usize)
        ensures
            r == self.entries@.len(),
    {
        self.entries.len()
    }
}

/// Each entry slot, live or spare, holds a key and a value; each live entry adds what
/// its key and value own.
impl<K: GetSize, V: GetSize> GetSize for Table<K, V> {
    open spec fn heap_size(&self, seen: Set<usize>, remembers: bool) -> nat {
        buffer_heap(
            self.capacity as nat,
            self.entries@.len(),
            stack_size::<K>() + stack_size::<V>(),
            seq_heap(self.entries@, seen, remembers),
        )
    }

    open spec fn seen_after(&self, seen: Set<usize>, remembers: bool) -> Set<usize> {
        seq_seen(self.entries@, seen, remembers)
    }

    proof fn lemma_seen_grows(&self, seen: Set<usize>, remembers: bool) {
        lemma_seq_seen_grows(self.entries@, seen, remembers);
    }

    fn get_heap_size<Tr: GetSizeTracker>(&self, tracker: &mut Tr) -> (r: usize) {
        let ks = K::get_stack_size();
        let vs = V::get_stack_size();
        let elements = elements_heap_size(&self.entries, tracker);
        let slots = self.entries.len() + spare_slots(self.capacity, self.entries.len());
        if slots == 0 {
            proof {
                assert(0 * (ks + vs) == 0);
            }
            return elements;
        }
        proof {
            assert(slots * (ks + vs) >= ks + vs) by (nonlinear_arith)
                requires
                    slots >= 1,
            ;
        }
        let slot = ks + vs;
        buffer_heap_size(self.capacity, self.entries.len(), slot, elements)
    }
}

} // verus!
