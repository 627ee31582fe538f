use crate::size::{stack_size, GetSize};
use crate::tracker::GetSizeTracker;
use std::rc::Rc;
use std::sync::Arc;
use vstd::prelude::*;

verus! {

/// Relies on `Rc::as_ptr`: the address of the shared allocation, read as an integer.
#[verifier::external_body]
fn allocation_address<T>(rc: &Rc<T>) -> (r: usize) {
    Rc::as_ptr(rc).addr()
}

/// A shared-ownership handle: every handle made from it by `share` points to the
/// same allocation and carries the same address.
pub struct Shared<T> {
    addr: usize,
    rc: Rc<T>,
}

impl<T> Shared<T> {
    /// The address that identifies the shared allocation.
    pub closed spec fn address(&self) -> usize {
        self.addr
    }

    /// The shared value.
    pub closed spec fn pointee(&self) -> T {
        *self.rc
    }

    pub fn new(value: T) -> (r: Self)
        ensures
            r.pointee() == value,
    {
        let rc = Rc::new(value);
        let addr = allocation_address(&rc);
        Shared { addr, rc }
    }

    /// Another owner of the same allocation.
    pub fn share(&self) -> (r: Self)
        ensures
            r.address() == self.address(),
            r.pointee() == self.pointee(),
    {
        Shared { addr: self.addr, rc: self.rc.clone() }
    }

    pub fn get(&self) -> (r: &T)
        ensures
            *r == self.pointee(),
    {
        &*self.rc
    }
}

/// Relies on `Arc::as_ptr`: the address of the shared allocation, read as an integer.
#[verifier::external_body]
fn sync_allocation_address<T>(arc: &Arc<T>) -> (r: usize) {
    Arc::as_ptr(arc).addr()
}

/// A thread-safe shared-ownership handle: every handle made from it by `share`
/// points to the same allocation and carries the same address.
pub struct SyncShared<T> {
    addr: usize,
    arc: Arc<T>,
}

impl<T> SyncShared<T> {
    /// The address that identifies the shared allocation.
    pub closed spec fn address(&self) -> usize {
        self.addr
    }

    /// The shared value.
    pub closed spec fn pointee(&self) -> T {
        *self.arc
    }

    pub fn new(value: T) -> (r: Self)
        ensures
            r.pointee() == value,
    {
        let arc = Arc::new(value);
        let addr = sync_allocation_address(&arc);
        SyncShared { addr, arc }
    }

    /// Another owner of the same allocation.
    pub fn share(&self) -> (r: Self)
        ensures
            r.address() == self.address(),
            r.pointee() == self.pointee(),
    {
        SyncShared { addr: self.addr, arc: self.arc.clone() }
    }

    pub fn get(&self) -> (r: &T)
        ensures
            *r == self.pointee(),
    {
        &*self.arc
    }
}

/// Heap bytes that a shared handle at `addr` adds for a pointee of `stack` bytes
/// owning `heap` more: all of it on the first visit to `addr`, nothing after.
pub open spec fn shared_heap(seen: Set<usize>, addr: usize, stack: nat, heap: nat) -> nat {
    if seen.contains(addr) {
        0
    } else {
        stack + heap
    }
}

/// The addresses a tracker has seen once it is shown `addr`.
pub open spec fn seen_with(seen: Set<usize>, addr: usize, remembers: bool) -> Set<usize> {
    if remembers {
        seen.insert(addr)
    } else {
        seen
    }
}

/// The tracker is consulted once for the allocation's address; only on the first
/// visit does the pointee count, with its stack size and its own heap size.
impl<T: GetSize + 'static> GetSize for Shared<T> {
    open spec fn heap_size(&self, seen: Set<usize>, remembers: bool) -> nat {
        shared_heap(
            seen,
            self.address(),
            stack_size::<T>(),
            self.pointee().heap_size(seen_with(seen, self.address(), remembers), remembers),
        )
    }

    open spec fn seen_after(&self, seen: Set<usize>, remembers: bool) -> Set<usize> {
        if seen.contains(self.address()) {
            seen
        } else {
            self.pointee().seen_after(seen_with(seen, self.address(), remembers), remembers)
        }
    }

    proof fn lemma_seen_grows(&self, seen: Set<usize>, remembers: bool) {
        self.pointee().lemma_seen_grows(seen_with(seen, self.address(), remembers), remembers);
    }

    fn get_heap_size<Tr: GetSizeTracker>(&self, tracker: &mut Tr) -> (r: usize) {
        let handle = self.rc.clone();
        if tracker.track(self.addr, handle) {
            let s = T::get_stack_size();
            let h = (*self.rc).get_heap_size(tracker);
            s + h
        } else {
            0
        }
    }
}

/// Counted as `Shared` is: once per address and tracker.
impl<T: GetSize + 'static> GetSize for SyncShared<T> {
    open spec fn heap_size(&self, seen: Set<usize>, remembers: bool) -> nat {
        shared_heap(
            seen,
            self.address(),
            stack_size::<T>(),
            self.pointee().heap_size(seen_with(seen, self.address(), remembers), remembers),
        )
    }

    open spec fn seen_after(&self, seen: Set<usize>, remembers: bool) -> Set<usize> {
        if seen.contains(self.address()) {
            seen
        } else {
            self.pointee().seen_after(seen_with(seen, self.address(), remembers), remembers)
        }
    }

    proof fn lemma_seen_grows(&self, seen: Set<usize>, remembers: bool) {
        self.pointee().lemma_seen_grows(seen_with(seen, self.address(), remembers), remembers);
    }

    fn get_heap_size<Tr: GetSizeTracker>(&self, tracker: &mut Tr) -> (r: usize) {
        let handle = self.arc.clone();
        if tracker.track(self.addr, handle) {
            let s = T::get_stack_size();
            let h = (*self.arc).get_heap_size(tracker);
            s + h
        } else {
            0
        }
    }
}

} // verus!
