use std::collections::BTreeMap;
use vstd::prelude::*;

verus! {

broadcast use vstd::laws_cmp::group_laws_cmp;

/// A tracker which makes sure that shared ownership objects are only accounted for once.
///
/// Its abstract state is the set of addresses already accounted for, and whether it
/// remembers the addresses it is shown at all.
pub trait GetSizeTracker {
    /// The addresses accounted for so far.
    spec fn seen(&self) -> Set<usize>;

    /// Whether `track` records the addresses it is shown.
    spec fn remembers(&self) -> bool;

    /// Tracks a strong shared ownership object `strong_ref` which points to an
    /// allocation located at `addr`.
    ///
    /// Returns `true` exactly when `addr` has not been seen yet. A tracker that
    /// remembers keeps `strong_ref` alive for its own lifetime, so that `addr` stays
    /// a valid identity for the rest of the computation.
    fn track<A: 'static>(&mut self, addr: usize, strong_ref: A) -> (r: bool)
        ensures
            r == !old(self).seen().contains(addr),
            final(self).remembers() == old(self).remembers(),
            final(self).seen() == (if old(self).remembers() {
                old(self).seen().insert(addr)
            } else {
                old(self).seen()
            }),
    ;
}

impl<T: GetSizeTracker> GetSizeTracker for Box<T> {
    open spec fn seen(&self) -> Set<usize> {
        (**self).seen()
    }

    open spec fn remembers(&self) -> bool {
        (**self).remembers()
    }

    fn track<A: 'static>(&mut self, addr: usize, strong_ref: A) -> (r: bool) {
        (**self).track(addr, strong_ref)
    }
}

/// A strong handle held by a tracker only so that the allocation it points to stays
/// alive; it is never read back.
#[verifier::external_body]
pub struct Retained {
    handle: Box<dyn std::any::Any>,
}

/// Relies on `Box::new` and the unsizing coercion to `Box<dyn Any>`: the handle is
/// moved into a type-erased box and nothing is computed.
#[verifier::external_body]
fn retain<A: 'static>(strong_ref: A) -> (r: Retained) {
    Retained { handle: Box::new(strong_ref) }
}

/// A simple standard tracker which can be used to track shared ownership references.
pub struct StandardTracker {
    inner: BTreeMap<usize, Retained>,
}

impl StandardTracker {
    /// The addresses accounted for so far.
    pub closed spec fn view(&self) -> Set<usize> {
        self.inner@.dom()
    }

    pub fn new() -> (r: Self)
        ensures
            r@ == Set::<usize>::empty(),
    {
        let r = StandardTracker { inner: BTreeMap::new() };
        assert(r@ =~= Set::<usize>::empty());
        r
    }

    /// Forgets every address, so that the tracker can serve a new computation.
    pub fn clear(&mut self)
        ensures
            final(self)@ == Set::<usize>::empty(),
    {
        self.inner.clear();
        assert(self@ =~= Set::<usize>::empty());
    }
}

impl GetSizeTracker for StandardTracker {
    open spec fn seen(&self) -> Set<usize> {
        self@
    }

    open spec fn remembers(&self) -> bool {
        true
    }

    fn track<A: 'static>(&mut self, addr: usize, strong_ref: A) -> (r: bool) {
        if self.inner.contains_key(&addr) {
            false
        } else {
            self.inner.insert(addr, retain(strong_ref));
            assert(self@ =~= old(self)@.insert(addr));
            true
        }
    }
}

/// A pseudo tracker which does not track anything: every address counts as unseen.
#[derive(Clone, Copy)]
pub struct NoTracker;

impl GetSizeTracker for NoTracker {
    open spec fn seen(&self) -> Set<usize> {
        Set::empty()
    }

    open spec fn remembers(&self) -> bool {
        false
    }

    fn track<A: 'static>(&mut self, addr: usize, strong_ref: A) -> (r: bool) {
        true
    }
}

} // verus!
