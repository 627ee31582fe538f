use crate::tracker::GetSizeTracker;
use vstd::layout::size_of;
use vstd::prelude::*;

verus! {

broadcast use vstd::layout::layout_of_primitives;

/// The size of the fixed in-place representation of `T`: the same for every instance.
pub open spec fn stack_size<T>() -> nat {
    size_of::<T>()
}

/// Determines the deep memory footprint of a value: its in-place representation plus
/// every heap allocation it transitively owns.
///
/// The heap size of an instance depends on the tracker it is measured with, through
/// the tracker's abstract state: the addresses it has seen and whether it remembers.
pub trait GetSize: Sized {
    /// Heap bytes owned by this instance when measured against a tracker that has
    /// seen `seen` and remembers new addresses when `remembers` holds.
    spec fn heap_size(&self, seen: Set<usize>, remembers: bool) -> nat;

    /// The addresses that such a tracker has seen once the measurement is done.
    spec fn seen_after(&self, seen: Set<usize>, remembers: bool) -> Set<usize>;

    /// A measurement only ever adds addresses to what the tracker has seen, and a
    /// tracker that does not remember is left as it was.
    proof fn lemma_seen_grows(&self, seen: Set<usize>, remembers: bool)
        ensures
            seen.subset_of(self.seen_after(seen, remembers)),
            !remembers ==> self.seen_after(seen, remembers) == seen,
    ;

    /// Returns the size of the fixed in-place representation of this type.
    fn get_stack_size() -> (r: usize)
        ensures
            r == stack_size::<Self>(),
    {
        core::mem::size_of::<Self>()
    }

    /// Returns the heap bytes owned by this instance, threading `tracker` through the
    /// whole traversal.
    fn get_heap_size<Tr: GetSizeTracker>(&self, tracker: &mut Tr) -> (r: usize)
        requires
            self.heap_size(old(tracker).seen(), old(tracker).remembers()) <= usize::MAX,
        ensures
            r == self.heap_size(old(tracker).seen(), old(tracker).remembers()),
            final(tracker).seen() == self.seen_after(old(tracker).seen(), old(tracker).remembers()),
            final(tracker).remembers() == old(tracker).remembers(),
    ;

    /// Returns the total size of this instance: its stack size plus its heap size.
    fn get_size<Tr: GetSizeTracker>(&self, tracker: &mut Tr) -> (r: usize)
        requires
            stack_size::<Self>() + self.heap_size(old(tracker).seen(), old(tracker).remembers())
                <= usize::MAX,
        ensures
            r == stack_size::<Self>() + self.heap_size(old(tracker).seen(), old(tracker).remembers()),
            final(tracker).seen() == self.seen_after(old(tracker).seen(), old(tracker).remembers()),
            final(tracker).remembers() == old(tracker).remembers(),
    {
        let s = Self::get_stack_size();
        let h = self.get_heap_size(tracker);
        s + h
    }
}

impl GetSize for u8 {
    open spec fn heap_size(&self, seen: Set<usize>, remembers: bool) -> nat {
        0
    }

    open spec fn seen_after(&self, seen: Set<usize>, remembers: bool) -> Set<usize> {
        seen
    }

    proof fn lemma_seen_grows(&self, seen: Set<usize>, remembers: bool) {
    }

    fn get_heap_size<Tr: GetSizeTracker>(&self, tracker: &mut Tr) -> (r: usize) {
        0
    }
}

impl GetSize for u16 {
    open spec fn heap_size(&self, seen: Set<usize>, remembers: bool) -> nat {
        0
    }

    open spec fn seen_after(&self, seen: Set<usize>, remembers: bool) -> Set<usize> {
        seen
    }

    proof fn lemma_seen_grows(&self, seen: Set<usize>, remembers: bool) {
    }

    fn get_heap_size<Tr: GetSizeTracker>(&self, tracker: &mut Tr) -> (r: usize) {
        0
    }
}

impl GetSize for u32 {
    open spec fn heap_size(&self, seen: Set<usize>, remembers: bool) -> nat {
        0
    }

    open spec fn seen_after(&self, seen: Set<usize>, remembers: bool) -> Set<usize> {
        seen
    }

    proof fn lemma_seen_grows(&self, seen: Set<usize>, remembers: bool) {
    }

    fn get_heap_size<Tr: GetSizeTracker>(&self, tracker: &mut Tr) -> (r: usize) {
        0
    }
}

impl GetSize for u64 {
    open spec fn heap_size(&self, seen: Set<usize>, remembers: bool) -> nat {
        0
    }

    open spec fn seen_after(&self, seen: Set<usize>, remembers: bool) -> Set<usize> {
        seen
    }

    proof fn lemma_seen_grows(&self, seen: Set<usize>, remembers: bool) {
    }

    fn get_heap_size<Tr: GetSizeTracker>(&self, tracker: &mut Tr) -> (r: usize) {
        0
    }
}

impl GetSize for usize {
    open spec fn heap_size(&self, seen: Set<usize>, remembers: bool) -> nat {
        0
    }

    open spec fn seen_after(&self, seen: Set<usize>, remembers: bool) -> Set<usize> {
        seen
    }

    proof fn lemma_seen_grows(&self, seen: Set<usize>, remembers: bool) {
    }

    fn get_heap_size<Tr: GetSizeTracker>(&self, tracker: &mut Tr) -> (r: usize) {
        0
    }
}

impl GetSize for i8 {
    open spec fn heap_size(&self, seen: Set<usize>, remembers: bool) -> nat {
        0
    }

    open spec fn seen_after(&self, seen: Set<usize>, remembers: bool) -> Set<usize> {
        seen
    }

    proof fn lemma_seen_grows(&self, seen: Set<usize>, remembers: bool) {
    }

    fn get_heap_size<Tr: GetSizeTracker>(&self, tracker: &mut Tr) -> (r: usize) {
        0
    }
}

impl GetSize for i16 {
    open spec fn heap_size(&self, seen: Set<usize>, remembers: bool) -> nat {
        0
    }

    open spec fn seen_after(&self, seen: Set<usize>, remembers: bool) -> Set<usize> {
        seen
    }

    proof fn lemma_seen_grows(&self, seen: Set<usize>, remembers: bool) {
    }

    fn get_heap_size<Tr: GetSizeTracker>(&self, tracker: &mut Tr) -> (r: usize) {
        0
    }
}

impl GetSize for i32 {
    open spec fn heap_size(&self, seen: Set<usize>, remembers: bool) -> nat {
        0
    }

    open spec fn seen_after(&self, seen: Set<usize>, remembers: bool) -> Set<usize> {
        seen
    }

    proof fn lemma_seen_grows(&self, seen: Set<usize>, remembers: bool) {
    }

    fn get_heap_size<Tr: GetSizeTracker>(&self, tracker: &mut Tr) -> (r: usize) {
        0
    }
}

impl GetSize for i64 {
    open spec fn heap_size(&self, seen: Set<usize>, remembers: bool) -> nat {
        0
    }

    open spec fn seen_after(&self, seen: Set<usize>, remembers: bool) -> Set<usize> {
        seen
    }

    proof fn lemma_seen_grows(&self, seen: Set<usize>, remembers: bool) {
    }

    fn get_heap_size<Tr: GetSizeTracker>(&self, tracker: &mut Tr) -> (r: usize) {
        0
    }
}

impl GetSize for isize {
    open spec fn heap_size(&self, seen: Set<usize>, remembers: bool) -> nat {
        0
    }

    open spec fn seen_after(&self, seen: Set<usize>, remembers: bool) -> Set<usize> {
        seen
    }

    proof fn lemma_seen_grows(&self, seen: Set<usize>, remembers: bool) {
    }

    fn get_heap_size<Tr: GetSizeTracker>(&self, tracker: &mut Tr) -> (r: usize) {
        0
    }
}

impl GetSize for bool {
    open spec fn heap_size(&self, seen: Set<usize>, remembers: bool) -> nat {
        0
    }

    open spec fn seen_after(&self, seen: Set<usize>, remembers: bool) -> Set<usize> {
        seen
    }

    proof fn lemma_seen_grows(&self, seen: Set<usize>, remembers: bool) {
    }

    fn get_heap_size<Tr: GetSizeTracker>(&self, tracker: &mut Tr) -> (r: usize) {
        0
    }
}

impl GetSize for char {
    open spec fn heap_size(&self, seen: Set<usize>, remembers: bool) -> nat {
        0
    }

    open spec fn seen_after(&self, seen: Set<usize>, remembers: bool) -> Set<usize> {
        seen
    }

    proof fn lemma_seen_grows(&self, seen: Set<usize>, remembers: bool) {
    }

    fn get_heap_size<Tr: GetSizeTracker>(&self, tracker: &mut Tr) -> (r: usize) {
        0
    }
}

impl GetSize for () {
    open spec fn heap_size(&self, seen: Set<usize>, remembers: bool) -> nat {
        0
    }

    open spec fn seen_after(&self, seen: Set<usize>, remembers: bool) -> Set<usize> {
        seen
    }

    proof fn lemma_seen_grows(&self, seen: Set<usize>, remembers: bool) {
    }

    fn get_heap_size<Tr: GetSizeTracker>(&self, tracker: &mut Tr) -> (r: usize) {
        0
    }
}

/// A borrowed reference does not own what it points to: it contributes no heap bytes.
impl<'a, T> GetSize for &'a T {
    open spec fn heap_size(&self, seen: Set<usize>, remembers: bool) -> nat {
        0
    }

    open spec fn seen_after(&self, seen: Set<usize>, remembers: bool) -> Set<usize> {
        seen
    }

    proof fn lemma_seen_grows(&self, seen: Set<usize>, remembers: bool) {
    }

    fn get_heap_size<Tr: GetSizeTracker>(&self, tracker: &mut Tr) -> (r: usize) {
        0
    }
}

/// An owned box holds its value on the heap: the value's stack size plus its heap size.
impl<T: GetSize> GetSize for Box<T> {
    open spec fn heap_size(&self, seen: Set<usize>, remembers: bool) -> nat {
        stack_size::<T>() + (**self).heap_size(seen, remembers)
    }

    open spec fn seen_after(&self, seen: Set<usize>, remembers: bool) -> Set<usize> {
        (**self).seen_after(seen, remembers)
    }

    proof fn lemma_seen_grows(&self, seen: Set<usize>, remembers: bool) {
        (**self).lemma_seen_grows(seen, remembers);
    }

    fn get_heap_size<Tr: GetSizeTracker>(&self, tracker: &mut Tr) -> (r: usize) {
        let s = T::get_stack_size();
        let h = (**self).get_heap_size(tracker);
        s + h
    }
}

/// An optional value: nothing when empty, else the value's stack size plus its heap size.
impl<T: GetSize> GetSize for Option<T> {
    open spec fn heap_size(&self, seen: Set<usize>, remembers: bool) -> nat {
        match self {
            Some(v) => stack_size::<T>() + v.heap_size(seen, remembers),
            None => 0,
        }
    }

    open spec fn seen_after(&self, seen: Set<usize>, remembers: bool) -> Set<usize> {
        match self {
            Some(v) => v.seen_after(seen, remembers),
            None => seen,
        }
    }

    proof fn lemma_seen_grows(&self, seen: Set<usize>, remembers: bool) {
        if let Some(v) = self {
            v.lemma_seen_grows(seen, remembers);
        }
    }

    fn get_heap_size<Tr: GetSizeTracker>(&self, tracker: &mut Tr) -> (r: usize) {
        match self {
            Some(v) => {
                let s = T::get_stack_size();
                let h = v.get_heap_size(tracker);
                s + h
            },
            None => 0,
        }
    }
}

/// A pair owns what its two components own, measured left to right.
impl<K: GetSize, V: GetSize> GetSize for (K, V) {
    open spec fn heap_size(&self, seen: Set<usize>, remembers: bool) -> nat {
        self.0.heap_size(seen, remembers) + self.1.heap_size(
            self.0.seen_after(seen, remembers),
            remembers,
        )
    }

    open spec fn seen_after(&self, seen: Set<usize>, remembers: bool) -> Set<usize> {
        self.1.seen_after(self.0.seen_after(seen, remembers), remembers)
    }

    proof fn lemma_seen_grows(&self, seen: Set<usize>, remembers: bool) {
        self.0.lemma_seen_grows(seen, remembers);
        self.1.lemma_seen_grows(self.0.seen_after(seen, remembers), remembers);
    }

    fn get_heap_size<Tr: GetSizeTracker>(&self, tracker: &mut Tr) -> (r: usize) {
        let a = self.0.get_heap_size(tracker);
        let b = self.1.get_heap_size(tracker);
        a + b
    }
}

/// A field left out of the measurement: it contributes no heap bytes, whatever it
/// owns.
pub struct Ignored<T>(pub T);

impl<T> GetSize for Ignored<T> {
    open spec fn heap_size(&self, seen: Set<usize>, remembers: bool) -> nat {
        0
    }

    open spec fn seen_after(&self, seen: Set<usize>, remembers: bool) -> Set<usize> {
        seen
    }

    proof fn lemma_seen_grows(&self, seen: Set<usize>, remembers: bool) {
    }

    fn get_heap_size<Tr: GetSizeTracker>(&self, tracker: &mut Tr) -> (r: usize) {
        0
    }
}

/// A field whose heap size is given instead of measured: a fixed number, or the
/// result of a sizing function computed when the field is set.
pub struct FixedSize<T> {
    pub value: T,
    pub size: usize,
}

impl<T> GetSize for FixedSize<T> {
    open spec fn heap_size(&self, seen: Set<usize>, remembers: bool) -> nat {
        self.size as nat
    }

    open spec fn seen_after(&self, seen: Set<usize>, remembers: bool) -> Set<usize> {
        seen
    }

    proof fn lemma_seen_grows(&self, seen: Set<usize>, remembers: bool) {
    }

    fn get_heap_size<Tr: GetSizeTracker>(&self, tracker: &mut Tr) -> (r: usize) {
        self.size
    }
}

} // verus!
