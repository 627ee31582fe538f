use crate::size::GetSize;
use crate::tracker::GetSizeTracker;
use vstd::prelude::*;

verus! {

/// Heap bytes owned by the elements of `s`, measured in order with one tracker
/// that starts out having seen `seen`.
pub open spec fn seq_heap<T: GetSize>(s: Seq<T>, seen: Set<usize>, remembers: bool) -> nat
    decreases s.len(),
{
    if s.len() == 0 {
        0
    } else {
        seq_heap(s.drop_last(), seen, remembers) + s.last().heap_size(
            seq_seen(s.drop_last(), seen, remembers),
            remembers,
        )
    }
}

/// The addresses such a tracker has seen once every element of `s` is measured.
pub open spec fn seq_seen<T: GetSize>(s: Seq<T>, seen: Set<usize>, remembers: bool) -> Set<usize>
    decreases s.len(),
{
    if s.len() == 0 {
        seen
    } else {
        s.last().seen_after(seq_seen(s.drop_last(), seen, remembers), remembers)
    }
}

/// The slots of a container that are allocated but hold no element; never negative,
/// also where a container reports less capacity than length.
pub open spec fn spare(capacity: nat, len: nat) -> nat {
    if capacity > len {
        (capacity - len) as nat
    } else {
        0
    }
}

/// Counts the slots allocated beyond `len`, clamped at zero.
pub fn spare_slots(capacity: usize, len: usize) -> (r: usize)
    ensures
        r == spare(capacity as nat, len as nat),
{
    if capacity > len {
        capacity - len
    } else {
        0
    }
}

/// The elements of a prefix own no more than those of the whole sequence.
pub proof fn lemma_seq_heap_prefix<T: GetSize>(
    s: Seq<T>,
    j: int,
    seen: Set<usize>,
    remembers: bool,
)
    requires
        0 <= j <= s.len(),
    ensures
        seq_heap(s.take(j), seen, remembers) <= seq_heap(s, seen, remembers),
    decreases s.len() - j,
{
    if j == s.len() {
        assert(s.take(j) =~= s);
    } else {
        lemma_seq_heap_prefix(s, j + 1, seen, remembers);
        assert(s.take(j + 1).drop_last() =~= s.take(j));
    }
}

/// Measuring a sequence only adds addresses, and adds none without a remembering
/// tracker.
pub proof fn lemma_seq_seen_grows<T: GetSize>(s: Seq<T>, seen: Set<usize>, remembers: bool)
    ensures
        seen.subset_of(seq_seen(s, seen, remembers)),
        !remembers ==> seq_seen(s, seen, remembers) == seen,
    decreases s.len(),
{
    if s.len() > 0 {
        lemma_seq_seen_grows(s.drop_last(), seen, remembers);
        s.last().lemma_seen_grows(seq_seen(s.drop_last(), seen, remembers), remembers);
    }
}

/// Measures every element of `items` in order, threading `tracker` through.
pub fn elements_heap_size<T: GetSize, Tr: GetSizeTracker>(items: &Vec<T>, tracker: &mut Tr) -> (r:
    usize)
    requires
        seq_heap(items@, old(tracker).seen(), old(tracker).remembers()) <= usize::MAX,
    ensures
        r == seq_heap(items@, old(tracker).seen(), old(tracker).remembers()),
        final(tracker).seen() == seq_seen(items@, old(tracker).seen(), old(tracker).remembers()),
        final(tracker).remembers() == old(tracker).remembers(),
{
    let ghost seen0 = tracker.seen();
    let ghost rem = tracker.remembers();
    let n = items.len();
    let mut total: usize = 0;
    let mut i: usize = 0;
    proof {
        assert(items@.take(0) =~= Seq::<T>::empty());
    }
    while i < n
        invariant
            0 <= i <= n,
            n == items@.len(),
            total == seq_heap(items@.take(i as int), seen0, rem),
            tracker.seen() == seq_seen(items@.take(i as int), seen0, rem),
            tracker.remembers() == rem,
            seq_heap(items@, seen0, rem) <= usize::MAX,
        decreases n - i,
    {
        proof {
            lemma_seq_heap_prefix(items@, i + 1, seen0, rem);
            assert(items@.take(i + 1).drop_last() =~= items@.take(i as int));
            assert(items@.take(i + 1).last() == items@[i as int]);
        }
        let h = items[i].get_heap_size(tracker);
        total = total + h;
        i = i + 1;
    }
    proof {
        assert(items@.take(n as int) =~= items@);
    }
    total
}

} // verus!
