use crate::buffer::Buffer;
use crate::json::{entries_heap, text_heap, values_heap, Value};
use crate::seq_size::{lemma_seq_seen_grows, seq_heap, seq_seen, spare};
use crate::shared::Shared;
use crate::size::{stack_size, FixedSize, GetSize, Ignored};
use vstd::prelude::*;

verus! {

broadcast use vstd::layout::layout_of_primitives;

/// Plain numeric scalars own no heap memory, whatever the tracker.
pub proof fn lemma_scalars_own_nothing(
    a: u8,
    b: u16,
    c: u32,
    d: u64,
    e: usize,
    f: i64,
    g: bool,
    h: char,
    seen: Set<usize>,
    remembers: bool,
)
    ensures
        a.heap_size(seen, remembers) == 0,
        b.heap_size(seen, remembers) == 0,
        c.heap_size(seen, remembers) == 0,
        d.heap_size(seen, remembers) == 0,
        e.heap_size(seen, remembers) == 0,
        f.heap_size(seen, remembers) == 0,
        g.heap_size(seen, remembers) == 0,
        h.heap_size(seen, remembers) == 0,
{
}

/// A borrowed reference owns nothing, whatever it points to.
pub proof fn lemma_borrow_owns_nothing<T>(r: &T, seen: Set<usize>, remembers: bool)
    ensures
        r.heap_size(seen, remembers) == 0,
        r.seen_after(seen, remembers) == seen,
{
}

/// Bytes own no heap memory of their own, in any order of measurement.
pub proof fn lemma_bytes_own_nothing(s: Seq<u8>, seen: Set<usize>, remembers: bool)
    ensures
        seq_heap(s, seen, remembers) == 0,
    decreases s.len(),
{
    if s.len() > 0 {
        lemma_bytes_own_nothing(s.drop_last(), seen, remembers);
    }
}

/// A byte buffer whose capacity equals its length `L` owns exactly `L` heap bytes.
pub proof fn lemma_tight_byte_buffer(b: Buffer<u8>, seen: Set<usize>, remembers: bool)
    requires
        b.capacity == b.items@.len(),
    ensures
        b.heap_size(seen, remembers) == b.items@.len(),
{
    lemma_bytes_own_nothing(b.items@, seen, remembers);
    assert(spare(b.capacity as nat, b.items@.len()) == 0);
}

/// A buffer with more capacity than length counts every allocated slot, the
/// `capacity - length` empty ones included.
pub proof fn lemma_spare_slots_counted<T: GetSize>(
    b: Buffer<T>,
    seen: Set<usize>,
    remembers: bool,
)
    requires
        b.capacity > b.items@.len(),
    ensures
        b.heap_size(seen, remembers) == b.capacity * stack_size::<T>() + seq_heap(
            b.items@,
            seen,
            remembers,
        ),
        b.heap_size(seen, remembers) >= (b.capacity - b.items@.len()) * stack_size::<T>(),
{
    let len = b.items@.len();
    let cap = b.capacity as nat;
    assert(len + spare(cap, len) == cap);
    assert(cap * stack_size::<T>() >= (cap - len) * stack_size::<T>()) by (nonlinear_arith)
        requires
            cap > len,
    ;
}

/// Whether every handle of `handles` is an owner of the allocation of `first`.
pub open spec fn all_share<T>(handles: Seq<Shared<T>>, first: Shared<T>) -> bool {
    forall|i: int|
        0 <= i < handles.len() ==> #[trigger] handles[i].address() == first.address()
            && handles[i].pointee() == first.pointee()
}

/// Once one owner of an allocation has been measured, the allocation's address is
/// among the addresses a remembering tracker has seen.
pub proof fn lemma_owner_leaves_address<T: GetSize + 'static>(
    handles: Seq<Shared<T>>,
    first: Shared<T>,
    seen: Set<usize>,
)
    requires
        handles.len() > 0,
        all_share(handles, first),
    ensures
        seq_seen(handles, seen, true).contains(first.address()),
    decreases handles.len(),
{
    let rest = handles.drop_last();
    let prior = seq_seen(rest, seen, true);
    assert(handles.last() == handles[handles.len() - 1]);
    if rest.len() > 0 {
        assert forall|i: int| 0 <= i < rest.len() implies #[trigger] rest[i].address()
            == first.address() && rest[i].pointee() == first.pointee() by {
            assert(rest[i] == handles[i]);
        }
        lemma_owner_leaves_address(rest, first, seen);
    }
    if !prior.contains(first.address()) {
        first.pointee().lemma_seen_grows(prior.insert(first.address()), true);
    }
}

/// Measured in turn against one remembering tracker, the owners of one allocation
/// together count it once: the first owner counts the pointee's stack and heap
/// size, every other owner nothing.
pub proof fn lemma_shared_counted_once<T: GetSize + 'static>(
    handles: Seq<Shared<T>>,
    first: Shared<T>,
    seen: Set<usize>,
)
    requires
        handles.len() > 0,
        all_share(handles, first),
        !seen.contains(first.address()),
    ensures
        seq_heap(handles, seen, true) == stack_size::<T>() + first.pointee().heap_size(
            seen.insert(first.address()),
            true,
        ),
    decreases handles.len(),
{
    let rest = handles.drop_last();
    assert(handles.last() == handles[handles.len() - 1]);
    if rest.len() == 0 {
        assert(seq_heap(rest, seen, true) == 0);
    } else {
        assert forall|i: int| 0 <= i < rest.len() implies #[trigger] rest[i].address()
            == first.address() && rest[i].pointee() == first.pointee() by {
            assert(rest[i] == handles[i]);
        }
        lemma_shared_counted_once(rest, first, seen);
        lemma_owner_leaves_address(rest, first, seen);
    }
}

/// Against a tracker that does not remember, each of the `N` owners of one
/// allocation counts the pointee in full: `N` times its stack and heap size.
pub proof fn lemma_untracked_owners_each_count<T: GetSize + 'static>(
    handles: Seq<Shared<T>>,
    first: Shared<T>,
)
    requires
        all_share(handles, first),
    ensures
        seq_heap(handles, Set::empty(), false) == handles.len() * (stack_size::<T>()
            + first.pointee().heap_size(Set::empty(), false)),
    decreases handles.len(),
{
    if handles.len() > 0 {
        let rest = handles.drop_last();
        assert(handles.last() == handles[handles.len() - 1]);
        assert forall|i: int| 0 <= i < rest.len() implies #[trigger] rest[i].address()
            == first.address() && rest[i].pointee() == first.pointee() by {
            assert(rest[i] == handles[i]);
        }
        lemma_untracked_owners_each_count(rest, first);
        lemma_seq_seen_grows(rest, Set::empty(), false);
        let s = stack_size::<T>() + first.pointee().heap_size(Set::empty(), false);
        assert(rest.len() * s + s == handles.len() * s) by (nonlinear_arith)
            requires
                handles.len() == rest.len() + 1,
        ;
    }
}

/// A tagged union owns what its active variant's payload owns and nothing else: a
/// variant without payload owns nothing.
pub proof fn lemma_active_variant_only<T: GetSize>(
    o: Option<T>,
    v: Value,
    seen: Set<usize>,
    remembers: bool,
)
    ensures
        o.heap_size(seen, remembers) == match o {
            Some(x) => stack_size::<T>() + x.heap_size(seen, remembers),
            None => 0,
        },
        v.heap_size(seen, remembers) == match v {
            Value::String(t) => text_heap(t),
            Value::Array(a) => a.heap_size(seen, remembers),
            Value::Object(m) => entries_heap(m.entries@),
            _ => 0,
        },
{
    if let Value::Array(a) = v {
        lemma_values_as_buffer(a.items@, seen, remembers);
    }
}

/// Measured one by one, the values of a JSON array own what the array's model says.
proof fn lemma_values_as_buffer(s: Seq<Value>, seen: Set<usize>, remembers: bool)
    ensures
        values_heap(s) == seq_heap(s, seen, remembers),
        seq_seen(s, seen, remembers) == seen,
    decreases s.len(),
{
    if s.len() > 0 {
        lemma_values_as_buffer(s.drop_last(), seen, remembers);
    }
}

/// In a record, an ignored field adds nothing whatever it owns, and a field of given
/// size adds exactly that size whatever it holds; the other fields count as usual.
pub proof fn lemma_field_overrides<A, B, C: GetSize>(
    record: (Ignored<A>, (FixedSize<B>, C)),
    seen: Set<usize>,
    remembers: bool,
)
    ensures
        record.heap_size(seen, remembers) == record.1.0.size + record.1.1.heap_size(
            seen,
            remembers,
        ),
{
}

} // verus!
