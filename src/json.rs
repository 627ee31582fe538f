use crate::buffer::{buffer_heap, buffer_heap_size, Buffer};
use crate::size::{stack_size, GetSize};
use crate::tracker::GetSizeTracker;
use vstd::prelude::*;

verus! {

broadcast use {
    vstd::seq::axiom_seq_subrange_decreases,
    vstd::seq::axiom_seq_index_decreases,
    vstd::std_specs::vec::axiom_vec_decreases_to_view,
};

/// A JSON number: an unsigned or a negative integer, or a float kept as its
/// IEEE 754 bits.
pub enum Number {
    PosInt(u64),
    NegInt(i64),
    Float(u64),
}

/// A JSON value tree. Strings are byte buffers; arrays and objects own their
/// elements.
pub enum Value {
    Null,
    Bool(bool),
    Number(Number),
    String(Buffer<u8>),
    Array(Buffer<Value>),
    Object(Object),
}

/// A JSON object: its entries, key and value, in order.
pub struct Object {
    pub entries: Vec<(Buffer<u8>, Value)>,
}

/// Whether two byte buffers hold the same bytes.
pub fn same_bytes(a: &Buffer<u8>, b: &Buffer<u8>) -> (r: bool)
    ensures
        r == (a.items@ == b.items@),
{
    let n = a.items.len();
    if n != b.items.len() {
        return false;
    }
    let mut i: usize = 0;
    while i < n
        invariant
            0 <= i <= n,
            n == a.items@.len(),
            n == b.items@.len(),
            forall|j: int| 0 <= j < i ==> a.items@[j] == b.items@[j],
        decreases n - i,
    {
        if a.items[i] != b.items[i] {
            return false;
        }
        i = i + 1;
    }
    assert(a.items@ =~= b.items@);
    true
}

impl Object {
    pub fn new() -> (r: Self)
        ensures
            r.entries@.len() == 0,
    {
        Object { entries: Vec::new() }
    }

    pub fn len(&self) -> (r: usize)
        ensures
            r == self.entries@.len(),
    {
        self.entries.len()
    }

    /// Finds the first entry whose key holds the bytes of `key`.
    pub fn find(&self, key: &Buffer<u8>) -> (r: Option<usize>)
        ensures
            match r {
                Some(i) => i < self.entries@.len() && self.entries@[i as int].0.items@
                    == key.items@ && forall|j: int|
                    0 <= j < i ==> #[trigger] self.entries@[j].0.items@ != key.items@,
                None => forall|j: int|
                    0 <= j < self.entries@.len() ==> #[trigger] self.entries@[j].0.items@
                        != key.items@,
            },
    {
        let mut i: usize = 0;
        while i < self.entries.len()
            invariant
                0 <= i <= self.entries@.len(),
                forall|j: int| 0 <= j < i ==> #[trigger] self.entries@[j].0.items@ != key.items@,
            decreases self.entries@.len() - i,
        {
            if same_bytes(&self.entries[i].0, key) {
                return Some(i);
            }
            i = i + 1;
        }
        None
    }

    /// Sets the value under `key`: the first entry with that key gets the new value
    /// and the old one is returned; without one, a new entry is appended.
    pub fn insert(&mut self, key: Buffer<u8>, value: Value) -> (r: Option<Value>)
        ensures
            match r {
                Some(old_value) => exists|i: int|
                    0 <= i < old(self).entries@.len() && old(self).entries@[i].0.items@
                        == key.items@ && old_value == old(self).entries@[i].1
                        && final(self).entries@ == old(self).entries@.update(
                        i,
                        (old(self).entries@[i].0, value),
                    ) && forall|j: int|
                        0 <= j < i ==> #[trigger] old(self).entries@[j].0.items@ != key.items@,
                None => final(self).entries@ == old(self).entries@.push((key, value)) && forall|
                    j: int,
                |
                    0 <= j < old(self).entries@.len() ==> #[trigger] old(self).entries@[j].0.items@
                        != key.items@,
            },
    {
        match self.find(&key) {
            Some(i) => {
                let (k, old_value) = self.entries.remove(i);
                self.entries.insert(i, (k, value));
                proof {
                    assert(self.entries@ =~= old(self).entries@.update(
                        i as int,
                        (old(self).entries@[i as int].0, value),
                    ));
                }
                Some(old_value)
            },
            None => {
                self.entries.push((key, value));
                None
            },
        }
    }
}

/// Heap bytes of a string: one byte for each allocated slot.
pub open spec fn text_heap(t: Buffer<u8>) -> nat {
    buffer_heap(t.capacity as nat, t.items@.len(), 1, 0)
}

/// Heap bytes owned by a JSON value.
pub open spec fn value_heap(v: Value) -> nat
    decreases v,
{
    match v {
        Value::String(t) => text_heap(t),
        Value::Array(a) => buffer_heap(
            a.capacity as nat,
            a.items@.len(),
            stack_size::<Value>(),
            values_heap(a.items@),
        ),
        Value::Object(o) => entries_heap(o.entries@),
        _ => 0,
    }
}

/// Heap bytes owned by the values of `s`.
pub open spec fn values_heap(s: Seq<Value>) -> nat
    decreases s,
{
    if s.len() == 0 {
        0
    } else {
        values_heap(s.drop_last()) + value_heap(s.last())
    }
}

/// Heap bytes owned by the keys and values of the entries `s`; the entries'
/// own slots are not counted.
pub open spec fn entries_heap(s: Seq<(Buffer<u8>, Value)>) -> nat
    decreases s,
{
    if s.len() == 0 {
        0
    } else {
        entries_heap(s.drop_last()) + text_heap(s.last().0) + value_heap(s.last().1)
    }
}

/// The values of a prefix own no more than those of the whole sequence.
proof fn lemma_values_prefix(s: Seq<Value>, j: int)
    requires
        0 <= j <= s.len(),
    ensures
        values_heap(s.take(j)) <= values_heap(s),
    decreases s.len() - j,
{
    if j == s.len() {
        assert(s.take(j) =~= s);
    } else {
        lemma_values_prefix(s, j + 1);
        assert(s.take(j + 1).drop_last() =~= s.take(j));
    }
}

/// The entries of a prefix own no more than those of the whole sequence.
proof fn lemma_entries_prefix(s: Seq<(Buffer<u8>, Value)>, j: int)
    requires
        0 <= j <= s.len(),
    ensures
        entries_heap(s.take(j)) <= entries_heap(s),
    decreases s.len() - j,
{
    if j == s.len() {
        assert(s.take(j) =~= s);
    } else {
        lemma_entries_prefix(s, j + 1);
        assert(s.take(j + 1).drop_last() =~= s.take(j));
    }
}

/// Heap bytes of a string buffer.
pub fn text_heap_size(t: &Buffer<u8>) -> (r: usize)
    requires
        text_heap(*t) <= usize::MAX,
    ensures
        r == text_heap(*t),
{
    buffer_heap_size(t.capacity, t.items.len(), 1, 0)
}

/// Heap bytes owned by a JSON value: nothing for null, booleans and numbers; the
/// string's bytes; an array's element slots and what its elements own; an object's
/// keys and values.
pub fn value_heap_size(v: &Value) -> (r: usize)
    requires
        value_heap(*v) <= usize::MAX,
    ensures
        r == value_heap(*v),
    decreases *v,
{
    match v {
        Value::Null => 0,
        Value::Bool(_) => 0,
        Value::Number(_) => 0,
        Value::String(t) => text_heap_size(t),
        Value::Array(a) => {
            let slot = core::mem::size_of::<Value>();
            let elements = values_heap_size(&a.items);
            buffer_heap_size(a.capacity, a.items.len(), slot, elements)
        },
        Value::Object(o) => entries_heap_size(&o.entries),
    }
}

/// Heap bytes owned by the values of `items`.
pub fn values_heap_size(items: &Vec<Value>) -> (r: usize)
    requires
        values_heap(items@) <= usize::MAX,
    ensures
        r == values_heap(items@),
    decreases items@,
{
    let n = items.len();
    let mut total: usize = 0;
    let mut i: usize = 0;
    proof {
        assert(items@.take(0) =~= Seq::<Value>::empty());
    }
    while i < n
        invariant
            0 <= i <= n,
            n == items@.len(),
            total == values_heap(items@.take(i as int)),
            values_heap(items@) <= usize::MAX,
        decreases n - i,
    {
        proof {
            lemma_values_prefix(items@, i + 1);
            assert(items@.take(i + 1).drop_last() =~= items@.take(i as int));
            assert(items@.take(i + 1).last() == items@[i as int]);
        }
        let h = value_heap_size(&items[i]);
        total = total + h;
        i = i + 1;
    }
    proof {
        assert(items@.take(n as int) =~= items@);
    }
    total
}

/// Heap bytes owned by the keys and values of `entries`.
pub fn entries_heap_size(entries: &Vec<(Buffer<u8>, Value)>) -> (r: usize)
    requires
        entries_heap(entries@) <= usize::MAX,
    ensures
        r == entries_heap(entries@),
    decreases entries@,
{
    let n = entries.len();
    let mut total: usize = 0;
    let mut i: usize = 0;
    proof {
        assert(entries@.take(0) =~= Seq::<(Buffer<u8>, Value)>::empty());
    }
    while i < n
        invariant
            0 <= i <= n,
            n == entries@.len(),
            total == entries_heap(entries@.take(i as int)),
            entries_heap(entries@) <= usize::MAX,
        decreases n - i,
    {
        proof {
            lemma_entries_prefix(entries@, i + 1);
            assert(entries@.take(i + 1).drop_last() =~= entries@.take(i as int));
            assert(entries@.take(i + 1).last() == entries@[i as int]);
        }
        let entry = &entries[i];
        let k = text_heap_size(&entry.0);
        let h = value_heap_size(&entry.1);
        total = total + k + h;
        i = i + 1;
    }
    proof {
        assert(entries@.take(n as int) =~= entries@);
    }
    total
}

/// A JSON value owns no shared allocation: the tracker is never consulted.
impl GetSize for Value {
    open spec fn heap_size(&self, seen: Set<usize>, remembers: bool) -> nat {
        value_heap(*self)
    }

    open spec fn seen_after(&self, seen: Set<usize>, remembers: bool) -> Set<usize> {
        seen
    }

    proof fn lemma_seen_grows(&self, seen: Set<usize>, remembers: bool) {
    }

    fn get_heap_size<Tr: GetSizeTracker>(&self, tracker: &mut Tr) -> (r: usize) {
        value_heap_size(self)
    }
}

impl GetSize for Object {
    open spec fn heap_size(&self, seen: Set<usize>, remembers: bool) -> nat {
        entries_heap(self.entries@)
    }

    open spec fn seen_after(&self, seen: Set<usize>, remembers: bool) -> Set<usize> {
        seen
    }

    proof fn lemma_seen_grows(&self, seen: Set<usize>, remembers: bool) {
    }

    fn get_heap_size<Tr: GetSizeTracker>(&self, tracker: &mut Tr) -> (r: usize) {
        entries_heap_size(&self.entries)
    }
}

} // verus!
