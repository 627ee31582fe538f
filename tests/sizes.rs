use std::mem;

use get_size::{
    Buffer, FixedSize, GetSize, GetSizeTracker, Ignored, NoTracker, Shared, StandardTracker,
    SyncShared, Table,
};

fn get_size_helper<C>(_value: &C) -> usize {
    50
}

fn text(s: &str) -> Buffer<u8> {
    Buffer::from_vec(s.as_bytes().to_vec())
}

#[test]
fn record_of_string_and_integer() {
    let test = (text("Hello"), 123u64);
    assert_eq!(test.get_heap_size(&mut NoTracker), 5);
    assert_eq!(<(Buffer<u8>, u64)>::get_stack_size(), mem::size_of::<(Buffer<u8>, u64)>());
    assert_eq!(
        test.get_size(&mut NoTracker),
        mem::size_of::<(Buffer<u8>, u64)>() + 5
    );
}

#[test]
fn scalars_own_nothing() {
    let mut tracker = StandardTracker::new();
    assert_eq!(7u8.get_heap_size(&mut tracker), 0);
    assert_eq!(7u64.get_heap_size(&mut NoTracker), 0);
    assert_eq!((-7i32).get_heap_size(&mut tracker), 0);
    assert_eq!(true.get_heap_size(&mut tracker), 0);
    assert_eq!('x'.get_heap_size(&mut tracker), 0);
    assert_eq!(u64::get_stack_size(), 8);
    assert_eq!(7u64.get_size(&mut NoTracker), 8);
}

#[test]
fn tight_byte_buffer_counts_its_length() {
    let b = text("Test");
    assert_eq!(b.get_heap_size(&mut NoTracker), 4);
}

#[test]
fn vector_of_integers() {
    let v = Buffer::from_vec(vec![1u32, 2, 3, 4]);
    assert_eq!(v.get_heap_size(&mut NoTracker), 16);
}

#[test]
fn spare_capacity_is_counted() {
    let v = Buffer::with_capacity(vec![1u16, 2, 3], 10);
    assert_eq!(v.get_heap_size(&mut NoTracker), 20);
}

#[test]
fn capacity_below_length_does_not_underflow() {
    let v = Buffer::with_capacity(vec![1u64, 2, 3], 1);
    assert_eq!(v.get_heap_size(&mut NoTracker), 24);
}

#[test]
fn buffer_of_strings_adds_element_heaps() {
    let v = Buffer::with_capacity(vec![text("ab"), text("cde")], 3);
    let slot = mem::size_of::<Buffer<u8>>();
    assert_eq!(v.get_heap_size(&mut NoTracker), 3 * slot + 5);
}

#[test]
fn borrowed_references_own_nothing() {
    let owned = text("Hello world");
    let r = &owned;
    assert_eq!(GetSize::get_heap_size(&r, &mut NoTracker), 0);
    let refs = Buffer::from_vec(vec![&1u8; 10]);
    assert_eq!(refs.get_heap_size(&mut NoTracker), mem::size_of::<&u8>() * 10);
}

#[test]
fn boxed_value_counts_its_stack_and_heap() {
    let b = Box::new(text("Hello"));
    assert_eq!(b.get_heap_size(&mut NoTracker), mem::size_of::<Buffer<u8>>() + 5);
    let n = Box::new(5u32);
    assert_eq!(n.get_heap_size(&mut NoTracker), 4);
}

#[test]
fn optional_value() {
    let none: Option<Buffer<u8>> = None;
    assert_eq!(none.get_heap_size(&mut NoTracker), 0);
    let some = Some(text("Hello"));
    assert_eq!(some.get_heap_size(&mut NoTracker), mem::size_of::<Buffer<u8>>() + 5);
}

#[test]
fn table_counts_entries_and_spare_slots() {
    let t = Table::with_capacity(vec![(1u32, text("ab")), (2u32, text("c"))], 4);
    let slot = mem::size_of::<u32>() + mem::size_of::<Buffer<u8>>();
    assert_eq!(t.get_heap_size(&mut NoTracker), 4 * slot + 3);
    let empty: Table<u64, u64> = Table::from_vec(Vec::new());
    assert_eq!(empty.get_heap_size(&mut NoTracker), 0);
    assert_eq!(t.len(), 2);
}

#[test]
fn rc_owners_without_tracker() {
    let mut tracker = NoTracker;

    let test1 = Shared::new(0u64);
    assert_eq!(test1.get_heap_size(&mut tracker), 8);

    let test2 = test1.share();
    assert_eq!(test2.get_heap_size(&mut tracker), 8);
}

#[test]
fn rc_owners_with_tracker() {
    let mut tracker = StandardTracker::new();

    let test1 = Shared::new(0u64);
    assert_eq!(test1.get_heap_size(&mut tracker), 8);

    let test2 = test1.share();
    assert_eq!(test2.get_heap_size(&mut tracker), 0);
}

#[test]
fn shared_owners_counted_once_in_a_container() {
    let first = Shared::new(text("Hello"));
    let owners = Buffer::from_vec(vec![first.share(), first.share(), first.share()]);
    let slot = mem::size_of::<Shared<Buffer<u8>>>();
    let pointee = mem::size_of::<Buffer<u8>>() + 5;
    assert_eq!(owners.get_heap_size(&mut StandardTracker::new()), 3 * slot + pointee);
    assert_eq!(owners.get_heap_size(&mut NoTracker), 3 * slot + 3 * pointee);
    assert_eq!(*first.get().items, b"Hello".to_vec());
}

#[test]
fn distinct_allocations_are_each_counted() {
    let a = Shared::new(1u64);
    let b = Shared::new(2u64);
    let mut tracker = StandardTracker::new();
    assert_eq!(a.get_heap_size(&mut tracker), 8);
    assert_eq!(b.get_heap_size(&mut tracker), 8);
    assert_eq!(a.get_heap_size(&mut tracker), 0);
}

#[test]
fn cleared_tracker_counts_again() {
    let a = Shared::new(1u64);
    let mut tracker = StandardTracker::new();
    assert_eq!(a.get_heap_size(&mut tracker), 8);
    tracker.clear();
    assert_eq!(a.get_heap_size(&mut tracker), 8);
}

#[test]
fn tracker_reports_each_address_once() {
    let mut tracker = StandardTracker::new();
    assert!(tracker.track(16, 1u8));
    assert!(!tracker.track(16, 2u8));
    assert!(tracker.track(32, 3u8));
    let mut boxed = Box::new(StandardTracker::new());
    assert!(boxed.track(16, ()));
    assert!(!boxed.track(16, ()));
    let mut none = NoTracker;
    assert!(none.track(16, ()));
    assert!(none.track(16, ()));
}

#[test]
fn nested_shared_handles() {
    let inner = Shared::new(7u32);
    let outer = Shared::new((inner.share(), inner.share()));
    let mut tracker = StandardTracker::new();
    assert_eq!(
        outer.get_heap_size(&mut tracker),
        mem::size_of::<(Shared<u32>, Shared<u32>)>() + 4
    );
    assert_eq!(inner.get_heap_size(&mut tracker), 0);
}

#[test]
fn arc_owners_without_tracker() {
    let test1 = SyncShared::new(0u64);
    assert_eq!(test1.get_heap_size(&mut NoTracker), 8);

    let test2 = test1.share();
    assert_eq!(test2.get_heap_size(&mut NoTracker), 8);
}

#[test]
fn arc_owners_with_tracker() {
    let mut tracker = StandardTracker::new();

    let test1 = SyncShared::new(0u64);
    assert_eq!(test1.get_heap_size(&mut tracker), 8);

    let test2 = test1.share();
    assert_eq!(test2.get_heap_size(&mut tracker), 0);
    assert_eq!(*test2.get(), 0);
}

#[test]
fn ignored_field_adds_nothing() {
    let record = (text("Hello"), (Ignored(123u64), Ignored(text("World!"))));
    assert_eq!(record.get_heap_size(&mut NoTracker), 5);
}

#[test]
fn fixed_size_fields_add_their_size() {
    let third = text("World!");
    let size = get_size_helper(&third);
    let record = (
        text("Hello"),
        (
            FixedSize { value: 123u64, size: 100 },
            FixedSize { value: third, size },
        ),
    );
    assert_eq!(record.get_heap_size(&mut NoTracker), 5 + 100 + 50);
}

#[test]
fn record_with_borrowed_field() {
    let value = 123u64;
    let record = (text("Hello"), &value);
    assert_eq!(record.get_heap_size(&mut NoTracker), 5);
}
