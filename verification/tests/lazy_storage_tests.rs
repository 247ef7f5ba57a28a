use lazy_storage::Error;
use lazy_storage::Key;
use lazy_storage::KeyPtr;
use lazy_storage::Lazy;
use lazy_storage::LazyCell;
use lazy_storage::PullForward;
use lazy_storage::PushForward;
use lazy_storage::StorageSize;
use lazy_storage::Store;
use lazy_storage::pair::Pair;

#[test]
fn eager_round_trip() {
    let store = Store::new();
    let mut lazy = Lazy::new(42u32);
    assert_eq!(*lazy.get(&store), 42);
    assert_eq!(*lazy.get(&store), 42);
}

#[test]
fn lazy_materialize_once() {
    let mut store = Store::new();
    let mut ptr = KeyPtr::new(Key::new(7));
    5u32.push_forward(&mut store, &mut ptr);

    let mut lazy: Lazy<u32> = Lazy::lazy(Key::new(7));
    assert_eq!(*lazy.get(&store), 5);

    // The cell is resident now: even after the slot changes underneath,
    // a second read is served from the cache and never touches the store.
    store.set(Key::new(7), vec![9, 0, 0, 0]);
    assert_eq!(*lazy.get(&store), 5);
}

#[test]
fn write_then_flush_then_reload() {
    let mut store = Store::new();
    let mut lazy = Lazy::new(0u32);
    *lazy.get_mut(&store) = 123;

    let mut ptr = KeyPtr::new(Key::new(3));
    lazy.push_forward(&mut store, &mut ptr);
    assert_eq!(ptr.current(), Key::new(4));

    let mut reloaded: Lazy<u32> = Lazy::lazy(Key::new(3));
    assert_eq!(*reloaded.get(&store), 123);
}

#[test]
fn footprint_is_sum_of_members() {
    assert_eq!(u32::footprint(), 1);
    assert_eq!(bool::footprint(), 1);
    assert_eq!(Pair::<u32, bool>::footprint(), 2);
    assert_eq!(Pair::<u32, Pair<u32, bool>>::footprint(), 3);
    assert_eq!(Lazy::<Pair<u32, bool>>::footprint(), 2);
}

#[test]
fn cursor_advances_across_composite_like_across_members() {
    let mut store = Store::new();
    let mut ptr = KeyPtr::new(Key::new(10));
    let value = Pair { first: 7u32, second: true };
    value.push_forward(&mut store, &mut ptr);
    assert_eq!(ptr.current(), Key::new(12));

    // Across the composite in one step.
    let mut whole = KeyPtr::new(Key::new(10));
    let loaded = Pair::<u32, bool>::pull_forward(&store, &mut whole).unwrap();
    assert_eq!(loaded.first, 7);
    assert!(loaded.second);

    // Across each member in sequence.
    let mut members = KeyPtr::new(Key::new(10));
    let first = u32::pull_forward(&store, &mut members).unwrap();
    let second = bool::pull_forward(&store, &mut members).unwrap();
    assert_eq!(first, 7);
    assert!(second);

    // Both cursors end on the same address.
    assert_eq!(whole.current(), members.current());
    assert_eq!(whole.current(), Key::new(12));
}

#[test]
fn cursor_advance_ignores_stored_bytes() {
    // A slot holding an oversized blob still advances the cursor by the
    // declared footprint, never by the actual byte length.
    let mut store = Store::new();
    store.set(Key::new(0), vec![1, 0, 0, 0, 0xAA, 0xBB, 0xCC]);
    let mut ptr = KeyPtr::new(Key::new(0));
    let v = u32::pull_forward(&store, &mut ptr).unwrap();
    assert_eq!(v, 1);
    assert_eq!(ptr.current(), Key::new(1));
}

#[test]
fn absence_is_fatal_not_a_default() {
    let store = Store::new();
    let mut lazy: Lazy<u32> = Lazy::lazy(Key::new(99));
    match lazy.try_get(&store) {
        Ok(_) => panic!("an absent value must not materialize"),
        Err(e) => assert_eq!(e, Error::Absent),
    }
    // A later read still reports the fault rather than a default value.
    assert_eq!(lazy.try_get(&store), Err(Error::Absent));
}

#[test]
fn ordering_and_equality_delegate() {
    let store = Store::new();
    let mut a = Lazy::new(1u32);
    let mut b = Lazy::new(2u32);

    assert_eq!(a.eq(&mut b, &store), 1u32 == 2u32);
    assert_eq!(a.lt(&mut b, &store), 1u32 < 2u32);
    assert_eq!(a.le(&mut b, &store), 1u32 <= 2u32);
    assert_eq!(a.gt(&mut b, &store), 1u32 > 2u32);
    assert_eq!(a.ge(&mut b, &store), 1u32 >= 2u32);
    assert_eq!(a.cmp(&mut b, &store), 1u32.cmp(&2u32));
    assert_eq!(a.partial_cmp(&mut b, &store), 1u32.partial_cmp(&2u32));

    let mut c = Lazy::new(2u32);
    assert!(b.eq(&mut c, &store));
    assert_eq!(b.cmp(&mut c, &store), std::cmp::Ordering::Equal);
}

#[test]
fn comparison_forces_both_sides() {
    let mut store = Store::new();
    let mut ptr = KeyPtr::new(Key::new(1));
    30u32.push_forward(&mut store, &mut ptr);
    let mut ptr = KeyPtr::new(Key::new(2));
    40u32.push_forward(&mut store, &mut ptr);

    let mut a: Lazy<u32> = Lazy::lazy(Key::new(1));
    let mut b: Lazy<u32> = Lazy::lazy(Key::new(2));
    assert!(a.lt(&mut b, &store));
    assert!(!a.eq(&mut b, &store));
}

#[test]
fn decode_error_on_short_bytes() {
    let mut store = Store::new();
    store.set(Key::new(4), vec![1, 2]);
    let mut ptr = KeyPtr::new(Key::new(4));
    assert_eq!(u32::pull_forward(&store, &mut ptr), Err(Error::Decode));
    // The cursor advanced by the footprint even though the decode failed.
    assert_eq!(ptr.current(), Key::new(5));
}

#[test]
fn decode_error_on_invalid_boolean() {
    let mut store = Store::new();
    store.set(Key::new(1), vec![7]);
    let mut ptr = KeyPtr::new(Key::new(1));
    assert_eq!(bool::pull_forward(&store, &mut ptr), Err(Error::Decode));

    store.set(Key::new(1), vec![1]);
    let mut ptr = KeyPtr::new(Key::new(1));
    assert_eq!(bool::pull_forward(&store, &mut ptr), Ok(true));

    store.set(Key::new(1), vec![0]);
    let mut ptr = KeyPtr::new(Key::new(1));
    assert_eq!(bool::pull_forward(&store, &mut ptr), Ok(false));
}

#[test]
fn integers_are_stored_little_endian() {
    let mut store = Store::new();
    let mut ptr = KeyPtr::new(Key::new(0));
    0x12345678u32.push_forward(&mut store, &mut ptr);
    assert_eq!(store.get(&Key::new(0)), Some(&vec![0x78, 0x56, 0x34, 0x12]));

    let mut store = Store::new();
    store.set(Key::new(0), vec![0x78, 0x56, 0x34, 0x12]);
    let mut ptr = KeyPtr::new(Key::new(0));
    assert_eq!(u32::pull_forward(&store, &mut ptr), Ok(0x12345678));

    let mut store = Store::new();
    let mut ptr = KeyPtr::new(Key::new(5));
    true.push_forward(&mut store, &mut ptr);
    assert_eq!(store.get(&Key::new(5)), Some(&vec![1]));
}

#[test]
fn composite_round_trip() {
    let mut store = Store::new();
    let value = Pair { first: 0xDEADu32, second: Pair { first: 77u32, second: false } };
    let mut ptr = KeyPtr::new(Key::new(20));
    value.push_forward(&mut store, &mut ptr);
    assert_eq!(ptr.current(), Key::new(23));

    let mut back = KeyPtr::new(Key::new(20));
    let loaded = Pair::<u32, Pair<u32, bool>>::pull_forward(&store, &mut back).unwrap();
    assert_eq!(loaded.first, 0xDEAD);
    assert_eq!(loaded.second.first, 77);
    assert!(!loaded.second.second);
}

#[test]
fn composite_decode_never_partially_succeeds() {
    // Only the first member is present: the composite decode fails whole,
    // yielding no value with a fabricated second member, and the cursor
    // still advances across the full composite footprint.
    let mut store = Store::new();
    let mut ptr = KeyPtr::new(Key::new(40));
    5u32.push_forward(&mut store, &mut ptr);

    let mut back = KeyPtr::new(Key::new(40));
    assert!(matches!(
        Pair::<u32, bool>::pull_forward(&store, &mut back),
        Err(Error::Decode)
    ));
    assert_eq!(back.current(), Key::new(42));
}

#[test]
fn flush_of_pending_cell_skips_the_write() {
    let mut store = Store::new();
    store.set(Key::new(5), vec![0x2A, 0, 0, 0]);

    let cell: LazyCell<u32> = LazyCell::new_pending(Key::new(5));
    let mut ptr = KeyPtr::new(Key::new(5));
    cell.flush(&mut store, &mut ptr);

    // The cursor stepped over the field, and the slot kept its bytes.
    assert_eq!(ptr.current(), Key::new(6));
    assert_eq!(store.get(&Key::new(5)), Some(&vec![0x2A, 0, 0, 0]));
}

#[test]
fn cell_read_reports_absence_and_caches_success() {
    let mut store = Store::new();
    let mut cell: LazyCell<u32> = LazyCell::new_pending(Key::new(8));
    assert!(cell.read(&store).is_none());

    let mut ptr = KeyPtr::new(Key::new(8));
    11u32.push_forward(&mut store, &mut ptr);
    assert_eq!(cell.read(&store), Some(&11));

    let mut resident = LazyCell::<u32>::new_resident(9);
    assert_eq!(resident.read(&store), Some(&9));
}

#[test]
fn default_and_from_are_eager() {
    let store = Store::new();
    let mut d: Lazy<u32> = Default::default();
    assert_eq!(*d.get(&store), 0);

    let mut f: Lazy<u32> = Lazy::from(9u32);
    assert_eq!(*f.get(&store), 9);
}

#[test]
fn lazy_pull_is_itself_lazy() {
    // Pulling a lazy field records the address and advances the cursor; it
    // reads nothing, so it succeeds even over an empty store.
    let store = Store::new();
    let mut ptr = KeyPtr::new(Key::new(30));
    let mut pulled = Lazy::<u32>::pull_forward(&store, &mut ptr).unwrap();
    assert_eq!(ptr.current(), Key::new(31));

    // Forcing it against a store that does hold data at that address
    // materializes the stored value.
    let mut store = Store::new();
    let mut write = KeyPtr::new(Key::new(30));
    64u32.push_forward(&mut store, &mut write);
    assert_eq!(*pulled.get(&store), 64);
}
