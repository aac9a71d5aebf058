use zinc::gc::heap::Heap;
use zinc::gc::trace::ObjectRef;

#[test]
fn test_allocate_and_read() {
    let mut heap = Heap::new();
    let id = heap.allocate(42i32);
    assert_eq!(*heap.get(id).unwrap(), 42);
    assert_eq!(heap.object_count(), 1);
    assert!(heap.bytes_allocated() > 0);
}

#[test]
fn test_collect_frees_unreachable() {
    let mut heap = Heap::new();
    let _id1 = heap.allocate(1i32);
    let _id2 = heap.allocate(2i32);
    assert_eq!(heap.object_count(), 2);

    // Collect with no roots -- everything should be freed
    heap.collect(&());
    assert_eq!(heap.object_count(), 0);
}

#[test]
fn test_collect_keeps_reachable() {
    let mut heap = Heap::new();
    let id1 = heap.allocate(1i32);
    let _id2 = heap.allocate(2i32);
    assert_eq!(heap.object_count(), 2);

    // Keep only the first as a root
    heap.collect(&id1);

    assert_eq!(heap.object_count(), 1);
    assert_eq!(*heap.get(id1).unwrap(), 1);
}

#[test]
fn collection_follows_references_and_cycles() {
    let mut heap = Heap::new();
    // 0 -> 1 -> 2 -> 1, and 3 -> 0 that nothing leads to
    let a = heap.allocate(Some(ObjectRef(1)));
    let b = heap.allocate(Some(ObjectRef(2)));
    let c = heap.allocate(Some(ObjectRef(1)));
    let d = heap.allocate(Some(a));
    heap.collect(&vec![Some(b), None]);
    assert!(heap.get(a).is_none());
    assert!(heap.get(b).is_some());
    assert!(heap.get(c).is_some());
    assert!(heap.get(d).is_none());
    assert_eq!(heap.object_count(), 2);
    assert_eq!(heap.all_objects(), vec![c, b]);
    heap.collect(&vec![Some(a)]);
    assert_eq!(heap.object_count(), 0);
    assert_eq!(heap.bytes_allocated(), 0);
}

#[test]
fn threshold_starts_at_64_kilobytes_and_doubles() {
    let mut heap: Heap<i32> = Heap::default();
    let first = heap.allocate(0);
    let size = heap.bytes_allocated();
    let mut ids = vec![first];
    while heap.bytes_allocated() + size < 65536 {
        ids.push(heap.allocate(7));
    }
    assert!(!heap.should_collect());
    ids.push(heap.allocate(7));
    assert!(heap.should_collect());
    heap.collect(&ids);
    assert_eq!(heap.object_count(), ids.len());
    assert!(!heap.should_collect());
    heap.collect(&true);
    assert_eq!(heap.object_count(), 0);
    assert!(heap.get(first).is_none());
}

#[test]
fn allocations_are_counted_with_their_header() {
    let word = std::mem::size_of::<usize>();
    let mut heap = Heap::new();
    heap.allocate(());
    assert_eq!(heap.bytes_allocated(), 5 * word);
    let mut heap = Heap::new();
    heap.allocate(7i32);
    heap.allocate(8i32);
    assert_eq!(heap.bytes_allocated(), 2 * ((5 * word + 4 + word - 1) / word * word));
    let mut heap = Heap::new();
    heap.allocate("text".to_string());
    assert_eq!(heap.bytes_allocated(), 8 * word);
    heap.collect(&());
    assert_eq!(heap.bytes_allocated(), 0);
}
