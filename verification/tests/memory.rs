use concrete_core::memory::Memory;

#[test]
fn a_new_memory_has_no_live_region() {
    let memory: Memory<u64> = Memory::new();
    assert!(!memory.live(0));
    assert!(!memory.live(7));
}

#[test]
fn leak_then_reclaim_gives_the_buffer_back() {
    let mut memory: Memory<u32> = Memory::new();
    let handle = memory.leak(vec![1, 2, 3]);
    assert_eq!(handle.len(), 3);
    assert_eq!(handle.region(), 0);
    assert!(memory.live(handle.region()));
    assert_eq!(memory.read(handle.region()), &vec![1, 2, 3]);
    let buffer = memory.reclaim(handle.region());
    assert_eq!(buffer, vec![1, 2, 3]);
    assert!(!memory.live(handle.region()));
}

#[test]
fn regions_are_handed_out_in_order_and_never_reused() {
    let mut memory: Memory<u32> = Memory::new();
    let first = memory.leak(vec![10]);
    let second = memory.leak(vec![20, 21]);
    assert_eq!(first.region(), 0);
    assert_eq!(second.region(), 1);
    let _ = memory.reclaim(first.region());
    let third = memory.leak(vec![30, 31, 32]);
    assert_eq!(third.region(), 2);
    assert!(!memory.live(0));
    assert!(memory.live(1));
    assert!(memory.live(2));
}

#[test]
fn reclaiming_one_region_leaves_the_others_alone() {
    let mut memory: Memory<u64> = Memory::new();
    let first = memory.leak(vec![1, 1]);
    let second = memory.leak(vec![2, 2, 2]);
    let third = memory.leak(vec![3]);
    assert_eq!(memory.reclaim(second.region()), vec![2, 2, 2]);
    assert_eq!(memory.read(first.region()), &vec![1, 1]);
    assert_eq!(memory.read(third.region()), &vec![3]);
}

#[test]
fn an_empty_buffer_can_be_leaked() {
    let mut memory: Memory<u32> = Memory::new();
    let handle = memory.leak(Vec::new());
    assert_eq!(handle.len(), 0);
    assert!(memory.live(handle.region()));
}

#[test]
fn sharing_a_handle_keeps_region_and_length() {
    let mut memory: Memory<u32> = Memory::new();
    let _ = memory.leak(vec![0]);
    let handle = memory.leak(vec![4, 5, 6, 7]);
    let shared = handle.share();
    let alias = shared;
    assert_eq!(shared.region(), 1);
    assert_eq!(shared.len(), 4);
    assert_eq!(alias.region(), shared.region());
    assert_eq!(alias.len(), shared.len());
}
