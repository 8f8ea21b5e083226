use compiler_backend::SlotAllocator;

#[test]
fn allocates_in_order_from_zero() {
    let mut a = SlotAllocator::new();
    assert_eq!(a.allocate(), 0);
    assert_eq!(a.allocate(), 1);
    assert_eq!(a.allocate(), 2);
}

#[test]
fn released_slot_is_reused_next() {
    let mut a = SlotAllocator::new();
    for _ in 0..4 {
        a.allocate();
    }
    a.release(2);
    assert_eq!(a.allocate(), 2);
    assert_eq!(a.allocate(), 4);
}

#[test]
fn lowest_released_slot_wins() {
    let mut a = SlotAllocator::new();
    for _ in 0..5 {
        a.allocate();
    }
    a.release(3);
    a.release(1);
    assert_eq!(a.allocate(), 1);
    assert_eq!(a.allocate(), 3);
    assert_eq!(a.allocate(), 5);
}

#[test]
fn live_slots_follow_allocate_and_release() {
    let mut a = SlotAllocator::new();
    let mut live: Vec<usize> = Vec::new();
    let mut steps: u64 = 12345;
    for _ in 0..200 {
        steps = steps.wrapping_mul(6364136223846793005).wrapping_add(1442695040888963407);
        if live.is_empty() || (steps >> 33) % 3 != 0 {
            let s = a.allocate();
            assert!(!live.contains(&s));
            let lowest = (0..).find(|i| !live.contains(i)).unwrap();
            assert_eq!(s, lowest);
            live.push(s);
        } else {
            let idx = ((steps >> 40) as usize) % live.len();
            let s = live.swap_remove(idx);
            a.release(s);
        }
    }
}

#[test]
fn release_all_then_reuse_from_zero() {
    let mut a = SlotAllocator::new();
    let s0 = a.allocate();
    let s1 = a.allocate();
    a.release(s0);
    a.release(s1);
    assert_eq!(a.allocate(), 0);
    assert_eq!(a.allocate(), 1);
    assert_eq!(a.allocate(), 2);
}
