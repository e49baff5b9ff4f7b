use zumo_core::constvec::ConstVec;
use zumo_core::mem::{round_up, Allocator};
use zumo_core::minarray::MinArray;

#[test]
fn constvec_push_get_and_len() {
    let mut v: ConstVec<u32> = ConstVec::new();
    assert_eq!(v.len(), 0);
    assert_eq!(v.capacity(), 8);
    assert!(v.push(10).is_ok());
    assert!(v.push(20).is_ok());
    assert!(v.push(30).is_ok());
    assert_eq!(v.len(), 3);
    assert_eq!(*v.get(0), Some(10));
    assert_eq!(*v.get(1), Some(20));
    assert_eq!(*v.get(2), Some(30));
    assert_eq!(*v.get(7), None);
}

#[test]
fn constvec_rejects_ninth_element() {
    let mut v: ConstVec<u8> = ConstVec::new();
    for i in 0u8..8 {
        assert!(v.push(i).is_ok());
    }
    assert_eq!(v.push(99), Err(99));
    assert_eq!(v.len(), 8);
}

#[test]
fn constvec_swap_remove_moves_last_into_hole() {
    let mut v: ConstVec<u32> = ConstVec::new();
    v.push(1).unwrap();
    v.push(2).unwrap();
    v.push(3).unwrap();
    let removed = v.swap_remove(0);
    assert_eq!(removed, 1);
    assert_eq!(v.len(), 2);
    assert_eq!(*v.get(0), Some(3));
    assert_eq!(*v.get(1), Some(2));
}

#[test]
fn constvec_iter_exposes_slots() {
    let mut v: ConstVec<u32> = ConstVec::new();
    v.push(5).unwrap();
    let slots = v.iter();
    assert_eq!(slots.len(), 8);
    assert_eq!(slots[0], Some(5));
    assert_eq!(slots[1], None);
}

#[test]
fn minarray_min_tracks_smallest_key() {
    let mut a: MinArray<u8> = MinArray::new();
    assert_eq!(a.min_key(), 0xffff_ffff);
    a.push(50, 1).unwrap();
    assert_eq!(a.min_key(), 50);
    a.push(20, 2).unwrap();
    assert_eq!(a.min_key(), 20);
    a.push(90, 3).unwrap();
    assert_eq!(a.min_key(), 20);
    assert_eq!(a.count(), 3);
}

#[test]
fn minarray_rejects_ninth_entry() {
    let mut a: MinArray<u8> = MinArray::new();
    for i in 0u8..8 {
        assert!(a.push(100 + i as u32, i).is_ok());
    }
    assert_eq!(a.push(5, 42), Err(42));
    // a failed push leaves the minimum alone
    assert_eq!(a.min_key(), 100);
}

#[test]
fn minarray_take_less_than_drains_due_entries() {
    let mut a: MinArray<u8> = MinArray::new();
    a.push(10, 1).unwrap();
    a.push(30, 2).unwrap();
    a.push(20, 3).unwrap();
    a.push(40, 4).unwrap();
    let mut due = a.take_less_than(25);
    let mut drained = Vec::new();
    while let Some(v) = due.next() {
        drained.push(v);
    }
    drained.sort();
    assert_eq!(drained, vec![1, 3]);
    assert_eq!(a.count(), 2);
    // the minimum is recomputed over the survivors
    assert_eq!(a.min_key(), 30);
}

#[test]
fn minarray_min_resets_to_sentinel_when_emptied() {
    let mut a: MinArray<u8> = MinArray::new();
    a.push(7, 1).unwrap();
    a.push(9, 2).unwrap();
    let mut due = a.take_less_than(100);
    assert_eq!(due.len(), 2);
    while due.next().is_some() {}
    assert_eq!(a.count(), 0);
    assert_eq!(a.min_key(), 0xffff_ffff);
}

#[test]
fn round_up_to_alignment() {
    assert_eq!(round_up(0, 4), 0);
    assert_eq!(round_up(5, 4), 8);
    assert_eq!(round_up(8, 4), 8);
    assert_eq!(round_up(9, 1), 9);
    assert_eq!(round_up(17, 16), 32);
}

#[test]
fn allocator_hands_out_aligned_disjoint_ranges() {
    let mut a = Allocator::new(256);
    let first = a.reserve(16, 8);
    assert_eq!(first, 0);
    let second = a.reserve(3, 1);
    assert_eq!(second, 16);
    let third = a.reserve(8, 8);
    assert_eq!(third, 24);
    assert_eq!(third % 8, 0);
}
