use sprite_engine::error::Error;
use sprite_engine::slot::{Handle, SlotAllocator};

#[test]
fn allocate_hands_out_lowest_free_slot() {
    let mut a = SlotAllocator::new(3);
    let h0 = a.allocate().unwrap();
    let h1 = a.allocate().unwrap();
    let h2 = a.allocate().unwrap();
    assert_eq!(h0, Handle { index: 0, generation: 0 });
    assert_eq!(h1, Handle { index: 1, generation: 0 });
    assert_eq!(h2, Handle { index: 2, generation: 0 });
    assert_eq!(a.allocate(), Err(Error::CapacityExceeded));
    assert_eq!(a.len(), 3);
}

#[test]
fn new_allocator_is_empty() {
    let a = SlotAllocator::new(5);
    assert_eq!(a.capacity(), 5);
    assert_eq!(a.len(), 0);
    assert_eq!(a.touched(), 0);
    assert_eq!(a.vacancies(), 5);
    assert!(!a.is_live(Handle { index: 0, generation: 0 }));
    assert_eq!(a.handle_at(0), None);
}

#[test]
fn zero_capacity_never_allocates() {
    let mut a = SlotAllocator::new(0);
    assert_eq!(a.allocate(), Err(Error::CapacityExceeded));
    assert_eq!(a.len(), 0);
    assert_eq!(a.vacancies(), 0);
}

#[test]
fn freed_slot_is_reused_before_growing() {
    let mut a = SlotAllocator::new(8);
    let h0 = a.allocate().unwrap();
    let h1 = a.allocate().unwrap();
    let _h2 = a.allocate().unwrap();
    assert_eq!(a.touched(), 3);
    assert_eq!(a.free(h1), Ok(()));
    let again = a.allocate().unwrap();
    assert_eq!(again, Handle { index: 1, generation: 1 });
    assert_eq!(a.touched(), 3);
    assert!(a.is_live(h0));
    assert!(a.is_live(again));
    assert!(!a.is_live(h1));
}

#[test]
fn lowest_of_several_freed_slots_comes_first() {
    let mut a = SlotAllocator::new(8);
    let hs: Vec<Handle> = (0..5).map(|_| a.allocate().unwrap()).collect();
    a.free(hs[3]).unwrap();
    a.free(hs[1]).unwrap();
    a.free(hs[4]).unwrap();
    assert_eq!(a.len(), 2);
    assert_eq!(a.allocate().unwrap().index, 1);
    assert_eq!(a.allocate().unwrap().index, 3);
    assert_eq!(a.allocate().unwrap().index, 4);
    assert_eq!(a.allocate().unwrap().index, 5);
    assert_eq!(a.len(), 6);
}

#[test]
fn free_rejects_dead_and_unknown_handles() {
    let mut a = SlotAllocator::new(2);
    let h = a.allocate().unwrap();
    assert_eq!(a.free(Handle { index: 7, generation: 0 }), Err(Error::InvalidHandle));
    assert_eq!(a.free(Handle { index: 1, generation: 0 }), Err(Error::InvalidHandle));
    assert_eq!(a.free(Handle { index: 0, generation: 3 }), Err(Error::InvalidHandle));
    assert_eq!(a.free(h), Ok(()));
    assert_eq!(a.free(h), Err(Error::InvalidHandle));
    assert_eq!(a.len(), 0);
}

#[test]
fn stale_handle_stays_dead_after_reuse() {
    let mut a = SlotAllocator::new(1);
    let old = a.allocate().unwrap();
    a.free(old).unwrap();
    let new = a.allocate().unwrap();
    assert_eq!(new.index, old.index);
    assert_ne!(new, old);
    assert!(!a.is_live(old));
    assert!(a.is_live(new));
    assert_eq!(a.free(old), Err(Error::InvalidHandle));
    assert!(a.is_live(new));
}

#[test]
fn live_count_never_exceeds_capacity() {
    let mut a = SlotAllocator::new(4);
    let mut live: Vec<Handle> = Vec::new();
    for round in 0..200u32 {
        if round % 3 == 2 && !live.is_empty() {
            let h = live.remove((round as usize * 7) % live.len());
            assert_eq!(a.free(h), Ok(()));
        } else {
            match a.allocate() {
                Ok(h) => live.push(h),
                Err(e) => {
                    assert_eq!(e, Error::CapacityExceeded);
                    assert_eq!(live.len(), 4);
                }
            }
        }
        assert!(a.len() <= a.capacity());
        assert_eq!(a.len(), live.len());
        assert_eq!(a.vacancies(), 4 - live.len());
    }
}

#[test]
fn handle_at_reports_live_slots() {
    let mut a = SlotAllocator::new(3);
    let h0 = a.allocate().unwrap();
    let h1 = a.allocate().unwrap();
    a.free(h0).unwrap();
    assert_eq!(a.handle_at(0), None);
    assert_eq!(a.handle_at(1), Some(h1));
    assert_eq!(a.handle_at(2), None);
    assert_eq!(a.handle_at(9), None);
}

#[test]
fn error_descriptions() {
    assert_eq!(Error::NotFound.describe(), "not found");
    assert_eq!(Error::AlreadyPresent.describe(), "already present");
    assert_eq!(Error::UnknownClip.describe(), "unknown clip");
    assert_eq!(Error::CapacityExceeded.describe(), "capacity exceeded");
    assert_eq!(Error::InvalidHandle.describe(), "invalid handle");
}
