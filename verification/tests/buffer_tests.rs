use thermorawfilereader::buffer::{
    rust_allocate_memory, rust_reallocate_end_memory, rust_reallocate_memory, RawVec,
};

#[test]
fn test_realloc() {
    let mut buf = RawVec::new(10);
    for i in 0..10 {
        buf.set(i, i as u8);
    }
    buf.realloc(20);
    for i in 0..20 {
        if i < 10 {
            assert_eq!(buf.get(i), i as u8)
        } else {
            assert_eq!(buf.get(i), 0)
        }
    }
}

#[test]
fn test_realloc_end() {
    let mut buf = RawVec::new(10);
    for i in 0..10 {
        buf.set(i, i as u8);
    }
    buf.realloc_end(20);
    for i in 0..20 {
        if i < 10 {
            assert_eq!(buf.get(i), 0)
        } else {
            assert_eq!(buf.get(i), (i - 10) as u8)
        }
    }
}

#[test]
fn test_new_zero_filled() {
    let buf = RawVec::new(4);
    assert_eq!(buf.len(), 4);
    assert!(!buf.is_empty());
    for i in 0..4 {
        assert_eq!(buf.get(i), 0);
    }
}

#[test]
fn test_zero_size_allocation_is_releasable() {
    let mut buf = RawVec::new(0);
    assert_eq!(buf.len(), 0);
    assert!(buf.is_empty());
    buf.free();
    assert_eq!(buf.len(), 0);
}

#[test]
fn test_free_is_idempotent() {
    let mut buf = RawVec::new(8);
    buf.set(3, 7);
    buf.free();
    assert_eq!(buf.len(), 0);
    buf.free();
    assert_eq!(buf.len(), 0);
}

#[test]
fn test_grow_back_noop_when_not_larger() {
    let mut buf = RawVec::new(5);
    for i in 0..5 {
        buf.set(i, (i + 1) as u8);
    }
    buf.realloc(5);
    assert_eq!(buf.len(), 5);
    for i in 0..5 {
        assert_eq!(buf.get(i), (i + 1) as u8);
    }
    buf.realloc(3);
    assert_eq!(buf.len(), 5);
}

#[test]
fn test_grow_front_noop_when_not_larger() {
    let mut buf = RawVec::new(5);
    for i in 0..5 {
        buf.set(i, (i + 1) as u8);
    }
    buf.realloc_end(5);
    assert_eq!(buf.len(), 5);
    for i in 0..5 {
        assert_eq!(buf.get(i), (i + 1) as u8);
    }
    buf.realloc_end(2);
    assert_eq!(buf.len(), 5);
}

#[test]
fn test_grow_on_empty_is_plain_allocation() {
    let mut buf = RawVec::new(0);
    buf.realloc(6);
    assert_eq!(buf.len(), 6);
    for i in 0..6 {
        assert_eq!(buf.get(i), 0);
    }

    let mut front = RawVec::new(0);
    front.realloc_end(6);
    assert_eq!(front.len(), 6);
    for i in 0..6 {
        assert_eq!(front.get(i), 0);
    }
}

#[test]
fn test_grow_after_free_reallocates() {
    let mut buf = RawVec::new(4);
    buf.set(0, 9);
    buf.free();
    buf.realloc(3);
    assert_eq!(buf.len(), 3);
    for i in 0..3 {
        assert_eq!(buf.get(i), 0);
    }
}

#[test]
fn test_from_vec_and_into_vec() {
    let data = vec![1u8, 2, 3];
    let buf = RawVec::from_vec(data);
    assert_eq!(buf.len(), 3);
    assert_eq!(buf.as_slice(), &[1u8, 2, 3]);
    let back = buf.into_vec();
    assert_eq!(back, vec![1u8, 2, 3]);
}

#[test]
fn test_allocator_bridge_entry_points() {
    let mut slot = RawVec::new(0);
    rust_allocate_memory(5, &mut slot);
    assert_eq!(slot.len(), 5);
    for i in 0..5 {
        assert_eq!(slot.get(i), 0);
    }

    slot.set(0, 11);
    slot.set(4, 13);
    rust_reallocate_memory(7, &mut slot);
    assert_eq!(slot.len(), 7);
    assert_eq!(slot.get(0), 11);
    assert_eq!(slot.get(4), 13);
    assert_eq!(slot.get(5), 0);
    assert_eq!(slot.get(6), 0);

    rust_reallocate_end_memory(9, &mut slot);
    assert_eq!(slot.len(), 9);
    assert_eq!(slot.get(0), 0);
    assert_eq!(slot.get(1), 0);
    assert_eq!(slot.get(2), 11);
    assert_eq!(slot.get(6), 13);
}
