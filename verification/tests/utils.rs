use open_gl::utils::BitFields;

#[test]
fn default_has_nothing_set() {
    let b: BitFields<u16> = Default::default();
    for i in 0..16 {
        assert!(!b.is_set(1u16 << i));
    }
}

#[test]
fn set_then_is_set() {
    let mut b: BitFields<u16> = Default::default();
    b.set(0x8);
    assert!(b.is_set(0x8));
}

#[test]
fn set_leaves_other_bits_alone() {
    let mut b: BitFields<u16> = Default::default();
    b.set(0x8);
    assert!(!b.is_set(0x1));
    assert!(!b.is_set(0x4));
    assert!(!b.is_set(0x10));
}

#[test]
fn unset_clears_only_its_bits() {
    let mut b: BitFields<u16> = Default::default();
    b.set(0x3);
    b.set(0x8);
    b.unset(0x2);
    assert!(b.is_set(0x1));
    assert!(!b.is_set(0x2));
    assert!(b.is_set(0x8));
}

#[test]
fn toggle_twice_restores() {
    let mut b: BitFields<u16> = Default::default();
    b.set(0x5);
    b.toggle(0x6);
    assert!(b.is_set(0x2));
    assert!(!b.is_set(0x4));
    b.toggle(0x6);
    assert!(b.is_set(0x4));
    assert!(!b.is_set(0x2));
    assert!(b.is_set(0x1));
}

#[test]
fn is_set_answers_for_any_overlap() {
    let mut b: BitFields<u16> = Default::default();
    b.set(0x2);
    // mask covering a set bit and a clear bit still answers true
    assert!(b.is_set(0x3));
    assert!(!b.is_set(0xC));
}

#[test]
fn u8_flags_work_alike() {
    let mut b: BitFields<u8> = Default::default();
    b.set(0x80);
    assert!(b.is_set(0x80));
    assert!(!b.is_set(0x40));
    b.toggle(0xC0);
    assert!(!b.is_set(0x80));
    assert!(b.is_set(0x40));
    b.unset(0xFF);
    assert!(!b.is_set(0xFF));
}
