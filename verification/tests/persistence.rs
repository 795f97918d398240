use golem_core::errors::SaveStateError;
use golem_core::savestate::SaveState;

#[test]
fn new_region_is_zeroed_and_clean() {
    let s = SaveState::new(8);
    assert_eq!(s.size(), 8);
    assert!(!s.is_dirty());
    assert_eq!(s.write_to(), vec![0; 8]);
}

#[test]
fn hardware_writes_set_the_dirty_flag() {
    let mut s = SaveState::new(4);
    s.write_byte(2, 0xaa);
    assert!(s.is_dirty());
    assert_eq!(s.read_byte(2), 0xaa);
    assert_eq!(s.write_to(), vec![0, 0, 0xaa, 0]);
    s.mark_synced();
    assert!(!s.is_dirty());
    assert_eq!(s.write_to(), vec![0, 0, 0xaa, 0]);
}

#[test]
fn read_from_replaces_all_or_nothing() {
    let mut s = SaveState::new(4);
    s.write_byte(0, 1);

    // A mismatched source leaves the region untouched.
    assert_eq!(
        s.read_from(&[9, 9, 9]),
        Err(SaveStateError::SizeMismatch)
    );
    assert_eq!(s.write_to(), vec![1, 0, 0, 0]);
    assert!(s.is_dirty());

    // An exact source replaces the region and clears the dirty flag.
    assert_eq!(s.read_from(&[5, 6, 7, 8]), Ok(()));
    assert_eq!(s.write_to(), vec![5, 6, 7, 8]);
    assert!(!s.is_dirty());
}

#[test]
fn zero_size_region_round_trip() {
    let mut s = SaveState::new(0);
    assert_eq!(s.write_to(), Vec::<u8>::new());
    assert_eq!(s.read_from(&[]), Ok(()));
    assert_eq!(s.read_from(&[1]), Err(SaveStateError::SizeMismatch));
}
