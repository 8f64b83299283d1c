use kprobe_manager::error::Error;
use kprobe_manager::storage::{layout_is_valid, power_of_two, PinnedStorage};

#[test]
fn powers_of_two_are_recognised() {
    for n in [1usize, 2, 4, 8, 64, 4096, 1 << 31] {
        assert!(power_of_two(n), "{n}");
    }
    assert!(power_of_two(usize::MAX / 2 + 1));
}

#[test]
fn other_numbers_are_not_powers_of_two() {
    for n in [0usize, 3, 5, 6, 7, 12, 4095, 4097, usize::MAX] {
        assert!(!power_of_two(n), "{n}");
    }
}

#[test]
fn a_region_that_fits_is_recorded_as_given() {
    let slot = PinnedStorage::allocate(24, 8, 0x1000).unwrap();
    assert_eq!(slot.base(), 0x1000);
    assert_eq!(slot.size(), 24);
    assert_eq!(slot.align(), 8);
}

#[test]
fn an_empty_region_is_accepted() {
    let slot = PinnedStorage::allocate(0, 1, 1).unwrap();
    assert_eq!(slot.base(), 1);
    assert_eq!(slot.size(), 0);
    assert_eq!(slot.align(), 1);
}

#[test]
fn a_null_address_is_an_allocation_failure() {
    assert_eq!(PinnedStorage::allocate(24, 8, 0).unwrap_err(), Error::AllocationFailure);
}

#[test]
fn a_misaligned_address_is_an_allocation_failure() {
    assert_eq!(PinnedStorage::allocate(24, 8, 0x1004).unwrap_err(), Error::AllocationFailure);
}

#[test]
fn an_alignment_that_is_no_power_of_two_is_an_allocation_failure() {
    assert_eq!(PinnedStorage::allocate(24, 0, 0x1000).unwrap_err(), Error::AllocationFailure);
    assert_eq!(PinnedStorage::allocate(24, 6, 0x1002).unwrap_err(), Error::AllocationFailure);
}

#[test]
fn a_region_past_the_end_of_the_address_space_is_an_allocation_failure() {
    let base = usize::MAX - 15;
    assert_eq!(PinnedStorage::allocate(16, 16, base).unwrap_err(), Error::AllocationFailure);
    let slot = PinnedStorage::allocate(15, 16, base).unwrap();
    assert_eq!(slot.base(), base);
    assert_eq!(slot.size(), 15);
}

#[test]
fn a_layout_is_valid_up_to_the_largest_rounded_size() {
    let most = isize::MAX as usize;
    assert!(layout_is_valid(0, 1));
    assert!(layout_is_valid(24, 8));
    assert!(layout_is_valid(most, 1));
    assert!(!layout_is_valid(most + 1, 1));
    assert!(layout_is_valid(most - 1, 2));
    assert!(!layout_is_valid(most, 2));
    assert!(layout_is_valid(most - 4095, 4096));
    assert!(!layout_is_valid(most - 4094, 4096));
    assert!(!layout_is_valid(24, 0));
    assert!(!layout_is_valid(24, 3));
    assert!(!layout_is_valid(24, 24));
}

#[test]
fn a_size_that_no_layout_allows_is_an_allocation_failure() {
    let most = isize::MAX as usize;
    assert_eq!(PinnedStorage::allocate(most + 1, 1, 1).unwrap_err(), Error::AllocationFailure);
    assert_eq!(PinnedStorage::allocate(most, 2, 2).unwrap_err(), Error::AllocationFailure);
    let slot = PinnedStorage::allocate(most, 1, 1).unwrap();
    assert_eq!(slot.size(), most);
}
