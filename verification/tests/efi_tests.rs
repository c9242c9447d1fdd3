use alar2::efi::EfiPartitionState;
use alar2::inspect::PartitionFact;

fn vfat_fact() -> PartitionFact {
    PartitionFact { number: 1, filesystem: String::from("vfat") }
}

#[test]
fn initial_state_has_nothing() {
    let state = EfiPartitionState::new();
    assert!(!state.has_efi());
    assert_eq!(state.get_number(), 0);
    assert_eq!(state.get_filesystem(), "");
    assert_eq!(state.get_path(), "");
}

#[test]
fn number_and_filesystem_are_set_together() {
    let mut state = EfiPartitionState::new();
    state.set_number_and_filesystem(vfat_fact());
    assert!(state.has_efi());
    assert_eq!(state.get_number(), 1);
    assert_eq!(state.get_filesystem(), "vfat");
    assert_eq!(state.get_path(), "");
}

#[test]
fn set_path_without_partition_is_a_no_op() {
    let mut state = EfiPartitionState::new();
    state.set_path("/dev/sda");
    assert!(matches!(state, EfiPartitionState::NoEfi));
    assert!(!state.has_efi());
    assert_eq!(state.get_number(), 0);
    assert_eq!(state.get_filesystem(), "");
    assert_eq!(state.get_path(), "");
}

#[test]
fn set_path_completes_the_record() {
    let mut state = EfiPartitionState::new();
    state.set_number_and_filesystem(vfat_fact());
    state.set_path("/dev/sda");
    assert!(state.has_efi());
    assert_eq!(state.get_number(), 1);
    assert_eq!(state.get_filesystem(), "vfat");
    assert_eq!(state.get_path(), "/dev/sda1");
}

#[test]
fn set_path_again_keeps_number_and_filesystem() {
    let mut state = EfiPartitionState::new();
    state.set_number_and_filesystem(PartitionFact {
        number: 15,
        filesystem: String::from("vfat"),
    });
    state.set_path("/dev/sdc");
    state.set_path("/dev/sdc");
    assert_eq!(state.get_number(), 15);
    assert_eq!(state.get_filesystem(), "vfat");
    assert_eq!(state.get_path(), "/dev/sdc15");
}

#[test]
fn accessors_are_pure() {
    let mut state = EfiPartitionState::new();
    state.set_number_and_filesystem(vfat_fact());
    state.set_path("/dev/sda");
    for _ in 0..3 {
        assert!(state.has_efi());
        assert_eq!(state.get_number(), 1);
        assert_eq!(state.get_filesystem(), "vfat");
        assert_eq!(state.get_path(), "/dev/sda1");
    }
}

#[test]
fn new_fact_discards_an_earlier_path() {
    let mut state = EfiPartitionState::new();
    state.set_number_and_filesystem(vfat_fact());
    state.set_path("/dev/sda");
    state.set_number_and_filesystem(PartitionFact {
        number: 2,
        filesystem: String::from("fat16"),
    });
    assert_eq!(state.get_number(), 2);
    assert_eq!(state.get_filesystem(), "fat16");
    assert_eq!(state.get_path(), "");
}
