use alar2::inspect::{
    device_path, filesystem_from_export, inspect_partition, partition_number_from_line,
    probe_filesystem,
};
use alar2::text::FatalParseError;

#[test]
fn type_line_yields_its_suffix() {
    let export = "DEVNAME=/dev/sda1\nUUID=0f7a8b-11\nTYPE=ext4\nPARTUUID=abc";
    assert_eq!(filesystem_from_export(export), "ext4");
}

#[test]
fn first_type_line_wins() {
    assert_eq!(filesystem_from_export("TYPE=xfs\nTYPE=ext4"), "xfs");
}

#[test]
fn type_must_start_the_line() {
    assert_eq!(filesystem_from_export("PARTTYPE=0x83\nTYPE=vfat"), "vfat");
    assert_eq!(filesystem_from_export("PARTTYPE=0x83"), "");
}

#[test]
fn no_type_line_means_no_filesystem() {
    assert_eq!(filesystem_from_export("DEVNAME=/dev/sda2\nUUID=abc"), "");
    assert_eq!(filesystem_from_export(""), "");
    assert_eq!(filesystem_from_export("TYPE"), "");
}

#[test]
fn empty_type_value_stays_empty() {
    assert_eq!(filesystem_from_export("TYPE="), "");
    assert_eq!(filesystem_from_export("TYPE=\nUUID=abc"), "");
}

#[test]
fn probe_failure_is_the_sentinel_not_empty() {
    // A probe that could not run and a partition with no filesystem are
    // different conditions and must stay distinguishable.
    assert_eq!(probe_filesystem(None), "ERROR");
    assert_eq!(probe_filesystem(Some("DEVNAME=/dev/sda2")), "");
    assert_eq!(probe_filesystem(Some("TYPE=xfs")), "xfs");
}

#[test]
fn partition_number_comes_from_first_field() {
    assert_eq!(partition_number_from_line("1  2048 409600 boot"), Ok(1));
    assert_eq!(partition_number_from_line("14 409601 819200"), Ok(14));
    assert_eq!(partition_number_from_line("2\n"), Ok(2));
}

#[test]
fn partition_number_bad_shapes_are_fatal() {
    assert_eq!(partition_number_from_line("x 2048"), Err(FatalParseError));
    assert_eq!(partition_number_from_line(""), Err(FatalParseError));
    assert_eq!(partition_number_from_line(" 1 2048"), Err(FatalParseError));
    assert_eq!(partition_number_from_line("300 2048"), Err(FatalParseError));
}

#[test]
fn device_path_appends_the_number() {
    assert_eq!(device_path("/dev/sda", 1), "/dev/sda1");
    assert_eq!(device_path("/dev/sdc", 14), "/dev/sdc14");
    assert_eq!(device_path("/dev/sda", 250), "/dev/sda250");
}

#[test]
fn inspect_partition_combines_both_facts() {
    let fact = inspect_partition("1 2048 409600", Some("TYPE=vfat")).unwrap();
    assert_eq!(fact.number, 1);
    assert_eq!(fact.filesystem, "vfat");

    let fact = inspect_partition("2 409601 819200", Some("DEVNAME=/dev/sda2")).unwrap();
    assert_eq!(fact.number, 2);
    assert_eq!(fact.filesystem, "");

    let fact = inspect_partition("3 819201 1228800", None).unwrap();
    assert_eq!(fact.number, 3);
    assert_eq!(fact.filesystem, "ERROR");

    assert!(inspect_partition("bad line", Some("TYPE=ext4")).is_err());
}
