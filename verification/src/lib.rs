//! Core logic of a disk-partition repair orchestrator.
//!
//! The library parses the text that external disk tools produce (a
//! partition-table line, `blkid -o export` output), models the system's
//! EFI partition as a typed state, chooses the right filesystem-check
//! tool for a partition, and classifies that tool's exit status into a
//! fixed taxonomy of outcomes. Every function here is pure: the process
//! spawning and filesystem access that feed it live outside the library.

pub mod digits;
pub mod efi;
pub mod inspect;
pub mod repair;
pub mod text;
