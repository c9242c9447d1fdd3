//! The EFI partition model.
//!
//! A recovery run may or may not find an EFI partition, and when it does,
//! the facts arrive in a fixed order: partition number and filesystem
//! together, from the same inspection, and the device path strictly
//! later, computed from the number. The state type makes that order
//! impossible to break: a path can only exist once number and filesystem
//! do.

use vstd::prelude::*;
use vstd::string::*;

use crate::digits::dec_rep;
use crate::inspect::{device_path, PartitionFact};

verus! {

/// The system's EFI partition, as far as the run knows it.
pub enum EfiPartitionState {
    /// No EFI partition detected, or none probed yet.
    NoEfi,
    /// An EFI partition was found; its device path is not computed yet.
    PartialEfi { number: u8, filesystem: String },
    /// The complete record, after the path-completion step.
    FullEfi { number: u8, filesystem: String, path: String },
}

impl EfiPartitionState {
    /// The partition number the state carries; zero without one.
    pub open spec fn spec_number(&self) -> u8 {
        match self {
            EfiPartitionState::NoEfi => 0,
            EfiPartitionState::PartialEfi { number, .. } => *number,
            EfiPartitionState::FullEfi { number, .. } => *number,
        }
    }

    /// The filesystem the state carries; empty without one.
    pub open spec fn spec_filesystem(&self) -> Seq<char> {
        match self {
            EfiPartitionState::NoEfi => Seq::empty(),
            EfiPartitionState::PartialEfi { filesystem, .. } => filesystem@,
            EfiPartitionState::FullEfi { filesystem, .. } => filesystem@,
        }
    }

    /// The device path the state carries; empty until the
    /// path-completion step has run.
    pub open spec fn spec_path(&self) -> Seq<char> {
        match self {
            EfiPartitionState::NoEfi => Seq::empty(),
            EfiPartitionState::PartialEfi { .. } => Seq::empty(),
            EfiPartitionState::FullEfi { path, .. } => path@,
        }
    }

    /// The initial state of every distro record: nothing found yet.
    pub fn new() -> (r: Self)
        ensures
            r is NoEfi,
    {
        EfiPartitionState::NoEfi
    }

    /// Record the partition found to be the EFI partition. Number and
    /// filesystem come from the same inspection; any path computed
    /// earlier is discarded, since it belonged to other facts.
    pub fn set_number_and_filesystem(&mut self, fact: PartitionFact)
        ensures
            *final(self) == (EfiPartitionState::PartialEfi {
                number: fact.number,
                filesystem: fact.filesystem,
            }),
    {
        *self = EfiPartitionState::PartialEfi {
            number: fact.number,
            filesystem: fact.filesystem,
        };
    }

    /// Complete the device path from the number already recorded and
    /// the rescue disk's canonical path. Without an EFI partition the
    /// state does not change: there is nothing to path. On a complete
    /// record only the path is recomputed.
    pub fn set_path(&mut self, disk: &str)
        ensures
            *old(self) is NoEfi ==> *final(self) == *old(self),
            !(*old(self) is NoEfi) ==> {
                &&& *final(self) is FullEfi
                &&& (*final(self)).spec_number() == (*old(self)).spec_number()
                &&& (*final(self)).spec_filesystem() == (*old(self)).spec_filesystem()
                &&& (*final(self)).spec_path() == disk@ + dec_rep(
                    (*old(self)).spec_number() as int,
                )
            },
    {
        let (n, f) = match &*self {
            EfiPartitionState::NoEfi => {
                return ;
            },
            EfiPartitionState::PartialEfi { number, filesystem } => (*number, filesystem.clone()),
            EfiPartitionState::FullEfi { number, filesystem, .. } => (*number, filesystem.clone()),
        };
        let p = device_path(disk, n);
        *self = EfiPartitionState::FullEfi { number: n, filesystem: f, path: p };
    }

    /// Whether an EFI partition has been found.
    pub fn has_efi(&self) -> (r: bool)
        ensures
            r == !(*self is NoEfi),
    {
        match self {
            EfiPartitionState::NoEfi => false,
            EfiPartitionState::PartialEfi { .. } => true,
            EfiPartitionState::FullEfi { .. } => true,
        }
    }

    /// The recorded partition number; zero when none is known. Reads
    /// the state and nothing else.
    pub fn get_number(&self) -> (r: u8)
        ensures
            r == self.spec_number(),
    {
        match self {
            EfiPartitionState::NoEfi => 0,
            EfiPartitionState::PartialEfi { number, .. } => *number,
            EfiPartitionState::FullEfi { number, .. } => *number,
        }
    }

    /// The recorded filesystem; empty when none is known. Reads the
    /// state and nothing else.
    pub fn get_filesystem(&self) -> (r: String)
        ensures
            r@ == self.spec_filesystem(),
    {
        match self {
            EfiPartitionState::NoEfi => String::new(),
            EfiPartitionState::PartialEfi { filesystem, .. } => filesystem.clone(),
            EfiPartitionState::FullEfi { filesystem, .. } => filesystem.clone(),
        }
    }

    /// The recorded device path; empty until the path-completion step
    /// has run. Reads the state and nothing else.
    pub fn get_path(&self) -> (r: String)
        ensures
            r@ == self.spec_path(),
    {
        match self {
            EfiPartitionState::NoEfi => String::new(),
            EfiPartitionState::PartialEfi { .. } => String::new(),
            EfiPartitionState::FullEfi { path, .. } => path.clone(),
        }
    }
}

} // verus!
