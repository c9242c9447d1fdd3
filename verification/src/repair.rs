//! The filesystem-check dispatcher's pure core.
//!
//! The surrounding tool spawns the actual check binaries; this module
//! decides everything around that call: which tool to run for a
//! filesystem and with what ceremony, and what the tool's exit status
//! means for the rest of the recovery run. The exit-code taxonomy is
//! deliberately uneven, because the repair tools overload generic codes:
//! a blind "nonzero is fatal" would abort fully recovered systems, and a
//! blind "nonzero is fine" would run past unrepairable ones.

use vstd::prelude::*;
use vstd::string::*;

use crate::text::str_eq;

verus! {

/// How a filesystem-check tool ended, as the process layer saw it.
#[derive(Clone, Copy, PartialEq, Eq, Structural, Debug)]
pub enum ToolStatus {
    /// The tool could not be spawned at all (missing binary, say).
    SpawnFailed,
    /// The tool exited with this exit code.
    Exited(i32),
    /// The tool was terminated by a signal; no exit code exists.
    Signaled,
}

/// What a completed check means for the rest of the recovery run.
#[derive(Clone, Copy, PartialEq, Eq, Structural, Debug)]
pub enum RepairOutcome {
    /// The filesystem is clean, or nothing needed to run; continue.
    Clean,
    /// The tool repaired what it found, or reported a code known to be
    /// acceptable; continue.
    RepairedOrAcceptable,
    /// The tool reported an unrepairable filesystem (the ext4 family
    /// reserves this code for "could not repair"); the whole run must
    /// stop. Carries the exit code.
    UnrepairableFatal(i32),
    /// The tool died on a signal and left the filesystem in an unknown
    /// state; the run must abort.
    ToolTerminatedBySignal,
}

impl RepairOutcome {
    /// Whether the run may continue past this outcome.
    pub fn continues(&self) -> (r: bool)
        ensures
            r == (*self is Clean || *self is RepairedOrAcceptable),
    {
        match self {
            RepairOutcome::Clean => true,
            RepairOutcome::RepairedOrAcceptable => true,
            RepairOutcome::UnrepairableFatal(_) => false,
            RepairOutcome::ToolTerminatedBySignal => false,
        }
    }
}

/// The filesystem name `xfs`.
pub open spec fn fs_xfs() -> Seq<char> {
    seq!['x', 'f', 's']
}

/// The filesystem name `fat16`.
pub open spec fn fs_fat16() -> Seq<char> {
    seq!['f', 'a', 't', '1', '6']
}

/// The filesystem name `vfat`.
pub open spec fn fs_vfat() -> Seq<char> {
    seq!['v', 'f', 'a', 't']
}

/// The XFS repair binary's name.
pub open spec fn xfs_repair_name() -> Seq<char> {
    seq!['x', 'f', 's', '_', 'r', 'e', 'p', 'a', 'i', 'r']
}

/// The FAT repair binary's name.
pub open spec fn fsck_vfat_name() -> Seq<char> {
    seq!['f', 's', 'c', 'k', '.', 'v', 'f', 'a', 't']
}

/// The prefix from which a generic check binary's name is synthesized.
pub open spec fn fsck_prefix() -> Seq<char> {
    seq!['f', 's', 'c', 'k', '.']
}

/// The fixed classification table for a check tool's exit status.
///
/// A tool that could not be spawned counts as an implicit exit `0`:
/// deliberately permissive, so that a missing check tool for an unusual
/// filesystem does not abort the whole run. Exit code `4` is the ext4
/// family's "could not repair" and is always fatal. Exit code `1` from
/// the XFS tool is a known false positive for "general error" on a
/// recovered filesystem and is acceptable. A signal leaves the
/// filesystem in an unknown state and aborts. Every other exit code is
/// benign: `0` is clean, the rest count as repaired.
pub open spec fn classification(fs: Seq<char>, status: ToolStatus) -> RepairOutcome {
    match status {
        ToolStatus::Signaled => RepairOutcome::ToolTerminatedBySignal,
        ToolStatus::SpawnFailed => RepairOutcome::Clean,
        ToolStatus::Exited(code) => if code == 4 {
            RepairOutcome::UnrepairableFatal(4)
        } else if code == 1 && fs == fs_xfs() {
            RepairOutcome::RepairedOrAcceptable
        } else if code == 0 {
            RepairOutcome::Clean
        } else {
            RepairOutcome::RepairedOrAcceptable
        },
    }
}

/// Classify one tool status against the fixed failure taxonomy.
pub fn classify_exit(filesystem: &str, status: ToolStatus) -> (r: RepairOutcome)
    ensures
        r == classification(filesystem@, status),
{
    match status {
        ToolStatus::Signaled => RepairOutcome::ToolTerminatedBySignal,
        ToolStatus::SpawnFailed => RepairOutcome::Clean,
        ToolStatus::Exited(code) => {
            proof {
                reveal_strlit("xfs");
                assert("xfs"@ =~= fs_xfs());
            }
            if code == 4 {
                RepairOutcome::UnrepairableFatal(4)
            } else if code == 1 && str_eq(filesystem, "xfs") {
                RepairOutcome::RepairedOrAcceptable
            } else if code == 0 {
                RepairOutcome::Clean
            } else {
                RepairOutcome::RepairedOrAcceptable
            }
        },
    }
}

/// How to check one filesystem: which binary, with what ceremony.
pub struct RepairPlan {
    /// The binary to run.
    pub program: String,
    /// Whether the binary takes the preview/auto flag `-p`.
    pub preview_flag: bool,
    /// Whether the partition must be mounted and unmounted first, so
    /// that a metadata log the on-disk state may still hold is replayed
    /// before the offline check runs.
    pub replay_log_first: bool,
    /// Whether the tool's output is discarded rather than inherited.
    pub quiet: bool,
}

/// Choose the check tool for `filesystem`.
///
/// `None` exactly for the empty name: a member with no filesystem (an
/// LVM physical volume, say) has nothing to check and is skipped, not
/// failed. XFS gets its dedicated repair binary, quiet, after a
/// mount-unmount cycle that replays the log; `fat16` and `vfat` get the
/// FAT tool; everything else a binary synthesized as
/// `fsck.<filesystem>`, both of the latter in preview/auto mode.
pub fn repair_plan(filesystem: &str) -> (r: Option<RepairPlan>)
    ensures
        (r is Some) <==> filesystem@.len() > 0,
        r matches Some(p) ==> {
            &&& filesystem@ == fs_xfs() ==> p.program@ == xfs_repair_name() && !p.preview_flag
                && p.replay_log_first && p.quiet
            &&& (filesystem@ == fs_fat16() || filesystem@ == fs_vfat()) ==> p.program@
                == fsck_vfat_name() && p.preview_flag && !p.replay_log_first && !p.quiet
            &&& (filesystem@ != fs_xfs() && filesystem@ != fs_fat16() && filesystem@ != fs_vfat())
                ==> p.program@ == fsck_prefix() + filesystem@ && p.preview_flag
                && !p.replay_log_first && !p.quiet
        },
{
    let n: usize = filesystem.unicode_len();
    if n == 0 {
        return None;
    }
    proof {
        reveal_strlit("xfs");
        reveal_strlit("fat16");
        reveal_strlit("vfat");
        assert("xfs"@ =~= fs_xfs());
        assert("fat16"@ =~= fs_fat16());
        assert("vfat"@ =~= fs_vfat());
    }
    if str_eq(filesystem, "xfs") {
        let prog: &str = "xfs_repair";
        proof {
            reveal_strlit("xfs_repair");
            assert(prog@ =~= xfs_repair_name());
        }
        Some(RepairPlan {
            program: prog.to_owned(),
            preview_flag: false,
            replay_log_first: true,
            quiet: true,
        })
    } else if str_eq(filesystem, "fat16") || str_eq(filesystem, "vfat") {
        let prog: &str = "fsck.vfat";
        proof {
            reveal_strlit("fsck.vfat");
            assert(prog@ =~= fsck_vfat_name());
        }
        Some(RepairPlan {
            program: prog.to_owned(),
            preview_flag: true,
            replay_log_first: false,
            quiet: false,
        })
    } else {
        let pre: &str = "fsck.";
        proof {
            reveal_strlit("fsck.");
            assert(pre@ =~= fsck_prefix());
        }
        let mut prog = pre.to_owned();
        prog.append(filesystem);
        Some(RepairPlan { program: prog, preview_flag: true, replay_log_first: false, quiet: false })
    }
}

} // verus!
