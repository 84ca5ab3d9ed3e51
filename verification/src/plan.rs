//! Filesystem plans: the exact, ordered actions that carry a store operation
//! onto the real directory tree.
//!
//! The caller probes the state of each managed path (absent, a file, or a
//! directory), asks for a plan, and executes the steps one by one in order,
//! aborting on the first failure. Which paths are touched, what is removed
//! before what is copied, and when the marker is written are all decided
//! here, under proof.

use crate::store::MANAGED_PATH_COUNT;
use vstd::prelude::*;

verus! {

/// What a probe of one path found.
#[derive(Clone, Copy, PartialEq, Eq, Structural, Debug)]
pub enum PathKind {
    Missing,
    File,
    Dir,
}

/// One filesystem action. Indices name a managed path; the executor derives
/// the concrete locations from the store root, the account name and the
/// installation root.
#[derive(Clone, Copy, PartialEq, Eq, Structural, Debug)]
pub enum FsStep {
    /// Create the account's snapshot directory if it is absent.
    EnsureAccountDir,
    /// Remove the snapshot's existing copy of this managed path (a directory).
    RemoveSnapshotLeafDir(usize),
    /// Copy the live directory tree at this managed path into the snapshot.
    CopyLiveDirToSnapshot(usize),
    /// Copy the live file at this managed path into the snapshot.
    CopyLiveFileToSnapshot(usize),
    /// Remove the live directory at this managed path.
    RemoveLiveDir(usize),
    /// Remove the live file at this managed path.
    RemoveLiveFile(usize),
    /// Create the live path's missing parent directories.
    EnsureLiveParent(usize),
    /// Copy the snapshot's directory tree for this managed path into place.
    CopySnapshotDirToLive(usize),
    /// Copy the snapshot's file for this managed path into place.
    CopySnapshotFileToLive(usize),
    /// Record the account as the last-active one in the marker file.
    WriteMarker,
}

/// The fixed managed paths, relative to the installation root: two directory
/// trees and one single file.
pub open spec fn managed_path_spec(i: int) -> Seq<char> {
    if i == 0 {
        "Config"@
    } else if i == 1 {
        "Data/RiotGamesPrivateSettings.yaml"@
    } else {
        "Sessions"@
    }
}

/// The leaf name each managed path is stored under inside a snapshot.
pub open spec fn managed_leaf_spec(i: int) -> Seq<char> {
    if i == 0 {
        "Config"@
    } else if i == 1 {
        "RiotGamesPrivateSettings.yaml"@
    } else {
        "Sessions"@
    }
}

/// Hands out a managed path, relative to the installation root.
pub fn managed_path(i: usize) -> (r: &'static str)
    requires
        i < MANAGED_PATH_COUNT,
    ensures
        r@ == managed_path_spec(i as int),
{
    if i == 0 {
        "Config"
    } else if i == 1 {
        "Data/RiotGamesPrivateSettings.yaml"
    } else {
        "Sessions"
    }
}

/// Hands out the snapshot leaf name of a managed path.
pub fn managed_leaf(i: usize) -> (r: &'static str)
    requires
        i < MANAGED_PATH_COUNT,
    ensures
        r@ == managed_leaf_spec(i as int),
{
    if i == 0 {
        "Config"
    } else if i == 1 {
        "RiotGamesPrivateSettings.yaml"
    } else {
        "Sessions"
    }
}

/// The save actions for one managed path: nothing when it is absent live; a
/// file copy for a file; for a directory, removal of the snapshot's existing
/// copy (if any) and then a recursive copy — never a merge.
pub open spec fn save_step_spec(live: Seq<PathKind>, dest_exists: Seq<bool>, i: int) -> Seq<
    FsStep,
> {
    match live[i] {
        PathKind::Missing => seq![],
        PathKind::File => seq![FsStep::CopyLiveFileToSnapshot(i as usize)],
        PathKind::Dir => if dest_exists[i] {
            seq![FsStep::RemoveSnapshotLeafDir(i as usize), FsStep::CopyLiveDirToSnapshot(
                i as usize,
            )]
        } else {
            seq![FsStep::CopyLiveDirToSnapshot(i as usize)]
        },
    }
}

pub open spec fn save_plan_prefix(live: Seq<PathKind>, dest_exists: Seq<bool>, n: int) -> Seq<
    FsStep,
>
    decreases n,
{
    if n <= 0 {
        seq![FsStep::EnsureAccountDir]
    } else {
        save_plan_prefix(live, dest_exists, n - 1) + save_step_spec(live, dest_exists, n - 1)
    }
}

/// The whole save plan: ensure the account directory, handle each managed
/// path in order, then record the account in the marker.
pub open spec fn save_plan_spec(live: Seq<PathKind>, dest_exists: Seq<bool>) -> Seq<FsStep> {
    save_plan_prefix(live, dest_exists, live.len() as int).push(FsStep::WriteMarker)
}

/// Builds the save plan from the probed state of the live managed paths and
/// of the snapshot's existing leaves.
pub fn save_plan(live: &Vec<PathKind>, dest_exists: &Vec<bool>) -> (r: Vec<FsStep>)
    requires
        live@.len() == MANAGED_PATH_COUNT,
        dest_exists@.len() == MANAGED_PATH_COUNT,
    ensures
        r@ == save_plan_spec(live@, dest_exists@),
{
    let mut r: Vec<FsStep> = Vec::new();
    r.push(FsStep::EnsureAccountDir);
    let mut i: usize = 0;
    while i < live.len()
        invariant
            live@.len() == MANAGED_PATH_COUNT,
            dest_exists@.len() == MANAGED_PATH_COUNT,
            i <= live@.len(),
            r@ =~= save_plan_prefix(live@, dest_exists@, i as int),
        decreases live@.len() - i,
    {
        match live[i] {
            PathKind::Missing => {},
            PathKind::File => {
                r.push(FsStep::CopyLiveFileToSnapshot(i));
            },
            PathKind::Dir => {
                if dest_exists[i] {
                    r.push(FsStep::RemoveSnapshotLeafDir(i));
                }
                r.push(FsStep::CopyLiveDirToSnapshot(i));
            },
        }
        i += 1;
        proof {
            assert(r@ =~= save_plan_prefix(live@, dest_exists@, i as int));
        }
    }
    proof {
        assert(r@.push(FsStep::WriteMarker) =~= save_plan_spec(live@, dest_exists@));
    }
    r.push(FsStep::WriteMarker);
    r
}

/// The restore actions for one managed path: nothing when the snapshot lacks
/// it (the live path is left untouched); otherwise removal of whatever is
/// live there, creation of missing parents, and the copy back into place.
pub open spec fn restore_step_spec(
    snap: Seq<PathKind>,
    live: Seq<PathKind>,
    parent_missing: Seq<bool>,
    i: int,
) -> Seq<FsStep> {
    if snap[i] is Missing {
        seq![]
    } else {
        (match live[i] {
            PathKind::Missing => seq![],
            PathKind::File => seq![FsStep::RemoveLiveFile(i as usize)],
            PathKind::Dir => seq![FsStep::RemoveLiveDir(i as usize)],
        }) + (if parent_missing[i] {
            seq![FsStep::EnsureLiveParent(i as usize)]
        } else {
            Seq::empty()
        }) + (if snap[i] is Dir {
            seq![FsStep::CopySnapshotDirToLive(i as usize)]
        } else {
            seq![FsStep::CopySnapshotFileToLive(i as usize)]
        })
    }
}

pub open spec fn restore_plan_prefix(
    snap: Seq<PathKind>,
    live: Seq<PathKind>,
    parent_missing: Seq<bool>,
    n: int,
) -> Seq<FsStep>
    decreases n,
{
    if n <= 0 {
        Seq::empty()
    } else {
        restore_plan_prefix(snap, live, parent_missing, n - 1) + restore_step_spec(
            snap,
            live,
            parent_missing,
            n - 1,
        )
    }
}

/// The whole restore plan: each managed path in order, path by path, with no
/// transaction around them.
pub open spec fn restore_plan_spec(
    snap: Seq<PathKind>,
    live: Seq<PathKind>,
    parent_missing: Seq<bool>,
) -> Seq<FsStep> {
    restore_plan_prefix(snap, live, parent_missing, snap.len() as int)
}

/// Builds the restore plan from the probed state of the snapshot's leaves,
/// the live managed paths, and whether each live path's parent is missing.
pub fn restore_plan(snap: &Vec<PathKind>, live: &Vec<PathKind>, parent_missing: &Vec<bool>) -> (r:
    Vec<FsStep>)
    requires
        snap@.len() == MANAGED_PATH_COUNT,
        live@.len() == MANAGED_PATH_COUNT,
        parent_missing@.len() == MANAGED_PATH_COUNT,
    ensures
        r@ == restore_plan_spec(snap@, live@, parent_missing@),
{
    let mut r: Vec<FsStep> = Vec::new();
    let mut i: usize = 0;
    while i < snap.len()
        invariant
            snap@.len() == MANAGED_PATH_COUNT,
            live@.len() == MANAGED_PATH_COUNT,
            parent_missing@.len() == MANAGED_PATH_COUNT,
            i <= snap@.len(),
            r@ =~= restore_plan_prefix(snap@, live@, parent_missing@, i as int),
        decreases snap@.len() - i,
    {
        match snap[i] {
            PathKind::Missing => {},
            _ => {
                match live[i] {
                    PathKind::Missing => {},
                    PathKind::File => {
                        r.push(FsStep::RemoveLiveFile(i));
                    },
                    PathKind::Dir => {
                        r.push(FsStep::RemoveLiveDir(i));
                    },
                }
                if parent_missing[i] {
                    r.push(FsStep::EnsureLiveParent(i));
                }
                match snap[i] {
                    PathKind::Dir => {
                        r.push(FsStep::CopySnapshotDirToLive(i));
                    },
                    _ => {
                        r.push(FsStep::CopySnapshotFileToLive(i));
                    },
                }
            },
        }
        i += 1;
        proof {
            assert(r@ =~= restore_plan_prefix(snap@, live@, parent_missing@, i as int));
        }
    }
    r
}

/// The switch protocol's save-before-switch decision: the outgoing account to
/// save first is the marker's name exactly when it is non-empty and differs
/// from the target. Its save failure is reported, logged and swallowed by the
/// caller — the switch proceeds regardless.
pub fn outgoing_to_save(marker: &Option<String>, target: &String) -> (r: Option<String>)
    ensures
        match r {
            Some(m) => (marker matches Some(mm) && mm@ == m@) && m@ != target@ && m@.len() > 0,
            None => match marker {
                Some(mm) => mm@ == target@ || mm@.len() == 0,
                None => true,
            },
        },
{
    match marker {
        Some(m) => {
            let mc = m.clone();
            if !(mc == *target) && !mc.as_str().is_empty() {
                Some(mc)
            } else {
                None
            }
        },
        None => None,
    }
}

} // verus!
