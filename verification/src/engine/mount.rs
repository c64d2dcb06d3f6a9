//! The decisions of the search for the project root.
//!
//! The root is the directory that holds the configuration file. It is
//! looked for below the working directory, then below its parent, and so on
//! upwards, a few levels at most. Walking the file system is the caller's
//! part; what to make of each entry and of each level's findings is decided
//! here.

use vstd::prelude::*;
use crate::engine::{text_of, EngineError, MOUNT_ROOT_CONFIG_FILE_NAME};
use crate::text::str_eq;

verus! {

/// How many levels are searched, the working directory being the first.
pub const MAX_DISTANCE: usize = 4;

/// What a directory entry is.
#[derive(Debug, Clone, Copy, PartialEq, Eq, Structural)]
pub enum EntryKind {
    Dir,
    File,
    Other,
}

/// What to do with a directory entry.
#[derive(Debug, Clone, Copy, PartialEq, Eq, Structural)]
pub enum EntryAction {
    /// Search the entry, a directory, in turn.
    Descend,
    /// The directory that is being read is a project root: add it to the
    /// findings.
    Record,
    /// The directory that is being read is the project root that was asked
    /// for by name: it is the one finding of this directory.
    Found,
    /// Pass over the entry.
    Skip,
}

/// What to do with an entry of kind `kind` and name `file_name` in a
/// directory named `dir_name`, when the root named `search_mount_name` is
/// looked for, or any root if no name is given. `is_self` says that the
/// entry is the directory itself.
pub open spec fn entry_action(
    kind: EntryKind,
    is_self: bool,
    file_name: Seq<char>,
    dir_name: Seq<char>,
    search_mount_name: Option<Seq<char>>,
) -> EntryAction {
    if kind == EntryKind::Dir && !is_self {
        EntryAction::Descend
    } else if kind == EntryKind::File && file_name == MOUNT_ROOT_CONFIG_FILE_NAME@ {
        match search_mount_name {
            Some(name) => if name == dir_name {
                EntryAction::Found
            } else {
                EntryAction::Skip
            },
            None => EntryAction::Record,
        }
    } else {
        EntryAction::Skip
    }
}

/// Decides what to do with one directory entry.
pub fn classify_entry(
    kind: EntryKind,
    is_self: bool,
    file_name: &str,
    dir_name: &str,
    search_mount_name: &Option<String>,
) -> (r: EntryAction)
    ensures
        r == entry_action(kind, is_self, file_name@, dir_name@, text_of(*search_mount_name)),
{
    match kind {
        EntryKind::Dir => {
            if !is_self {
                return EntryAction::Descend;
            }
        },
        EntryKind::File => {
            if str_eq(file_name, MOUNT_ROOT_CONFIG_FILE_NAME) {
                return match search_mount_name {
                    Some(name) => {
                        if str_eq(name.as_str(), dir_name) {
                            EntryAction::Found
                        } else {
                            EntryAction::Skip
                        }
                    },
                    None => EntryAction::Record,
                };
            }
        },
        EntryKind::Other => {},
    }
    EntryAction::Skip
}

/// How the search goes on after one level.
#[derive(Debug)]
pub enum SearchStep {
    /// The project root.
    Found(String),
    /// Nothing here: search from the parent directory, at this distance.
    Widen(usize),
    /// The search is over without a root.
    Failed(EngineError),
}

/// The paths of a level's findings, in order.
pub open spec fn paths_of(report: Seq<(String, usize)>) -> Seq<Seq<char>> {
    report.map_values(|found: (String, usize)| found.0@)
}

/// The texts of a list of strings.
pub open spec fn path_texts(paths: Seq<String>) -> Seq<Seq<char>> {
    paths.map_values(|path: String| path@)
}

/// `step` is how the search goes on after the level at `distance` has
/// found `report`: one finding is the root; several are an error that
/// names them all; none widens the search by one level, unless `distance`
/// was the last level to be searched.
pub open spec fn judged(report: Seq<(String, usize)>, distance: usize, step: SearchStep) -> bool {
    match step {
        SearchStep::Found(path) => report.len() == 1 && path@ == report[0].0@,
        SearchStep::Failed(EngineError::MountAmbiguousRoots(paths)) => report.len() > 1 && path_texts(paths@)
            == paths_of(report),
        SearchStep::Failed(EngineError::MountSearchRootNotFoundNearby) => report.len() == 0 && distance
            >= MAX_DISTANCE,
        SearchStep::Widen(next) => report.len() == 0 && distance < MAX_DISTANCE && next == distance + 1,
        SearchStep::Failed(_) => false,
    }
}

/// Decides how the search goes on after the level at `distance` has found
/// `report`: each finding a path and the distance at which it lay.
pub fn judge_report(report: &Vec<(String, usize)>, distance: usize) -> (r: SearchStep)
    ensures
        judged(report@, distance, r),
{
    if report.len() == 0 {
        if distance >= MAX_DISTANCE {
            SearchStep::Failed(EngineError::MountSearchRootNotFoundNearby)
        } else {
            SearchStep::Widen(distance + 1)
        }
    } else if report.len() != 1 {
        let mut paths: Vec<String> = Vec::new();
        let mut i: usize = 0;
        while i < report.len()
            invariant
                i <= report@.len(),
                paths@.len() == i,
                forall|j: int| 0 <= j < i ==> (#[trigger] paths@[j])@ == report@[j].0@,
            decreases report@.len() - i,
        {
            paths.push(report[i].0.clone());
            i += 1;
        }
        assert(path_texts(paths@) =~= paths_of(report@));
        SearchStep::Failed(EngineError::MountAmbiguousRoots(paths))
    } else {
        SearchStep::Found(report[0].0.clone())
    }
}

} // verus!
