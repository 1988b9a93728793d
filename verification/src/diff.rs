//! What can have happened to a file between two trees.

use vstd::prelude::*;

verus! {

/// The change that a difference records for one file.
#[allow(non_camel_case_types)]
#[derive(Clone, Copy, Debug, PartialEq, Eq, Structural, Hash)]
pub enum DiffDelta {
    /// No changes: 0.
    GIT_DELTA_UNMODIFIED,
    /// Entry does not exist in old version: 1.
    GIT_DELTA_ADDED,
    /// Entry does not exist in new version: 2.
    GIT_DELTA_DELETED,
    /// Entry content changed between old and new: 3.
    GIT_DELTA_MODIFIED,
    /// Entry was renamed between old and new: 4.
    GIT_DELTA_RENAMED,
    /// Entry was copied from another old entry: 5.
    GIT_DELTA_COPIED,
    /// Entry is ignored item in workdir: 6.
    GIT_DELTA_IGNORED,
    /// Entry is untracked item in workdir: 7.
    GIT_DELTA_UNTRACKED,
    /// Type of entry changed between old and new: 8.
    GIT_DELTA_TYPECHANGE,
}

impl DiffDelta {
    /// The number of the change.
    pub open spec fn number(self) -> int {
        match self {
            DiffDelta::GIT_DELTA_UNMODIFIED => 0,
            DiffDelta::GIT_DELTA_ADDED => 1,
            DiffDelta::GIT_DELTA_DELETED => 2,
            DiffDelta::GIT_DELTA_MODIFIED => 3,
            DiffDelta::GIT_DELTA_RENAMED => 4,
            DiffDelta::GIT_DELTA_COPIED => 5,
            DiffDelta::GIT_DELTA_IGNORED => 6,
            DiffDelta::GIT_DELTA_UNTRACKED => 7,
            DiffDelta::GIT_DELTA_TYPECHANGE => 8,
        }
    }

    /// The number by which the engine knows the change.
    pub fn code(self) -> (r: i32)
        ensures
            r == self.number(),
    {
        match self {
            DiffDelta::GIT_DELTA_UNMODIFIED => 0,
            DiffDelta::GIT_DELTA_ADDED => 1,
            DiffDelta::GIT_DELTA_DELETED => 2,
            DiffDelta::GIT_DELTA_MODIFIED => 3,
            DiffDelta::GIT_DELTA_RENAMED => 4,
            DiffDelta::GIT_DELTA_COPIED => 5,
            DiffDelta::GIT_DELTA_IGNORED => 6,
            DiffDelta::GIT_DELTA_UNTRACKED => 7,
            DiffDelta::GIT_DELTA_TYPECHANGE => 8,
        }
    }

    /// The change with the number `code`, if there is one.
    pub fn from_code(code: i32) -> (r: Option<DiffDelta>)
        ensures
            r matches Some(delta) ==> delta.number() == code,
            forall|delta: DiffDelta| delta.number() == code ==> r == Some(delta),
            r is Some <==> 0 <= code <= 8,
    {
        match code {
            0 => Some(DiffDelta::GIT_DELTA_UNMODIFIED),
            1 => Some(DiffDelta::GIT_DELTA_ADDED),
            2 => Some(DiffDelta::GIT_DELTA_DELETED),
            3 => Some(DiffDelta::GIT_DELTA_MODIFIED),
            4 => Some(DiffDelta::GIT_DELTA_RENAMED),
            5 => Some(DiffDelta::GIT_DELTA_COPIED),
            6 => Some(DiffDelta::GIT_DELTA_IGNORED),
            7 => Some(DiffDelta::GIT_DELTA_UNTRACKED),
            8 => Some(DiffDelta::GIT_DELTA_TYPECHANGE),
            _ => None,
        }
    }
}

} // verus!
