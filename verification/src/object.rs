//! The kinds of objects and the modes of tree entries, with the numbers by
//! which the engine knows them.

use vstd::prelude::*;

verus! {

/// Valid modes for index and tree entries.
#[allow(non_camel_case_types)]
#[derive(Clone, Copy, Debug, PartialEq, Eq, Structural, Hash)]
pub enum FileMode {
    /// No mode yet: 0.
    GIT_FILEMODE_NEW,
    /// A directory: octal 040000.
    GIT_FILEMODE_TREE,
    /// A regular file: octal 100644.
    GIT_FILEMODE_BLOB,
    /// An executable file: octal 100755.
    GIT_FILEMODE_BLOB_EXECUTABLE,
    /// A symbolic link: octal 120000.
    GIT_FILEMODE_LINK,
    /// A commit of another repository: octal 160000.
    GIT_FILEMODE_COMMIT,
}

/// Basic type (loose or packed) of any object.
#[allow(non_camel_case_types)]
#[derive(Clone, Copy, Debug, PartialEq, Eq, Structural, Hash)]
pub enum OType {
    /// Object can be any of the following: -2.
    GIT_OBJ_ANY,
    /// Object is invalid: -1.
    GIT_OBJ_BAD,
    /// Reserved: 0.
    GIT_OBJ__EXT1,
    /// A commit object: 1.
    GIT_OBJ_COMMIT,
    /// A tree (directory listing) object: 2.
    GIT_OBJ_TREE,
    /// A file revision object: 3.
    GIT_OBJ_BLOB,
    /// An annotated tag object: 4.
    GIT_OBJ_TAG,
    /// Reserved: 5.
    GIT_OBJ__EXT2,
    /// A delta, base is given by an offset: 6.
    GIT_OBJ_OFS_DELTA,
    /// A delta, base is given by object id: 7.
    GIT_OBJ_REF_DELTA,
}

impl FileMode {
    /// The number of the mode.
    pub open spec fn number(self) -> int {
        match self {
            FileMode::GIT_FILEMODE_NEW => 0,
            FileMode::GIT_FILEMODE_TREE => 0x4000,
            FileMode::GIT_FILEMODE_BLOB => 0x81a4,
            FileMode::GIT_FILEMODE_BLOB_EXECUTABLE => 0x81ed,
            FileMode::GIT_FILEMODE_LINK => 0xa000,
            FileMode::GIT_FILEMODE_COMMIT => 0xe000,
        }
    }

    /// The number by which the engine knows the mode.
    pub fn code(self) -> (r: u32)
        ensures
            r == self.number(),
    {
        match self {
            FileMode::GIT_FILEMODE_NEW => 0o000000,
            FileMode::GIT_FILEMODE_TREE => 0o040000,
            FileMode::GIT_FILEMODE_BLOB => 0o100644,
            FileMode::GIT_FILEMODE_BLOB_EXECUTABLE => 0o100755,
            FileMode::GIT_FILEMODE_LINK => 0o120000,
            FileMode::GIT_FILEMODE_COMMIT => 0o160000,
        }
    }

    /// The mode with the number `code`, if there is one.
    pub fn from_code(code: u32) -> (r: Option<FileMode>)
        ensures
            r matches Some(mode) ==> mode.number() == code,
            forall|mode: FileMode| mode.number() == code ==> r == Some(mode),
    {
        if code == 0o000000 {
            Some(FileMode::GIT_FILEMODE_NEW)
        } else if code == 0o040000 {
            Some(FileMode::GIT_FILEMODE_TREE)
        } else if code == 0o100644 {
            Some(FileMode::GIT_FILEMODE_BLOB)
        } else if code == 0o100755 {
            Some(FileMode::GIT_FILEMODE_BLOB_EXECUTABLE)
        } else if code == 0o120000 {
            Some(FileMode::GIT_FILEMODE_LINK)
        } else if code == 0o160000 {
            Some(FileMode::GIT_FILEMODE_COMMIT)
        } else {
            None
        }
    }
}

impl OType {
    /// The number of the type.
    pub open spec fn number(self) -> int {
        match self {
            OType::GIT_OBJ_ANY => -2,
            OType::GIT_OBJ_BAD => -1,
            OType::GIT_OBJ__EXT1 => 0,
            OType::GIT_OBJ_COMMIT => 1,
            OType::GIT_OBJ_TREE => 2,
            OType::GIT_OBJ_BLOB => 3,
            OType::GIT_OBJ_TAG => 4,
            OType::GIT_OBJ__EXT2 => 5,
            OType::GIT_OBJ_OFS_DELTA => 6,
            OType::GIT_OBJ_REF_DELTA => 7,
        }
    }

    /// The number by which the engine knows the type.
    pub fn code(self) -> (r: i32)
        ensures
            r == self.number(),
    {
        match self {
            OType::GIT_OBJ_ANY => -2,
            OType::GIT_OBJ_BAD => -1,
            OType::GIT_OBJ__EXT1 => 0,
            OType::GIT_OBJ_COMMIT => 1,
            OType::GIT_OBJ_TREE => 2,
            OType::GIT_OBJ_BLOB => 3,
            OType::GIT_OBJ_TAG => 4,
            OType::GIT_OBJ__EXT2 => 5,
            OType::GIT_OBJ_OFS_DELTA => 6,
            OType::GIT_OBJ_REF_DELTA => 7,
        }
    }

    /// The type with the number `code`, if there is one.
    pub fn from_code(code: i32) -> (r: Option<OType>)
        ensures
            r matches Some(kind) ==> kind.number() == code,
            forall|kind: OType| kind.number() == code ==> r == Some(kind),
            r is Some <==> -2 <= code <= 7,
    {
        match code {
            -2 => Some(OType::GIT_OBJ_ANY),
            -1 => Some(OType::GIT_OBJ_BAD),
            0 => Some(OType::GIT_OBJ__EXT1),
            1 => Some(OType::GIT_OBJ_COMMIT),
            2 => Some(OType::GIT_OBJ_TREE),
            3 => Some(OType::GIT_OBJ_BLOB),
            4 => Some(OType::GIT_OBJ_TAG),
            5 => Some(OType::GIT_OBJ__EXT2),
            6 => Some(OType::GIT_OBJ_OFS_DELTA),
            7 => Some(OType::GIT_OBJ_REF_DELTA),
            _ => None,
        }
    }
}

/// No two modes share a number.
pub proof fn lemma_mode_numbers_distinct(a: FileMode, b: FileMode)
    ensures
        a.number() == b.number() <==> a == b,
{
}

/// No two types share a number.
pub proof fn lemma_type_numbers_distinct(a: OType, b: OType)
    ensures
        a.number() == b.number() <==> a == b,
{
}

} // verus!
