//! The status of a file: how the index differs from HEAD for it, and how
//! the working directory differs from the index.

use vstd::prelude::*;

verus! {

/// The file is in the index and not in HEAD.
pub const GIT_STATUS_INDEX_NEW: u32 = 0x0001;

/// The file differs between the index and HEAD.
pub const GIT_STATUS_INDEX_MODIFIED: u32 = 0x0002;

/// The file is in HEAD and not in the index.
pub const GIT_STATUS_INDEX_DELETED: u32 = 0x0004;

/// The file was renamed between HEAD and the index.
pub const GIT_STATUS_INDEX_RENAMED: u32 = 0x0008;

/// The type of the file differs between the index and HEAD.
pub const GIT_STATUS_INDEX_TYPECHANGE: u32 = 0x0010;

/// The file is in the working directory and not in the index.
pub const GIT_STATUS_WT_NEW: u32 = 0x0080;

/// The file differs between the working directory and the index.
pub const GIT_STATUS_WT_MODIFIED: u32 = 0x0100;

/// The file is in the index and not in the working directory.
pub const GIT_STATUS_WT_DELETED: u32 = 0x0200;

/// The type of the file differs between the working directory and the
/// index.
pub const GIT_STATUS_WT_TYPECHANGE: u32 = 0x0400;

/// The file is ignored.
pub const GIT_STATUS_IGNORED: u32 = 0x4000;

/// Status flags for a single file.
///
/// The `index` flags tell how the file in the index differs from HEAD, the
/// `wt` flags how the file in the working directory differs from the index.
#[derive(Clone, Copy, Debug, PartialEq, Eq, Structural, Hash)]
pub struct Status {
    pub index_new: bool,
    pub index_modified: bool,
    pub index_deleted: bool,
    pub index_renamed: bool,
    pub index_typechange: bool,
    pub wt_new: bool,
    pub wt_modified: bool,
    pub wt_deleted: bool,
    pub wt_typechange: bool,
    pub ignored: bool,
}

/// The bit `flag` is set in `flags`.
pub open spec fn flagged(flags: u32, flag: u32) -> bool {
    flags & flag != 0
}

/// The status that the bits of `flags` spell.
pub open spec fn status_of(flags: u32) -> Status {
    Status {
        index_new: flagged(flags, GIT_STATUS_INDEX_NEW),
        index_modified: flagged(flags, GIT_STATUS_INDEX_MODIFIED),
        index_deleted: flagged(flags, GIT_STATUS_INDEX_DELETED),
        index_renamed: flagged(flags, GIT_STATUS_INDEX_RENAMED),
        index_typechange: flagged(flags, GIT_STATUS_INDEX_TYPECHANGE),
        wt_new: flagged(flags, GIT_STATUS_WT_NEW),
        wt_modified: flagged(flags, GIT_STATUS_WT_MODIFIED),
        wt_deleted: flagged(flags, GIT_STATUS_WT_DELETED),
        wt_typechange: flagged(flags, GIT_STATUS_WT_TYPECHANGE),
        ignored: flagged(flags, GIT_STATUS_IGNORED),
    }
}

/// The status with no flag set.
pub open spec fn unchanged() -> Status {
    Status {
        index_new: false,
        index_modified: false,
        index_deleted: false,
        index_renamed: false,
        index_typechange: false,
        wt_new: false,
        wt_modified: false,
        wt_deleted: false,
        wt_typechange: false,
        ignored: false,
    }
}

impl Status {
    /// The status with every flag `false`.
    pub fn new() -> (r: Status)
        ensures
            r == unchanged(),
    {
        Status {
            index_new: false,
            index_modified: false,
            index_deleted: false,
            index_renamed: false,
            index_typechange: false,
            wt_new: false,
            wt_modified: false,
            wt_deleted: false,
            wt_typechange: false,
            ignored: false,
        }
    }

    /// The status that the engine reports as `flags`: one flag for each of
    /// the ten bits it knows, whatever the other bits hold.
    pub fn from_flags(flags: u32) -> (r: Status)
        ensures
            r == status_of(flags),
    {
        Status {
            index_new: flags & GIT_STATUS_INDEX_NEW != 0,
            index_modified: flags & GIT_STATUS_INDEX_MODIFIED != 0,
            index_deleted: flags & GIT_STATUS_INDEX_DELETED != 0,
            index_renamed: flags & GIT_STATUS_INDEX_RENAMED != 0,
            index_typechange: flags & GIT_STATUS_INDEX_TYPECHANGE != 0,
            wt_new: flags & GIT_STATUS_WT_NEW != 0,
            wt_modified: flags & GIT_STATUS_WT_MODIFIED != 0,
            wt_deleted: flags & GIT_STATUS_WT_DELETED != 0,
            wt_typechange: flags & GIT_STATUS_WT_TYPECHANGE != 0,
            ignored: flags & GIT_STATUS_IGNORED != 0,
        }
    }
}

/// The statuses of the files that the engine reported, each with its path,
/// in the order in which they were reported.
pub fn status(reported: &Vec<(String, u32)>) -> (r: Vec<(String, Status)>)
    ensures
        r@.len() == reported@.len(),
        forall|i: int|
            0 <= i < reported@.len() ==> (#[trigger] r@[i]).0@ == reported@[i].0@ && r@[i].1
                == status_of(reported@[i].1),
{
    let mut list: Vec<(String, Status)> = Vec::new();
    let mut i: usize = 0;
    while i < reported.len()
        invariant
            i <= reported@.len(),
            list@.len() == i,
            forall|k: int|
                0 <= k < i ==> (#[trigger] list@[k]).0@ == reported@[k].0@ && list@[k].1
                    == status_of(reported@[k].1),
        decreases reported@.len() - i,
    {
        let path = reported[i].0.clone();
        let flags = reported[i].1;
        list.push((path, Status::from_flags(flags)));
        i += 1;
    }
    list
}

/// No flags spell the status with no flag set.
pub proof fn lemma_no_flags()
    ensures
        status_of(0) == unchanged(),
{
    assert(forall|flag: u32| 0u32 & flag == 0) by (bit_vector);
}

/// A flag is one binary digit of the number: the bit of value `2^k` is set
/// where the `k`th digit is 1.
pub proof fn lemma_flags_are_digits(flags: u32)
    ensures
        flagged(flags, GIT_STATUS_INDEX_NEW) <==> flags % 2 == 1,
        flagged(flags, GIT_STATUS_INDEX_MODIFIED) <==> (flags / 2) % 2 == 1,
        flagged(flags, GIT_STATUS_INDEX_DELETED) <==> (flags / 4) % 2 == 1,
        flagged(flags, GIT_STATUS_INDEX_RENAMED) <==> (flags / 8) % 2 == 1,
        flagged(flags, GIT_STATUS_INDEX_TYPECHANGE) <==> (flags / 16) % 2 == 1,
        flagged(flags, GIT_STATUS_WT_NEW) <==> (flags / 128) % 2 == 1,
        flagged(flags, GIT_STATUS_WT_MODIFIED) <==> (flags / 256) % 2 == 1,
        flagged(flags, GIT_STATUS_WT_DELETED) <==> (flags / 512) % 2 == 1,
        flagged(flags, GIT_STATUS_WT_TYPECHANGE) <==> (flags / 1024) % 2 == 1,
        flagged(flags, GIT_STATUS_IGNORED) <==> (flags / 16384) % 2 == 1,
{
    assert(flags & 0x0001 != 0 <==> flags % 2 == 1) by (bit_vector);
    assert(flags & 0x0002 != 0 <==> (flags / 2) % 2 == 1) by (bit_vector);
    assert(flags & 0x0004 != 0 <==> (flags / 4) % 2 == 1) by (bit_vector);
    assert(flags & 0x0008 != 0 <==> (flags / 8) % 2 == 1) by (bit_vector);
    assert(flags & 0x0010 != 0 <==> (flags / 16) % 2 == 1) by (bit_vector);
    assert(flags & 0x0080 != 0 <==> (flags / 128) % 2 == 1) by (bit_vector);
    assert(flags & 0x0100 != 0 <==> (flags / 256) % 2 == 1) by (bit_vector);
    assert(flags & 0x0200 != 0 <==> (flags / 512) % 2 == 1) by (bit_vector);
    assert(flags & 0x0400 != 0 <==> (flags / 1024) % 2 == 1) by (bit_vector);
    assert(flags & 0x4000 != 0 <==> (flags / 16384) % 2 == 1) by (bit_vector);
}

/// The ten flags are independent: setting the bit of one of them in a
/// number changes that flag and no other.
pub proof fn lemma_flags_independent(flags: u32)
    ensures
        status_of(flags | GIT_STATUS_INDEX_NEW) == (Status {
            index_new: true,
            ..status_of(flags)
        }),
        status_of(flags | GIT_STATUS_INDEX_MODIFIED) == (Status {
            index_modified: true,
            ..status_of(flags)
        }),
        status_of(flags | GIT_STATUS_INDEX_DELETED) == (Status {
            index_deleted: true,
            ..status_of(flags)
        }),
        status_of(flags | GIT_STATUS_INDEX_RENAMED) == (Status {
            index_renamed: true,
            ..status_of(flags)
        }),
        status_of(flags | GIT_STATUS_INDEX_TYPECHANGE) == (Status {
            index_typechange: true,
            ..status_of(flags)
        }),
        status_of(flags | GIT_STATUS_WT_NEW) == (Status { wt_new: true, ..status_of(flags) }),
        status_of(flags | GIT_STATUS_WT_MODIFIED) == (Status {
            wt_modified: true,
            ..status_of(flags)
        }),
        status_of(flags | GIT_STATUS_WT_DELETED) == (Status {
            wt_deleted: true,
            ..status_of(flags)
        }),
        status_of(flags | GIT_STATUS_WT_TYPECHANGE) == (Status {
            wt_typechange: true,
            ..status_of(flags)
        }),
        status_of(flags | GIT_STATUS_IGNORED) == (Status { ignored: true, ..status_of(flags) }),
{
    lemma_set_bit(flags, 0x0001);
    lemma_set_bit(flags, 0x0002);
    lemma_set_bit(flags, 0x0004);
    lemma_set_bit(flags, 0x0008);
    lemma_set_bit(flags, 0x0010);
    lemma_set_bit(flags, 0x0080);
    lemma_set_bit(flags, 0x0100);
    lemma_set_bit(flags, 0x0200);
    lemma_set_bit(flags, 0x0400);
    lemma_set_bit(flags, 0x4000);
}

proof fn lemma_set_bit(flags: u32, flag: u32)
    by (bit_vector)
    requires
        flag == 0x0001 || flag == 0x0002 || flag == 0x0004 || flag == 0x0008 || flag == 0x0010
            || flag == 0x0080 || flag == 0x0100 || flag == 0x0200 || flag == 0x0400 || flag
            == 0x4000,
    ensures
        (flags | flag) & flag != 0,
        flag != 0x0001 ==> ((flags | flag) & 0x0001 != 0 <==> flags & 0x0001 != 0),
        flag != 0x0002 ==> ((flags | flag) & 0x0002 != 0 <==> flags & 0x0002 != 0),
        flag != 0x0004 ==> ((flags | flag) & 0x0004 != 0 <==> flags & 0x0004 != 0),
        flag != 0x0008 ==> ((flags | flag) & 0x0008 != 0 <==> flags & 0x0008 != 0),
        flag != 0x0010 ==> ((flags | flag) & 0x0010 != 0 <==> flags & 0x0010 != 0),
        flag != 0x0080 ==> ((flags | flag) & 0x0080 != 0 <==> flags & 0x0080 != 0),
        flag != 0x0100 ==> ((flags | flag) & 0x0100 != 0 <==> flags & 0x0100 != 0),
        flag != 0x0200 ==> ((flags | flag) & 0x0200 != 0 <==> flags & 0x0200 != 0),
        flag != 0x0400 ==> ((flags | flag) & 0x0400 != 0 <==> flags & 0x0400 != 0),
        flag != 0x4000 ==> ((flags | flag) & 0x4000 != 0 <==> flags & 0x4000 != 0),
{
}

} // verus!
