//! What callbacks answer, in the numbers the engine takes.
//!
//! Some calls into the engine run a callback on each item and steer by the
//! number it returns. These functions turn the answer of a callback into
//! that number, one for each of the ways of steering that the engine has.

use vstd::prelude::*;

verus! {

/// A local branch.
pub const GIT_BRANCH_LOCAL: u32 = 1;

/// A remote-tracking branch.
pub const GIT_BRANCH_REMOTE: u32 = 2;

/// What the callback of a walk in pre-order answers.
#[derive(Clone, Copy, Debug, PartialEq, Eq, Structural, Hash)]
pub enum WalkMode {
    /// Go on, and leave out what lies below this entry.
    WalkSkip,
    /// Go on.
    WalkPass,
    /// Stop the walk.
    WalkStop,
}

impl WalkMode {
    /// The number of the answer: 1 to skip, 0 to pass, -1 to stop.
    pub open spec fn number(self) -> int {
        match self {
            WalkMode::WalkSkip => 1,
            WalkMode::WalkPass => 0,
            WalkMode::WalkStop => -1,
        }
    }

    /// The number that tells a walk in pre-order what to do next. The
    /// engine stops at a negative number, leaves out the entries below the
    /// present one at a positive number, and goes on at 0.
    pub fn code(self) -> (r: i32)
        ensures
            r == self.number(),
            r < 0 <==> self == WalkMode::WalkStop,
            r > 0 <==> self == WalkMode::WalkSkip,
            r == 0 <==> self == WalkMode::WalkPass,
    {
        match self {
            WalkMode::WalkSkip => 1,
            WalkMode::WalkPass => 0,
            WalkMode::WalkStop => -1,
        }
    }
}

/// The number that tells an enumeration of statuses or of branches whether
/// to go on: 0 to go on, 1 to stop.
pub fn enumeration_code(go_on: bool) -> (r: i32)
    ensures
        r == (if go_on { 0int } else { 1int }),
{
    if go_on {
        0
    } else {
        1
    }
}

/// The number that tells a walk in post-order whether to go on: 0 to go on,
/// -1 to stop.
pub fn post_walk_code(go_on: bool) -> (r: i32)
    ensures
        r == (if go_on { 0int } else { -1int }),
{
    if go_on {
        0
    } else {
        -1
    }
}

/// The number that tells a tree builder what to do with an entry: 0 to keep
/// it, 1 to remove it.
pub fn filter_code(keep: bool) -> (r: i32)
    ensures
        r == (if keep { 0int } else { 1int }),
{
    if keep {
        0
    } else {
        1
    }
}

/// What a provider of chunks returns for one pull of at most `max_length`
/// bytes.
///
/// `read` is what the source made of the pull: the number of bytes it put
/// into the buffer, 0 at the end of the stream, or `None` where it failed.
/// The engine takes the number of bytes, and a negative number to give up.
/// A number of bytes beyond `max_length` or beyond a C `int` cannot be told
/// to the engine and counts as a failure.
pub fn chunk_code(read: Option<usize>, max_length: usize) -> (r: i32)
    ensures
        match read {
            Some(n) if n <= max_length && n <= i32::MAX => r == n,
            _ => r == -1,
        },
{
    match read {
        Some(n) => {
            if n <= max_length && n <= i32::MAX as usize {
                n as i32
            } else {
                -1
            }
        },
        None => -1,
    }
}

/// The kind of branch to look for.
pub fn branch_type(remote: bool) -> (r: u32)
    ensures
        r == (if remote { GIT_BRANCH_REMOTE } else { GIT_BRANCH_LOCAL }),
{
    if remote {
        GIT_BRANCH_REMOTE
    } else {
        GIT_BRANCH_LOCAL
    }
}

/// The kinds of branches to enumerate, as the sum of their numbers.
pub fn branch_flags(local: bool, remote: bool) -> (r: u32)
    ensures
        r == (if local { 1int } else { 0int }) + (if remote { 2int } else { 0int }),
{
    let flocal = if local {
        GIT_BRANCH_LOCAL
    } else {
        0
    };
    let fremote = if remote {
        GIT_BRANCH_REMOTE
    } else {
        0
    };
    assert(0u32 | 0u32 == 0u32 && 1u32 | 0u32 == 1u32 && 0u32 | 2u32 == 2u32 && 1u32 | 2u32
        == 3u32) by (bit_vector);
    flocal | fremote
}

/// A branch that the engine reports with the kind `kind` is a
/// remote-tracking branch.
pub fn is_remote(kind: u32) -> (r: bool)
    ensures
        r <==> kind == GIT_BRANCH_REMOTE,
{
    kind == GIT_BRANCH_REMOTE
}

} // verus!
