//! How the answer of the engine to a call is read.
//!
//! The engine answers every call with a status code. What a code means
//! depends on the call: each call site is an `Operation`, and `classify`
//! tells for an operation and a code whether the call succeeded, ended in an
//! outcome that callers expect (nothing found, a stop asked for by a
//! callback), failed, or broke an invariant of the engine. Only after a
//! failure is the engine's record of its last error read; `last_error` turns
//! that record into a message and a class.

use vstd::prelude::*;

verus! {

/// No error.
pub const GIT_OK: i32 = 0;

/// Requested object could not be found.
pub const GIT_ENOTFOUND: i32 = -3;

/// More than one object matches.
pub const GIT_EAMBIGUOUS: i32 = -5;

/// A callback asked for the stop.
pub const GIT_EUSER: i32 = -7;

/// HEAD refers to a branch with no commits.
pub const GIT_EORPHANEDHEAD: i32 = -9;

/// Name or specification is not valid.
pub const GIT_EINVALIDSPEC: i32 = -12;

/// Error classes.
#[allow(non_camel_case_types)]
#[derive(Clone, Copy, Debug, PartialEq, Eq, Structural, Hash)]
pub enum GitError {
    GITERR_NOMEMORY,
    GITERR_OS,
    GITERR_INVALID,
    GITERR_REFERENCE,
    GITERR_ZLIB,
    GITERR_REPOSITORY,
    GITERR_CONFIG,
    GITERR_REGEX,
    GITERR_ODB,
    GITERR_INDEX,
    GITERR_OBJECT,
    GITERR_NET,
    GITERR_TAG,
    GITERR_TREE,
    GITERR_INDEXER,
    GITERR_SSL,
    GITERR_SUBMODULE,
    GITERR_THREAD,
    GITERR_STASH,
    GITERR_CHECKOUT,
    GITERR_FETCHHEAD,
    GITERR_MERGE,
}

impl GitError {
    /// The number of the class: its place in the list, from 0.
    pub open spec fn number(self) -> int {
        match self {
            GitError::GITERR_NOMEMORY => 0,
            GitError::GITERR_OS => 1,
            GitError::GITERR_INVALID => 2,
            GitError::GITERR_REFERENCE => 3,
            GitError::GITERR_ZLIB => 4,
            GitError::GITERR_REPOSITORY => 5,
            GitError::GITERR_CONFIG => 6,
            GitError::GITERR_REGEX => 7,
            GitError::GITERR_ODB => 8,
            GitError::GITERR_INDEX => 9,
            GitError::GITERR_OBJECT => 10,
            GitError::GITERR_NET => 11,
            GitError::GITERR_TAG => 12,
            GitError::GITERR_TREE => 13,
            GitError::GITERR_INDEXER => 14,
            GitError::GITERR_SSL => 15,
            GitError::GITERR_SUBMODULE => 16,
            GitError::GITERR_THREAD => 17,
            GitError::GITERR_STASH => 18,
            GitError::GITERR_CHECKOUT => 19,
            GitError::GITERR_FETCHHEAD => 20,
            GitError::GITERR_MERGE => 21,
        }
    }

    /// The number by which the engine knows the class.
    pub fn code(self) -> (r: i32)
        ensures
            r == self.number(),
    {
        match self {
            GitError::GITERR_NOMEMORY => 0,
            GitError::GITERR_OS => 1,
            GitError::GITERR_INVALID => 2,
            GitError::GITERR_REFERENCE => 3,
            GitError::GITERR_ZLIB => 4,
            GitError::GITERR_REPOSITORY => 5,
            GitError::GITERR_CONFIG => 6,
            GitError::GITERR_REGEX => 7,
            GitError::GITERR_ODB => 8,
            GitError::GITERR_INDEX => 9,
            GitError::GITERR_OBJECT => 10,
            GitError::GITERR_NET => 11,
            GitError::GITERR_TAG => 12,
            GitError::GITERR_TREE => 13,
            GitError::GITERR_INDEXER => 14,
            GitError::GITERR_SSL => 15,
            GitError::GITERR_SUBMODULE => 16,
            GitError::GITERR_THREAD => 17,
            GitError::GITERR_STASH => 18,
            GitError::GITERR_CHECKOUT => 19,
            GitError::GITERR_FETCHHEAD => 20,
            GitError::GITERR_MERGE => 21,
        }
    }

    /// The class with the number `code`, if there is one.
    pub fn from_code(code: i32) -> (r: Option<GitError>)
        ensures
            r matches Some(class) ==> class.number() == code,
            forall|class: GitError| class.number() == code ==> r == Some(class),
            r is Some <==> 0 <= code <= 21,
    {
        match code {
            0 => Some(GitError::GITERR_NOMEMORY),
            1 => Some(GitError::GITERR_OS),
            2 => Some(GitError::GITERR_INVALID),
            3 => Some(GitError::GITERR_REFERENCE),
            4 => Some(GitError::GITERR_ZLIB),
            5 => Some(GitError::GITERR_REPOSITORY),
            6 => Some(GitError::GITERR_CONFIG),
            7 => Some(GitError::GITERR_REGEX),
            8 => Some(GitError::GITERR_ODB),
            9 => Some(GitError::GITERR_INDEX),
            10 => Some(GitError::GITERR_OBJECT),
            11 => Some(GitError::GITERR_NET),
            12 => Some(GitError::GITERR_TAG),
            13 => Some(GitError::GITERR_TREE),
            14 => Some(GitError::GITERR_INDEXER),
            15 => Some(GitError::GITERR_SSL),
            16 => Some(GitError::GITERR_SUBMODULE),
            17 => Some(GitError::GITERR_THREAD),
            18 => Some(GitError::GITERR_STASH),
            19 => Some(GitError::GITERR_CHECKOUT),
            20 => Some(GitError::GITERR_FETCHHEAD),
            21 => Some(GitError::GITERR_MERGE),
            _ => None,
        }
    }
}

/// No two classes share a number.
pub proof fn lemma_class_numbers_distinct(a: GitError, b: GitError)
    ensures
        a.number() == b.number() <==> a == b,
{
}

/// The error that the engine recorded with the message `message` and the
/// class number `klass`; none where the engine knows no class of that
/// number.
pub fn last_error(message: String, klass: i32) -> (r: Option<(String, GitError)>)
    ensures
        r is Some <==> 0 <= klass <= 21,
        r matches Some(error) ==> error.0 == message && error.1.number() == klass,
{
    match GitError::from_code(klass) {
        Some(class) => Some((message, class)),
        None => None,
    }
}

/// A call into the engine whose status code is read.
#[derive(Clone, Copy, Debug, PartialEq, Eq, Structural, Hash)]
pub enum Operation {
    /// Open the repository at a path.
    RepositoryOpen,
    /// Create a repository at a path.
    RepositoryInit,
    /// Clone a remote repository to a path.
    RepositoryClone,
    /// Search the parents of a path for a repository.
    RepositoryDiscover,
    /// Resolve HEAD.
    RepositoryHead,
    /// Look a reference up by its name.
    ReferenceLookup,
    /// Look a local or remote branch up by its name.
    BranchLookup,
    /// Look a commit up by its identifier.
    CommitLookup,
    /// Look a tree up by its identifier.
    TreeLookup,
    /// Look a blob up by its identifier.
    BlobLookup,
    /// Make index and working tree match the commit of HEAD.
    CheckoutHead,
    /// Get the index of the repository.
    RepositoryIndex,
    /// Ask whether the repository is empty; a code of 0 or more is the
    /// answer.
    RepositoryIsEmpty,
    /// Run a callback on the status of each file.
    StatusForeach,
    /// Create a branch at a commit.
    BranchCreate,
    /// Run a callback on each branch.
    BranchForeach,
    /// Write the name of the upstream of a branch to a buffer; a code of 0
    /// or more is a count of bytes.
    BranchUpstreamName,
    /// Write the name of the remote of a remote-tracking branch to a
    /// buffer; a code of 0 or more is a count of bytes.
    BranchRemoteName,
    /// Write a file of the working directory as a blob.
    BlobCreateFromWorkdir,
    /// Write a file of the file system as a blob.
    BlobCreateFromDisk,
    /// Write what a provider of chunks hands over as a blob.
    BlobCreateFromChunks,
    /// Write a buffer as a blob.
    BlobCreateFromBuffer,
    /// Look up the blob that was written a moment ago.
    BlobLookupWritten,
    /// Create a commit.
    CommitCreate,
    /// Get the tree of a commit.
    CommitTree,
    /// Get a parent of a commit by its index.
    CommitParent,
    /// Get the ancestor of a commit that is a number of generations back.
    CommitNthGenAncestor,
    /// Find the entry at a path below a tree.
    TreeEntryByPath,
    /// Walk the entries of a tree with a callback.
    TreeWalk,
    /// Create a tree builder.
    TreebuilderCreate,
    /// Add or update an entry of a tree builder.
    TreebuilderInsert,
    /// Remove an entry of a tree builder.
    TreebuilderRemove,
    /// Write the entries of a tree builder as a tree.
    TreebuilderWrite,
    /// Delete a branch.
    BranchDelete,
    /// Get the name of a branch from its reference.
    BranchName,
    /// Ask whether HEAD points at a branch; 1 and 0 are the answers.
    BranchIsHead,
    /// Rename a branch.
    BranchMove,
    /// Get the upstream of a branch.
    BranchUpstream,
    /// Set or unset the upstream of a branch.
    BranchSetUpstream,
    /// Follow a reference to the identifier it names in the end.
    ReferenceResolve,
    /// Add a file to the index.
    IndexAddByPath,
    /// Remove a file from the index.
    IndexRemoveByPath,
    /// Replace what the index holds by a tree.
    IndexReadTree,
    /// Write the index to disk.
    IndexWrite,
    /// Write the index as a tree.
    IndexWriteTree,
    /// Look up the tree that the index was written as.
    TreeLookupWritten,
}

/// What a status code means for the operation that returned it.
#[derive(Clone, Copy, Debug, PartialEq, Eq, Structural, Hash)]
pub enum Outcome {
    /// The engine did what was asked.
    Success,
    /// The engine did not, in a way callers expect: there was nothing to
    /// find, or a callback asked for the stop. This is reported as `None` or
    /// `false`, never as an error.
    Alternative,
    /// The engine failed. Its record of the last error says how, and has to
    /// be read before any other call into the engine.
    Failure,
    /// The engine contradicts itself: its state cannot be relied on any
    /// more.
    Fatal,
}

impl Operation {
    /// The codes with which the operation succeeds: 0, and for an operation
    /// that answers with a number those that are an answer.
    pub open spec fn succeeds_on(self, code: int) -> bool {
        match self {
            Operation::RepositoryIsEmpty | Operation::BranchUpstreamName
            | Operation::BranchRemoteName => code >= 0,
            Operation::BranchIsHead => code == 0 || code == 1,
            _ => code == 0,
        }
    }

    /// The codes that stand for an outcome of the operation that callers
    /// expect.
    pub open spec fn alternatives(self) -> Set<int> {
        match self {
            Operation::RepositoryDiscover
            | Operation::ReferenceLookup
            | Operation::CommitLookup
            | Operation::TreeLookup
            | Operation::BlobLookup
            | Operation::TreeEntryByPath
            | Operation::TreebuilderRemove
            | Operation::BranchName => Set::new(|code: int| code != 0),
            Operation::RepositoryHead => set![GIT_EORPHANEDHEAD as int, GIT_ENOTFOUND as int],
            Operation::BranchLookup => set![GIT_ENOTFOUND as int, GIT_EINVALIDSPEC as int],
            Operation::CheckoutHead => set![GIT_EORPHANEDHEAD as int],
            Operation::StatusForeach | Operation::BranchForeach | Operation::TreeWalk => set![
                GIT_EUSER as int,
            ],
            Operation::BranchCreate | Operation::BranchMove => set![GIT_EINVALIDSPEC as int],
            Operation::BranchUpstreamName
            | Operation::CommitNthGenAncestor
            | Operation::BranchUpstream => set![GIT_ENOTFOUND as int],
            _ => Set::empty(),
        }
    }

    /// The operation cannot fail while the engine is sound: it reads what
    /// the engine has just written, or allocates.
    pub open spec fn must_succeed(self) -> bool {
        self == Operation::BlobLookupWritten || self == Operation::CommitTree || self
            == Operation::TreebuilderCreate
    }

    /// What `code` means as the answer to the operation.
    pub open spec fn outcome(self, code: int) -> Outcome {
        if self.succeeds_on(code) {
            Outcome::Success
        } else if self.alternatives().contains(code) {
            Outcome::Alternative
        } else if self.must_succeed() {
            Outcome::Fatal
        } else {
            Outcome::Failure
        }
    }

    fn accepts(self, code: i32) -> (r: bool)
        ensures
            r == self.succeeds_on(code as int),
    {
        match self {
            Operation::RepositoryIsEmpty | Operation::BranchUpstreamName
            | Operation::BranchRemoteName => code >= 0,
            Operation::BranchIsHead => code == 0 || code == 1,
            _ => code == 0,
        }
    }

    fn expects(self, code: i32) -> (r: bool)
        requires
            !self.succeeds_on(code as int),
        ensures
            r == self.alternatives().contains(code as int),
    {
        match self {
            Operation::RepositoryDiscover
            | Operation::ReferenceLookup
            | Operation::CommitLookup
            | Operation::TreeLookup
            | Operation::BlobLookup
            | Operation::TreeEntryByPath
            | Operation::TreebuilderRemove
            | Operation::BranchName => true,
            Operation::RepositoryHead => code == GIT_EORPHANEDHEAD || code == GIT_ENOTFOUND,
            Operation::BranchLookup => code == GIT_ENOTFOUND || code == GIT_EINVALIDSPEC,
            Operation::CheckoutHead => code == GIT_EORPHANEDHEAD,
            Operation::StatusForeach | Operation::BranchForeach | Operation::TreeWalk => code
                == GIT_EUSER,
            Operation::BranchCreate | Operation::BranchMove => code == GIT_EINVALIDSPEC,
            Operation::BranchUpstreamName
            | Operation::CommitNthGenAncestor
            | Operation::BranchUpstream => code == GIT_ENOTFOUND,
            _ => false,
        }
    }

    fn is_pledged(self) -> (r: bool)
        ensures
            r == self.must_succeed(),
    {
        match self {
            Operation::BlobLookupWritten | Operation::CommitTree | Operation::TreebuilderCreate => true,
            _ => false,
        }
    }
}

/// Reads the status code that the engine returned from `op`.
pub fn classify(op: Operation, code: i32) -> (r: Outcome)
    ensures
        r == op.outcome(code as int),
{
    if op.accepts(code) {
        Outcome::Success
    } else if op.expects(code) {
        Outcome::Alternative
    } else if op.is_pledged() {
        Outcome::Fatal
    } else {
        Outcome::Failure
    }
}

/// The answer of an operation that answers a question with a number: yes
/// for any number but 0, no for 0, and none where the code is no answer.
pub fn truth(op: Operation, code: i32) -> (r: Option<bool>)
    ensures
        r is Some <==> op.outcome(code as int) == Outcome::Success,
        r matches Some(yes) ==> (yes <==> code != 0),
{
    match classify(op, code) {
        Outcome::Success => Some(code != 0),
        _ => None,
    }
}

/// Every operation succeeds on 0, and no code is both a success and
/// something else.
pub proof fn lemma_zero_is_success(op: Operation, code: int)
    ensures
        op.outcome(0) == Outcome::Success,
        op.outcome(code) == Outcome::Success <==> op.succeeds_on(code),
        op.outcome(code) == Outcome::Fatal ==> op.must_succeed(),
{
}

/// Opening, creating or cloning a repository either succeeds or fails with
/// an error of the engine: no code stands for anything else.
pub proof fn lemma_open_succeeds_or_fails(op: Operation, code: int)
    requires
        op == Operation::RepositoryOpen || op == Operation::RepositoryInit || op
            == Operation::RepositoryClone,
    ensures
        code == 0 ==> op.outcome(code) == Outcome::Success,
        code != 0 ==> op.outcome(code) == Outcome::Failure,
{
}

/// A lookup by name, identifier or path never fails: whatever the code,
/// there is something or there is nothing.
pub proof fn lemma_lookup_never_fails(op: Operation, code: int)
    requires
        op == Operation::RepositoryDiscover || op == Operation::ReferenceLookup || op
            == Operation::CommitLookup || op == Operation::TreeLookup || op
            == Operation::BlobLookup || op == Operation::TreeEntryByPath || op
            == Operation::TreebuilderRemove || op == Operation::BranchName,
    ensures
        code == 0 ==> op.outcome(code) == Outcome::Success,
        code != 0 ==> op.outcome(code) == Outcome::Alternative,
{
}

/// A stop that a callback asked for is never an error: the three
/// operations that run callbacks report it as an outcome that callers
/// expect, and no other code so.
pub proof fn lemma_stop_is_expected(op: Operation, code: int)
    requires
        op == Operation::StatusForeach || op == Operation::BranchForeach || op
            == Operation::TreeWalk,
    ensures
        op.outcome(code) == Outcome::Alternative <==> code == GIT_EUSER,
        op.outcome(code) == Outcome::Failure <==> code != 0 && code != GIT_EUSER,
{
}

} // verus!
