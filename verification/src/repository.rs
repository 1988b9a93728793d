//! What the calls on a repository hand to the engine, and what they make of
//! its answers.

use vstd::prelude::*;
use vstd::utf8::encode_utf8;
use crate::buffer::{from_c_str, from_c_str_len, holds_nul, is_c_string, terminated, to_c_str};
use crate::condition::{classify, Operation, Outcome};
use crate::signature::{representable, to_c_sig, RawSignature, Signature};

verus! {

/// What a call that writes a name to a buffer and answers with a count has
/// handed over.
#[derive(Clone, Copy, Debug, PartialEq, Eq)]
pub enum NameReply<'a> {
    /// The name.
    Name(&'a [u8]),
    /// There is no such name.
    Absent,
    /// The engine failed; its record of the last error says how.
    Failure,
    /// The name has as many bytes as the engine answered, and the buffer
    /// has fewer.
    TooLong,
}

/// What `reply` has to be when the engine answered `op` with `code` and
/// `buffer`: the C string among the counted bytes where the call succeeded
/// and the count is within the buffer, and else what became of the call.
pub open spec fn reads_name(op: Operation, code: int, buffer: Seq<u8>, reply: NameReply) -> bool {
    match reply {
        NameReply::Name(name) => {
            &&& op.outcome(code) == Outcome::Success
            &&& code <= buffer.len()
            &&& is_c_string(buffer.take(code), name@)
        },
        NameReply::TooLong => op.outcome(code) == Outcome::Success && code > buffer.len(),
        NameReply::Absent => op.outcome(code) == Outcome::Alternative,
        NameReply::Failure => op.outcome(code) != Outcome::Success && op.outcome(code)
            != Outcome::Alternative,
    }
}

fn counted_name<'a>(op: Operation, code: i32, buffer: &'a [u8]) -> (r: NameReply<'a>)
    ensures
        reads_name(op, code as int, buffer@, r),
{
    match classify(op, code) {
        Outcome::Success => match from_c_str_len(buffer, code) {
            Some(name) => NameReply::Name(name),
            None => NameReply::TooLong,
        },
        Outcome::Alternative => NameReply::Absent,
        _ => NameReply::Failure,
    }
}

/// The path of the repository that a search has found: the C string in
/// `buffer` where the engine answered 0, and none for any other code.
pub fn discover(code: i32, buffer: &[u8]) -> (r: Option<&[u8]>)
    ensures
        r is Some <==> code == 0,
        r matches Some(path) ==> is_c_string(buffer@, path@),
{
    match classify(Operation::RepositoryDiscover, code) {
        Outcome::Success => Some(from_c_str(buffer)),
        _ => None,
    }
}

/// The name of the reference that a branch follows, from the answer of
/// the engine: a count of 0 or more with the name in `buffer`, "not found"
/// where the branch follows none, any other code for a failure.
pub fn upstream_name(code: i32, buffer: &[u8]) -> (r: NameReply<'_>)
    ensures
        reads_name(Operation::BranchUpstreamName, code as int, buffer@, r),
{
    counted_name(Operation::BranchUpstreamName, code, buffer)
}

/// The name of the remote that a remote-tracking branch belongs to, from
/// the answer of the engine: a count of 0 or more with the name in
/// `buffer`, any other code for a failure. That no remote matches, or more
/// than one, is a failure too.
pub fn git_branch_remote_name(code: i32, buffer: &[u8]) -> (r: NameReply<'_>)
    ensures
        reads_name(Operation::BranchRemoteName, code as int, buffer@, r),
        r != NameReply::Absent,
{
    counted_name(Operation::BranchRemoteName, code, buffer)
}

/// What the engine is handed to create a commit, but for the tree and the
/// parents themselves.
#[derive(Clone, Debug)]
pub struct CommitRequest {
    /// The C string of the name of the reference to move to the commit.
    pub update_ref: Option<Vec<u8>>,
    pub author: RawSignature,
    pub committer: RawSignature,
    /// The C string of the name of the encoding of the message.
    pub message_encoding: Option<Vec<u8>>,
    /// The C string of the message.
    pub message: Vec<u8>,
    /// The number of parents.
    pub parent_count: i32,
}

/// `text` can be handed to the engine: it holds no zero byte.
pub open spec fn is_c_text(text: Seq<char>) -> bool {
    !holds_nul(encode_utf8(text))
}

/// The C string of `text`.
pub open spec fn c_string(text: Seq<char>) -> Seq<u8> {
    terminated(encode_utf8(text))
}

/// A commit of these values can be asked of the engine: no text holds a
/// zero byte, both signatures have a form for the engine, and the number of
/// parents fits a C `int`.
pub open spec fn can_commit(
    update_ref: Option<&str>,
    author: Signature,
    committer: Signature,
    message_encoding: Option<&str>,
    message: &str,
    parents: usize,
) -> bool {
    &&& update_ref matches Some(name) ==> is_c_text(name@)
    &&& representable(author)
    &&& representable(committer)
    &&& message_encoding matches Some(name) ==> is_c_text(name@)
    &&& is_c_text(message@)
    &&& parents <= i32::MAX
}

fn optional_c_str(text: Option<&str>) -> (r: Option<Option<Vec<u8>>>)
    ensures
        r is Some <==> (text matches Some(t) ==> is_c_text(t@)),
        r matches Some(c) ==> match text {
            Some(t) => c matches Some(bytes) && bytes@ == c_string(t@),
            None => c is None,
        },
{
    match text {
        None => Some(None),
        Some(t) => match to_c_str(t) {
            Some(bytes) => Some(Some(bytes)),
            None => None,
        },
    }
}

fn counted(parents: usize) -> (r: Option<i32>)
    ensures
        r is Some <==> parents <= i32::MAX,
        r matches Some(n) ==> n == parents,
{
    if parents > i32::MAX as usize {
        None
    } else {
        Some(parents as i32)
    }
}

/// What to hand to the engine to create a commit with `parents` parents.
///
/// `update_ref` names the reference to move to the commit, if any, and
/// `message_encoding` the encoding of the message, if it is not UTF-8.
/// There is no request where `can_commit` does not hold.
pub fn commit_request(
    update_ref: Option<&str>,
    author: &Signature,
    committer: &Signature,
    message_encoding: Option<&str>,
    message: &str,
    parents: usize,
) -> (r: Option<CommitRequest>)
    ensures
        r is Some <==> can_commit(
            update_ref,
            *author,
            *committer,
            message_encoding,
            message,
            parents,
        ),
        r matches Some(request) ==> {
            &&& match update_ref {
                Some(name) => request.update_ref matches Some(bytes) && bytes@ == c_string(name@),
                None => request.update_ref is None,
            }
            &&& request.author.name@ == c_string(author.name@)
            &&& request.author.email@ == c_string(author.email@)
            &&& request.author.time == author.when.time
            &&& request.author.offset == author.when.offset
            &&& request.committer.name@ == c_string(committer.name@)
            &&& request.committer.email@ == c_string(committer.email@)
            &&& request.committer.time == committer.when.time
            &&& request.committer.offset == committer.when.offset
            &&& match message_encoding {
                Some(name) => request.message_encoding matches Some(bytes) && bytes@ == c_string(
                    name@,
                ),
                None => request.message_encoding is None,
            }
            &&& request.message@ == c_string(message@)
            &&& request.parent_count == parents
        },
{
    let c_ref = optional_c_str(update_ref);
    let c_author = to_c_sig(author);
    let c_committer = to_c_sig(committer);
    let c_encoding = optional_c_str(message_encoding);
    let c_message = to_c_str(message);
    let count = counted(parents);
    match (c_ref, c_author, c_committer, c_encoding, c_message, count) {
        (
            Some(update_ref),
            Some(author),
            Some(committer),
            Some(message_encoding),
            Some(message),
            Some(parent_count),
        ) => Some(
            CommitRequest { update_ref, author, committer, message_encoding, message, parent_count },
        ),
        _ => None,
    }
}

} // verus!
