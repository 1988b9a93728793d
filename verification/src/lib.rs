//! Verified core of a binding to a git repository engine.
//!
//! The engine keeps commits, trees, blobs, references and an index, and
//! answers calls with status codes, numbers and buffers. This library holds
//! what a binding decides about those values: how an object identifier is
//! parsed, written and ordered, how times are ordered, what a status code
//! means for each call, what the bits of a status spell, which number tells
//! the engine what a callback answered, and where a text ends in a buffer.

pub mod bridge;
pub mod buffer;
pub mod condition;
pub mod diff;
pub mod object;
pub mod oid;
pub mod repository;
pub mod signature;
pub mod status;

pub use bridge::WalkMode;
pub use condition::{last_error, GitError};
pub use diff::DiffDelta;
pub use object::{FileMode, OType};
pub use oid::OID;
pub use signature::{Signature, Time};
pub use status::Status;
