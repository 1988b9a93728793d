use git2::condition::{GIT_EAMBIGUOUS, GIT_ENOTFOUND};
use git2::repository::{
    commit_request, discover, git_branch_remote_name, upstream_name, NameReply,
};
use git2::signature::{Signature, Time};

fn ann() -> Signature {
    Signature {
        name: "Ann".to_string(),
        email: "ann@example.org".to_string(),
        when: Time { time: 1_370_000_000, offset: 120 },
    }
}

fn bob() -> Signature {
    Signature {
        name: "Bob".to_string(),
        email: "bob@example.org".to_string(),
        when: Time { time: 1_370_000_100, offset: -300 },
    }
}

#[test]
fn discovered_path_is_the_c_string_of_the_buffer() {
    let mut buffer = [0u8; 64];
    buffer[..12].copy_from_slice(b"/work/.git/\0");
    assert_eq!(discover(0, &buffer), Some(&b"/work/.git/"[..]));
}

#[test]
fn nothing_is_discovered_on_any_other_code() {
    let mut buffer = [0u8; 64];
    buffer[..12].copy_from_slice(b"/work/.git/\0");
    assert_eq!(discover(GIT_ENOTFOUND, &buffer), None);
    assert_eq!(discover(-1, &buffer), None);
    assert_eq!(discover(1, &buffer), None);
}

#[test]
fn upstream_name_is_read_from_the_buffer() {
    let mut buffer = [0xaau8; 64];
    buffer[..25].copy_from_slice(b"refs/remotes/origin/main\0");
    assert_eq!(upstream_name(25, &buffer), NameReply::Name(b"refs/remotes/origin/main"));
    assert_eq!(upstream_name(24, &buffer), NameReply::Name(b"refs/remotes/origin/main"));
    assert_eq!(upstream_name(0, &buffer), NameReply::Name(b""));
}

#[test]
fn upstream_name_may_be_absent() {
    let buffer = [0u8; 64];
    assert_eq!(upstream_name(GIT_ENOTFOUND, &buffer), NameReply::Absent);
    assert_eq!(upstream_name(-1, &buffer), NameReply::Failure);
    assert_eq!(upstream_name(GIT_EAMBIGUOUS, &buffer), NameReply::Failure);
}

#[test]
fn a_name_beyond_the_buffer_is_too_long() {
    let buffer = [b'x'; 8];
    assert_eq!(upstream_name(8, &buffer), NameReply::Name(b"xxxxxxxx"));
    assert_eq!(upstream_name(9, &buffer), NameReply::TooLong);
    assert_eq!(git_branch_remote_name(i32::MAX, &buffer), NameReply::TooLong);
}

#[test]
fn remote_name_is_never_absent() {
    let mut buffer = [0u8; 16];
    buffer[..7].copy_from_slice(b"origin\0");
    assert_eq!(git_branch_remote_name(7, &buffer), NameReply::Name(b"origin"));
    assert_eq!(git_branch_remote_name(GIT_ENOTFOUND, &buffer), NameReply::Failure);
    assert_eq!(git_branch_remote_name(GIT_EAMBIGUOUS, &buffer), NameReply::Failure);
    assert_eq!(git_branch_remote_name(-1, &buffer), NameReply::Failure);
}

#[test]
fn commit_request_carries_what_was_given() {
    let request =
        commit_request(Some("HEAD"), &ann(), &bob(), Some("ISO-8859-1"), "first\n", 2).unwrap();
    assert_eq!(request.update_ref, Some(b"HEAD\0".to_vec()));
    assert_eq!(request.author.name, b"Ann\0".to_vec());
    assert_eq!(request.author.email, b"ann@example.org\0".to_vec());
    assert_eq!((request.author.time, request.author.offset), (1_370_000_000, 120));
    assert_eq!(request.committer.name, b"Bob\0".to_vec());
    assert_eq!(request.committer.email, b"bob@example.org\0".to_vec());
    assert_eq!((request.committer.time, request.committer.offset), (1_370_000_100, -300));
    assert_eq!(request.message_encoding, Some(b"ISO-8859-1\0".to_vec()));
    assert_eq!(request.message, b"first\n\0".to_vec());
    assert_eq!(request.parent_count, 2);
}

#[test]
fn commit_request_leaves_out_what_was_not_given() {
    let request = commit_request(None, &ann(), &ann(), None, "", 0).unwrap();
    assert_eq!(request.update_ref, None);
    assert_eq!(request.message_encoding, None);
    assert_eq!(request.message, vec![0]);
    assert_eq!(request.parent_count, 0);
}

#[test]
fn commit_request_refuses_a_zero_byte_in_any_text() {
    assert!(commit_request(Some("HE\0AD"), &ann(), &bob(), None, "m", 0).is_none());
    assert!(commit_request(None, &ann(), &bob(), Some("\0"), "m", 0).is_none());
    assert!(commit_request(None, &ann(), &bob(), None, "m\0", 0).is_none());
    let mut nameless = ann();
    nameless.name = "A\0".to_string();
    assert!(commit_request(None, &nameless, &bob(), None, "m", 0).is_none());
    assert!(commit_request(None, &ann(), &nameless, None, "m", 0).is_none());
}

#[test]
fn commit_request_refuses_what_does_not_fit_a_c_int() {
    let mut far = bob();
    far.when.offset = i64::MAX;
    assert!(commit_request(None, &ann(), &far, None, "m", 0).is_none());
    assert!(commit_request(None, &far, &ann(), None, "m", 0).is_none());
    assert!(commit_request(None, &ann(), &bob(), None, "m", i32::MAX as usize + 1).is_none());
    assert_eq!(
        commit_request(None, &ann(), &bob(), None, "m", i32::MAX as usize).unwrap().parent_count,
        i32::MAX
    );
}
