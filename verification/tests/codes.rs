use git2::bridge::{
    branch_flags, branch_type, chunk_code, enumeration_code, filter_code, is_remote,
    post_walk_code, WalkMode, GIT_BRANCH_LOCAL, GIT_BRANCH_REMOTE,
};
use git2::condition::GitError;
use git2::diff::DiffDelta;
use git2::object::{FileMode, OType};

#[test]
fn file_modes_have_the_numbers_of_the_engine() {
    assert_eq!(FileMode::GIT_FILEMODE_NEW.code(), 0);
    assert_eq!(FileMode::GIT_FILEMODE_TREE.code(), 0x4000);
    assert_eq!(FileMode::GIT_FILEMODE_BLOB.code(), 0x81a4);
    assert_eq!(FileMode::GIT_FILEMODE_BLOB.code(), 33188);
    assert_eq!(FileMode::GIT_FILEMODE_BLOB_EXECUTABLE.code(), 0x81ed);
    assert_eq!(FileMode::GIT_FILEMODE_LINK.code(), 0xa000);
    assert_eq!(FileMode::GIT_FILEMODE_COMMIT.code(), 0xe000);
}

#[test]
fn file_modes_come_back_from_their_numbers() {
    let all = [
        FileMode::GIT_FILEMODE_NEW,
        FileMode::GIT_FILEMODE_TREE,
        FileMode::GIT_FILEMODE_BLOB,
        FileMode::GIT_FILEMODE_BLOB_EXECUTABLE,
        FileMode::GIT_FILEMODE_LINK,
        FileMode::GIT_FILEMODE_COMMIT,
    ];
    for mode in all {
        assert_eq!(FileMode::from_code(mode.code()), Some(mode));
    }
    assert_eq!(FileMode::from_code(1), None);
    assert_eq!(FileMode::from_code(0o100600), None);
    assert_eq!(FileMode::from_code(u32::MAX), None);
}

#[test]
fn object_types_have_the_numbers_of_the_engine() {
    let all = [
        (OType::GIT_OBJ_ANY, -2),
        (OType::GIT_OBJ_BAD, -1),
        (OType::GIT_OBJ__EXT1, 0),
        (OType::GIT_OBJ_COMMIT, 1),
        (OType::GIT_OBJ_TREE, 2),
        (OType::GIT_OBJ_BLOB, 3),
        (OType::GIT_OBJ_TAG, 4),
        (OType::GIT_OBJ__EXT2, 5),
        (OType::GIT_OBJ_OFS_DELTA, 6),
        (OType::GIT_OBJ_REF_DELTA, 7),
    ];
    for (kind, number) in all {
        assert_eq!(kind.code(), number);
        assert_eq!(OType::from_code(number), Some(kind));
    }
    assert_eq!(OType::from_code(-3), None);
    assert_eq!(OType::from_code(8), None);
}

#[test]
fn deltas_have_the_numbers_of_the_engine() {
    let all = [
        (DiffDelta::GIT_DELTA_UNMODIFIED, 0),
        (DiffDelta::GIT_DELTA_ADDED, 1),
        (DiffDelta::GIT_DELTA_DELETED, 2),
        (DiffDelta::GIT_DELTA_MODIFIED, 3),
        (DiffDelta::GIT_DELTA_RENAMED, 4),
        (DiffDelta::GIT_DELTA_COPIED, 5),
        (DiffDelta::GIT_DELTA_IGNORED, 6),
        (DiffDelta::GIT_DELTA_UNTRACKED, 7),
        (DiffDelta::GIT_DELTA_TYPECHANGE, 8),
    ];
    for (delta, number) in all {
        assert_eq!(delta.code(), number);
        assert_eq!(DiffDelta::from_code(number), Some(delta));
    }
    assert_eq!(DiffDelta::from_code(9), None);
    assert_eq!(DiffDelta::from_code(-1), None);
}

#[test]
fn error_classes_are_numbered_from_zero() {
    assert_eq!(GitError::GITERR_NOMEMORY.code(), 0);
    assert_eq!(GitError::GITERR_REPOSITORY.code(), 5);
    assert_eq!(GitError::GITERR_TREE.code(), 13);
    assert_eq!(GitError::GITERR_MERGE.code(), 21);
    for number in 0..22 {
        assert_eq!(GitError::from_code(number).unwrap().code(), number);
    }
    assert_eq!(GitError::from_code(22), None);
    assert_eq!(GitError::from_code(-1), None);
}

#[test]
fn walk_modes_steer_a_walk() {
    assert_eq!(WalkMode::WalkSkip.code(), 1);
    assert_eq!(WalkMode::WalkPass.code(), 0);
    assert_eq!(WalkMode::WalkStop.code(), -1);
}

#[test]
fn answers_of_callbacks_become_numbers() {
    assert_eq!(enumeration_code(true), 0);
    assert_eq!(enumeration_code(false), 1);
    assert_eq!(post_walk_code(true), 0);
    assert_eq!(post_walk_code(false), -1);
    assert_eq!(filter_code(true), 0);
    assert_eq!(filter_code(false), 1);
}

#[test]
fn chunks_are_counted_for_the_engine() {
    assert_eq!(chunk_code(Some(0), 4096), 0);
    assert_eq!(chunk_code(Some(17), 4096), 17);
    assert_eq!(chunk_code(Some(4096), 4096), 4096);
    assert_eq!(chunk_code(Some(4097), 4096), -1);
    assert_eq!(chunk_code(None, 4096), -1);
    assert_eq!(chunk_code(Some(i32::MAX as usize), usize::MAX), i32::MAX);
    assert_eq!(chunk_code(Some(i32::MAX as usize + 1), usize::MAX), -1);
}

#[test]
fn branches_are_local_or_remote() {
    assert_eq!(GIT_BRANCH_LOCAL, 1);
    assert_eq!(GIT_BRANCH_REMOTE, 2);
    assert_eq!(branch_type(false), 1);
    assert_eq!(branch_type(true), 2);
    assert_eq!(branch_flags(false, false), 0);
    assert_eq!(branch_flags(true, false), 1);
    assert_eq!(branch_flags(false, true), 2);
    assert_eq!(branch_flags(true, true), 3);
    assert!(is_remote(2));
    assert!(!is_remote(1));
    assert!(!is_remote(3));
    assert!(!is_remote(0));
}
