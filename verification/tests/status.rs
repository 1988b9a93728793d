use git2::status::{
    status, Status, GIT_STATUS_IGNORED, GIT_STATUS_INDEX_DELETED, GIT_STATUS_INDEX_MODIFIED,
    GIT_STATUS_INDEX_NEW, GIT_STATUS_INDEX_RENAMED, GIT_STATUS_INDEX_TYPECHANGE,
    GIT_STATUS_WT_DELETED, GIT_STATUS_WT_MODIFIED, GIT_STATUS_WT_NEW, GIT_STATUS_WT_TYPECHANGE,
};

fn flags_of(s: &Status) -> [bool; 10] {
    [
        s.index_new,
        s.index_modified,
        s.index_deleted,
        s.index_renamed,
        s.index_typechange,
        s.wt_new,
        s.wt_modified,
        s.wt_deleted,
        s.wt_typechange,
        s.ignored,
    ]
}

#[test]
fn new_status_has_no_flag() {
    assert_eq!(flags_of(&Status::new()), [false; 10]);
    assert_eq!(Status::from_flags(0), Status::new());
}

#[test]
fn each_bit_sets_its_flag_alone() {
    let bits = [1u32 << 0, 1 << 1, 1 << 2, 1 << 3, 1 << 4, 1 << 7, 1 << 8, 1 << 9, 1 << 10, 1 << 14];
    let names = [
        GIT_STATUS_INDEX_NEW,
        GIT_STATUS_INDEX_MODIFIED,
        GIT_STATUS_INDEX_DELETED,
        GIT_STATUS_INDEX_RENAMED,
        GIT_STATUS_INDEX_TYPECHANGE,
        GIT_STATUS_WT_NEW,
        GIT_STATUS_WT_MODIFIED,
        GIT_STATUS_WT_DELETED,
        GIT_STATUS_WT_TYPECHANGE,
        GIT_STATUS_IGNORED,
    ];
    assert_eq!(bits, names);
    for (k, bit) in bits.iter().enumerate() {
        let mut expected = [false; 10];
        expected[k] = true;
        assert_eq!(flags_of(&Status::from_flags(*bit)), expected);
    }
}

#[test]
fn flags_combine() {
    let s = Status::from_flags(GIT_STATUS_INDEX_MODIFIED | GIT_STATUS_WT_DELETED);
    assert_eq!(
        flags_of(&s),
        [false, true, false, false, false, false, false, true, false, false]
    );
    let every = Status::from_flags(0x1f | 0x780 | 0x4000);
    assert_eq!(flags_of(&every), [true; 10]);
}

#[test]
fn other_bits_set_no_flag() {
    let other = !(0x1fu32 | 0x780 | 0x4000);
    assert_eq!(Status::from_flags(other), Status::new());
    assert_eq!(Status::from_flags(1 << 5), Status::new());
    assert_eq!(Status::from_flags(1 << 11), Status::new());
    assert_eq!(Status::from_flags(u32::MAX), Status::from_flags(0x1f | 0x780 | 0x4000));
}

#[test]
fn status_list_keeps_paths_and_order() {
    let reported = vec![
        ("b.txt".to_string(), GIT_STATUS_WT_NEW),
        ("a.txt".to_string(), GIT_STATUS_INDEX_NEW | GIT_STATUS_WT_MODIFIED),
        ("c/d".to_string(), 0),
    ];
    let list = status(&reported);
    assert_eq!(list.len(), 3);
    assert_eq!(list[0].0, "b.txt");
    assert_eq!(list[0].1, Status { wt_new: true, ..Status::new() });
    assert_eq!(list[1].0, "a.txt");
    assert_eq!(list[1].1, Status { index_new: true, wt_modified: true, ..Status::new() });
    assert_eq!(list[2], ("c/d".to_string(), Status::new()));
    assert!(status(&Vec::new()).is_empty());
}
