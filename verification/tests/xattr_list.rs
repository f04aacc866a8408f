use arsync::xattr_list::split_xattr_names;

#[test]
fn names_are_split_at_nul_bytes() {
    let list = b"user.a\0security.selinux\0".to_vec();
    let names = split_xattr_names(&list);
    assert_eq!(names, vec!["user.a".to_string(), "security.selinux".to_string()]);
}

#[test]
fn empty_pieces_are_skipped() {
    assert!(split_xattr_names(&Vec::new()).is_empty());
    assert!(split_xattr_names(&b"\0\0".to_vec()).is_empty());
    assert_eq!(split_xattr_names(&b"\0x\0\0y\0".to_vec()), vec!["x".to_string(), "y".to_string()]);
}

#[test]
fn piece_without_terminating_nul_is_dropped() {
    assert!(split_xattr_names(&b"a".to_vec()).is_empty());
    assert_eq!(split_xattr_names(&b"\0x\0\0yz".to_vec()), vec!["x".to_string()]);
}

#[test]
fn names_that_are_not_utf8_are_skipped() {
    let list = b"\xff\xfe\0user.ok\0\xc3\0".to_vec();
    assert_eq!(split_xattr_names(&list), vec!["user.ok".to_string()]);
    let list = "user.caf\u{e9}\0".as_bytes().to_vec();
    assert_eq!(split_xattr_names(&list), vec!["user.caf\u{e9}".to_string()]);
}
