use greppy_rift_core::btrfs::{is_read_only, is_valid_subvolume_name, with_read_only};
use greppy_rift_core::digits::decimal_bytes;
use greppy_rift_core::metadata::split_xattr_names;
use greppy_rift_core::operations::parent_or_current_bytes;
use greppy_rift_core::path::{
    contains_nul, file_name_bytes, join_bytes, parent_bytes, starts_with_bytes, strip_prefix_bytes,
};

fn b(s: &str) -> Vec<u8> {
    s.as_bytes().to_vec()
}

fn parent(s: &str) -> Option<Vec<u8>> {
    parent_bytes(&b(s))
}

fn name(s: &str) -> Option<Vec<u8>> {
    file_name_bytes(&b(s))
}

#[test]
fn parent_drops_the_last_component() {
    assert_eq!(parent("/tmp/t/destination"), Some(b("/tmp/t")));
    assert_eq!(parent("/a"), Some(b("/")));
    assert_eq!(parent("a"), Some(b("")));
    assert_eq!(parent("a/b/"), Some(b("a")));
    assert_eq!(parent("a//b"), Some(b("a")));
    assert_eq!(parent("a/./b"), Some(b("a")));
    assert_eq!(parent("a/b/."), Some(b("a")));
    assert_eq!(parent("./a"), Some(b(".")));
    assert_eq!(parent("../a"), Some(b("..")));
    assert_eq!(parent("."), Some(b("")));
    assert_eq!(parent("/"), None);
    assert_eq!(parent(""), None);
}

#[test]
fn file_name_is_the_last_normal_component() {
    assert_eq!(name("/tmp/t/destination"), Some(b("destination")));
    assert_eq!(name("a/b/"), Some(b("b")));
    assert_eq!(name("a/b/."), Some(b("b")));
    assert_eq!(name("a/.."), None);
    assert_eq!(name("/"), None);
    assert_eq!(name("."), None);
    assert_eq!(name(""), None);
}

#[test]
fn join_adds_a_separator_only_where_needed() {
    assert_eq!(join_bytes(&b("/tmp/t"), &b("copy")), b("/tmp/t/copy"));
    assert_eq!(join_bytes(&b("/tmp/t/"), &b("copy")), b("/tmp/t/copy"));
    assert_eq!(join_bytes(&b("/"), &b("copy")), b("/copy"));
    assert_eq!(join_bytes(&b(""), &b("copy")), b("copy"));
    assert_eq!(join_bytes(&b("/tmp"), &b("/etc")), b("/etc"));
}

#[test]
fn starts_with_compares_whole_components() {
    assert!(starts_with_bytes(&b("/tmp/t/source/snapshot"), &b("/tmp/t/source")));
    assert!(starts_with_bytes(&b("/tmp/t/source"), &b("/tmp/t/source/")));
    assert!(starts_with_bytes(&b("/tmp//t/./source/x"), &b("/tmp/t/source")));
    assert!(!starts_with_bytes(&b("/tmp/t/source2"), &b("/tmp/t/source")));
    assert!(!starts_with_bytes(&b("/tmp/t"), &b("/tmp/t/source")));
    assert!(!starts_with_bytes(&b("tmp/t"), &b("/tmp")));
    assert!(starts_with_bytes(&b("./a"), &b(".")));
    assert!(starts_with_bytes(&b("a"), &b("")));
}

#[test]
fn strip_prefix_leaves_the_relative_rest() {
    assert_eq!(strip_prefix_bytes(&b("/tmp/t/source/nested/file.txt"), &b("/tmp/t/source")), Some(b("nested/file.txt")));
    assert_eq!(strip_prefix_bytes(&b("/a/b/"), &b("/a/b")), Some(b("")));
    assert_eq!(strip_prefix_bytes(&b("./a/b"), &b(".")), Some(b("a/b")));
    assert_eq!(strip_prefix_bytes(&b("/a/c"), &b("/a/b")), None);
}

#[test]
fn parent_or_current_falls_back_to_the_current_directory() {
    assert_eq!(parent_or_current_bytes(&b("destination")), b("."));
    assert_eq!(parent_or_current_bytes(&b("/")), b("."));
    assert_eq!(parent_or_current_bytes(&b("/tmp/x")), b("/tmp"));
}

#[test]
fn nul_bytes_are_found() {
    assert!(contains_nul(&vec![b'a', 0, b'b']));
    assert!(!contains_nul(&b("abc")));
}

#[test]
fn decimal_digits() {
    assert_eq!(decimal_bytes(0), b("0"));
    assert_eq!(decimal_bytes(7), b("7"));
    assert_eq!(decimal_bytes(4242), b("4242"));
    assert_eq!(decimal_bytes(u64::MAX), b("18446744073709551615"));
}

#[test]
fn xattr_names_are_split_on_zero_bytes() {
    let list = b("user.one\0user.two\0");
    assert_eq!(split_xattr_names(&list), vec![b("user.one"), b("user.two")]);
    assert_eq!(split_xattr_names(&b("")), Vec::<Vec<u8>>::new());
    assert_eq!(split_xattr_names(&b("a\0\0b")), vec![b("a"), b("b")]);
}

#[test]
fn read_only_flag_keeps_other_flags() {
    assert_eq!(with_read_only(0b1001, true), 0b1011);
    assert_eq!(with_read_only(0b1011, false), 0b1001);
    assert!(is_read_only(0b10));
    assert!(!is_read_only(0b01));
    assert!(is_read_only(with_read_only(0xffff_0000, true)));
    assert!(!is_read_only(with_read_only(u64::MAX, false)));
}

#[test]
fn subvolume_names() {
    assert!(is_valid_subvolume_name(&b("snapshot")));
    assert!(!is_valid_subvolume_name(&b("")));
    assert!(!is_valid_subvolume_name(&vec![b'a', 0]));
    assert!(!is_valid_subvolume_name(&vec![b'n'; 4088]));
    assert!(is_valid_subvolume_name(&vec![b'n'; 4087]));
}
