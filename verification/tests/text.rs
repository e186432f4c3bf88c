use reciso::loader::{entry_content, entry_id, is_entry};
use reciso::text::{decimal, ends_with, split_once, trim_end_matches};
use std::path::PathBuf;

#[test]
fn entry_id_swaps_the_extension() {
    assert_eq!(entry_id("myos.efi"), "myos.conf");
    assert_eq!(entry_id("myos.efi.efi"), "myos.conf");
    assert_eq!(entry_id("myos"), "myos.conf");
    assert_eq!(entry_id(".efi"), ".conf");
    assert_eq!(entry_id("my.efi.os"), "my.efi.os.conf");
    assert_eq!(entry_id("größe.efi"), "größe.conf");
}

#[test]
fn entry_content_names_the_uki() {
    assert_eq!(
        entry_content("My OS", "myos.efi"),
        "title My OS\nlinux /EFI/Linux/myos.efi\n"
    );
}

#[test]
fn trimming_takes_every_copy() {
    for (text, suffix) in [("abab", "ab"), ("xabab", "ab"), ("", "ab"), ("aab", "b"), ("ü.ü", ".ü")] {
        assert_eq!(trim_end_matches(text, suffix), text.trim_end_matches(suffix));
        assert_eq!(ends_with(text, suffix), text.ends_with(suffix));
    }
}

#[test]
fn splitting_goes_by_the_first_delimiter() {
    assert_eq!(split_once("a:b:c", ':'), Some(("a".to_string(), "b:c".to_string())));
    assert_eq!(split_once(":", ':'), Some(("".to_string(), "".to_string())));
    assert_eq!(split_once("ä:ö", ':'), Some(("ä".to_string(), "ö".to_string())));
    assert_eq!(split_once("abc", ':'), None);
}

#[test]
fn decimal_is_the_usual_notation() {
    for number in [0, 9, 10, 99, 100, 1024, 65535, u64::MAX] {
        assert_eq!(decimal(number), number.to_string());
    }
}

#[test]
fn entries_are_known_by_their_extension() {
    assert!(is_entry(&Some(PathBuf::from("conf"))));
    assert!(!is_entry(&Some(PathBuf::from("conf~"))));
    assert!(!is_entry(&Some(PathBuf::from(""))));
    assert!(!is_entry(&None));
}
