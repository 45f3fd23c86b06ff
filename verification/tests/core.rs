use moss_core::decimal::{dec_string, dec_string_signed};
use moss_core::licenses::{contains_substring, is_license_file_name};
use moss_core::paths::{path_join, resolve_usr};
use moss_core::pattern::Pattern;
use moss_core::resolve::{resolve_cache_dir, resolve_moss_root, EnvError};
use moss_core::state::{Id, Kind, PackageId, Selection, State, Timestamp};

fn sample_state(id: i64) -> State {
    State {
        id: Id(id),
        summary: Some(String::from("summary")),
        description: None,
        selections: vec![
            Selection::explicit(PackageId(String::from("nano"))),
            Selection::transitive(PackageId(String::from("ncurses")))
                .reason(String::from("required by nano")),
        ],
        created: Timestamp { seconds: 1_700_000_000, nanos: 5 },
        kind: Kind::Transaction,
    }
}

#[test]
fn next_advances_by_one() {
    assert_eq!(Id(0).next().0, 1);
    assert_eq!(Id(41).next().0, 42);
}

#[test]
fn next_twice_advances_by_two() {
    let id = Id(7);
    assert_eq!(id.next().next().0, id.0 + 2);
    let id = Id(-3);
    assert_eq!(id.next().next().0, -1);
}

#[test]
fn id_renders_as_plain_decimal() {
    assert_eq!(Id(42).render(), "42");
    assert_eq!(Id(0).render(), "0");
    assert_eq!(Id(1234567890).render(), "1234567890");
    assert_eq!(Id(i64::MAX).render(), "9223372036854775807");
    assert_eq!(Id(-7).render(), "-7");
    assert_eq!(Id(i64::MIN).render(), "-9223372036854775808");
}

#[test]
fn dec_strings_match_std_formatting() {
    assert_eq!(dec_string(0), "0");
    assert_eq!(dec_string(10), "10");
    assert_eq!(dec_string(90210), "90210");
    assert_eq!(dec_string_signed(-90210), "-90210");
}

#[test]
fn default_id_is_zero() {
    let id: Id = Default::default();
    assert_eq!(id.0, 0);
}

#[test]
fn kind_tag_round_trips() {
    let tag = Kind::Transaction.tag();
    assert_eq!(tag, "transaction");
    assert_eq!(Kind::from_tag(&tag), Some(Kind::Transaction));
    assert_eq!(Kind::from_tag(&String::from("upgrade")), None);
}

#[test]
fn state_equality_is_structural() {
    // Two states with identical fields are equal, whatever built them.
    let a = sample_state(12);
    let b = sample_state(12);
    assert!(a == b);
    // Any differing field, the id included, breaks equality.
    let c = sample_state(13);
    assert!(a != c);
    let mut d = sample_state(12);
    d.selections[0].explicit = false;
    assert!(a != d);
}

#[test]
fn explicit_selection_is_marked_explicit() {
    let s = Selection::explicit(PackageId(String::from("nano")));
    assert!(s.explicit);
    assert_eq!(s.reason, None);
    assert_eq!(s.package.0, "nano");
}

#[test]
fn transitive_selection_still_marks_explicit() {
    // Pins down the recorded behavior: the transitive constructor also
    // writes explicit = true.  Changing this is a deliberate, visible step.
    let s = Selection::transitive(PackageId(String::from("ncurses")));
    assert!(s.explicit);
    assert_eq!(s.reason, None);
}

#[test]
fn reason_keeps_other_fields() {
    let s = Selection::explicit(PackageId(String::from("nano")))
        .reason(String::from("editor"));
    assert!(s.explicit);
    assert_eq!(s.package.0, "nano");
    assert_eq!(s.reason.as_deref(), Some("editor"));
}

#[test]
fn kernel_pattern_matches_kernel_paths() {
    let pat = Pattern::from_str("lib/kernel/(version:*)/*").unwrap();
    assert!(pat.match_path("lib/kernel/6.6.0/vmlinuz"));
    assert!(pat.match_path("lib/kernel/6.6.0/initrd.img"));
    assert!(!pat.match_path("usr/share/doc/readme"));
    // The wildcard never crosses a path component.
    assert!(!pat.match_path("lib/kernel/6.6.0/sub/vmlinuz"));
    assert!(!pat.match_path("lib/kernel/vmlinuz"));
}

#[test]
fn boot_pattern_matches_efi_assets() {
    let pat = Pattern::from_str("lib*/systemd/boot/efi/*.efi").unwrap();
    assert!(pat.match_path("lib64/systemd/boot/efi/systemd-bootx64.efi"));
    assert!(pat.match_path("lib/systemd/boot/efi/systemd-bootx64.efi"));
    assert!(!pat.match_path("usr/share/doc/readme"));
    assert!(!pat.match_path("lib64/systemd/boot/efi/readme.txt"));
}

#[test]
fn malformed_patterns_are_rejected() {
    assert!(Pattern::from_str("(unclosed:*").is_err());
    assert!(Pattern::from_str("(:*)").is_err());
    assert!(Pattern::from_str("(name:x)").is_err());
    assert!(Pattern::from_str("a(b(c:*))").is_err());
    assert!(Pattern::from_str("plain/literal").is_ok());
}

#[test]
fn path_join_inserts_single_separator() {
    assert_eq!(path_join("/x", "usr"), "/x/usr");
    assert_eq!(path_join("/x/", "usr"), "/x/usr");
    assert_eq!(path_join("", "usr"), "usr");
    assert_eq!(resolve_usr("/", "lib/kernel/6.6.0/vmlinuz"), "/usr/lib/kernel/6.6.0/vmlinuz");
    assert_eq!(resolve_usr("/image", "a/b"), "/image/usr/a/b");
}

#[test]
fn cache_dir_resolution_decision_table() {
    assert_eq!(
        resolve_cache_dir(false, Some(String::from("/tmp/custom")), None),
        Ok(String::from("/tmp/custom"))
    );
    assert_eq!(resolve_cache_dir(true, None, None), Ok(String::from("/var/cache/boulder")));
    assert_eq!(
        resolve_cache_dir(false, None, Some(String::from("/home/u/.cache"))),
        Ok(String::from("/home/u/.cache/boulder"))
    );
    assert_eq!(resolve_cache_dir(false, None, None), Err(EnvError::UserCache));
}

#[test]
fn moss_root_resolution_decision_table() {
    assert_eq!(
        resolve_moss_root(false, Some(String::from("/tmp/root")), None),
        Ok(String::from("/tmp/root"))
    );
    assert_eq!(resolve_moss_root(true, None, None), Ok(String::from("/")));
    assert_eq!(
        resolve_moss_root(false, None, Some(String::from("/home/u/.cache"))),
        Ok(String::from("/home/u/.cache/moss"))
    );
    assert_eq!(resolve_moss_root(false, None, None), Err(EnvError::UserCache));
}

#[test]
fn substring_search_finds_needles() {
    assert!(contains_substring("unlicensed", "license"));
    assert!(contains_substring("abc", ""));
    assert!(!contains_substring("", "a"));
    assert!(!contains_substring("licenc", "licence"));
}

#[test]
fn license_file_names_are_classified() {
    assert!(is_license_file_name("copying.txt"));
    assert!(is_license_file_name("license.md"));
    assert!(is_license_file_name("licence"));
    assert!(is_license_file_name("mit-license"));
    assert!(!is_license_file_name("readme.md"));
}
