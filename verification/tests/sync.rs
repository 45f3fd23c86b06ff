use moss_core::discover::{
    boot_files_from_state, kernel_files_from_state, Installation, KernelCandidate, Layout,
    LayoutEntry,
};
use moss_core::pattern::Pattern;
use moss_core::state::{Id, Kind, PackageId, Selection, State, Timestamp};
use moss_core::sync::{
    Action, BootError, CmdlineEntry, OsIdentity, OsReleaseEvent, Phase, SnippetEvent,
    Synchronizer,
};

fn regular(package: &str, target: &str) -> (PackageId, Layout) {
    (
        PackageId(String::from(package)),
        Layout { entry: LayoutEntry::Regular { content: 1, target: String::from(target) } },
    )
}

fn symlink(package: &str, target: &str) -> (PackageId, Layout) {
    (
        PackageId(String::from(package)),
        Layout {
            entry: LayoutEntry::Symlink {
                source: String::from("source"),
                target: String::from(target),
            },
        },
    )
}

fn state_with_id(id: i64) -> State {
    State {
        id: Id(id),
        summary: None,
        description: None,
        selections: vec![Selection::explicit(PackageId(String::from("linux-kernel")))],
        created: Timestamp { seconds: 0, nanos: 0 },
        kind: Kind::Transaction,
    }
}

fn bootable_layouts() -> Vec<(PackageId, Layout)> {
    vec![
        regular("linux-kernel", "lib/kernel/6.6.0/vmlinuz"),
        regular("docs", "share/doc/readme"),
        regular("systemd", "lib64/systemd/boot/efi/systemd-bootx64.efi"),
    ]
}

fn identity() -> OsIdentity {
    OsIdentity {
        name: String::from("Serpent OS"),
        id: String::from("serpentos"),
        version_id: String::from("2024"),
    }
}

#[test]
fn discovery_resolves_matches_under_usr() {
    let install = Installation { root: String::from("/image") };
    let layouts = vec![
        regular("linux-kernel", "lib/kernel/6.6.0/vmlinuz"),
        symlink("linux-kernel", "lib/kernel/6.6.0/initrd"),
        regular("docs", "share/doc/readme"),
    ];
    let pat = Pattern::from_str("lib/kernel/(version:*)/*").unwrap();
    let kernels = kernel_files_from_state(&install, &layouts, &pat);
    let paths: Vec<&str> = kernels.iter().map(|k| k.path.as_str()).collect();
    assert_eq!(
        paths,
        vec!["/image/usr/lib/kernel/6.6.0/vmlinuz", "/image/usr/lib/kernel/6.6.0/initrd"]
    );
    let indices: Vec<usize> = kernels.iter().map(|k| k.layout_index).collect();
    assert_eq!(indices, vec![0, 1]);
}

#[test]
fn boot_discovery_skips_symlinks() {
    let install = Installation { root: String::from("/") };
    let layouts = vec![
        regular("systemd", "lib64/systemd/boot/efi/systemd-bootx64.efi"),
        symlink("systemd", "lib64/systemd/boot/efi/other.efi"),
    ];
    let pat = Pattern::from_str("lib*/systemd/boot/efi/*.efi").unwrap();
    let assets = boot_files_from_state(&install, &layouts, &pat);
    assert_eq!(assets, vec![String::from("/usr/lib64/systemd/boot/efi/systemd-bootx64.efi")]);
}

#[test]
fn discovery_is_deterministic() {
    let install = Installation { root: String::from("/image") };
    let layouts = bootable_layouts();
    let pat = Pattern::from_str("lib/kernel/(version:*)/*").unwrap();
    let once: Vec<(String, usize)> = kernel_files_from_state(&install, &layouts, &pat)
        .into_iter()
        .map(|k: KernelCandidate| (k.path, k.layout_index))
        .collect();
    let again: Vec<(String, usize)> = kernel_files_from_state(&install, &layouts, &pat)
        .into_iter()
        .map(|k: KernelCandidate| (k.path, k.layout_index))
        .collect();
    assert_eq!(once, again);
}

#[test]
fn no_kernels_is_a_successful_no_op() {
    let install = Installation { root: String::from("/") };
    let layouts = vec![
        regular("docs", "share/doc/readme"),
        regular("systemd", "lib64/systemd/boot/efi/systemd-bootx64.efi"),
    ];
    let m = Synchronizer::new(&install, &state_with_id(1), &layouts).unwrap();
    assert!(matches!(m.phase, Phase::Complete { outcome: Ok(()) }));
    assert_eq!(m.current_action(), Action::Done);
}

#[test]
fn no_boot_assets_is_a_successful_no_op() {
    let install = Installation { root: String::from("/") };
    let layouts = vec![regular("linux-kernel", "lib/kernel/6.6.0/vmlinuz")];
    let m = Synchronizer::new(&install, &state_with_id(1), &layouts).unwrap();
    assert!(matches!(m.phase, Phase::Complete { outcome: Ok(()) }));
    assert_eq!(m.current_action(), Action::Done);
}

#[test]
fn entries_carry_the_fstx_tag() {
    let install = Installation { root: String::from("/") };
    let mut m = Synchronizer::new(&install, &state_with_id(42), &bootable_layouts()).unwrap();
    assert_eq!(m.current_action(), Action::ReadOsRelease);
    m.on_os_release(OsReleaseEvent::Parsed(identity()));
    assert_eq!(m.current_action(), Action::DiscoverKernels);
    m.on_kernels(Ok(2));
    assert_eq!(m.entries.len(), 2);
    for entry in &m.entries {
        assert_eq!(entry.state_id, 42);
        assert_eq!(entry.cmdline.len(), 1);
        assert_eq!(entry.cmdline[0].name, "---fstx---");
        assert_eq!(entry.cmdline[0].snippet, "moss.fstx=42");
        assert!(entry.cmdline[0].snippet.contains("moss.fstx=42"));
    }
}

#[test]
fn os_release_read_failure_is_fatal() {
    let install = Installation { root: String::from("/") };
    let mut m = Synchronizer::new(&install, &state_with_id(1), &bootable_layouts()).unwrap();
    m.on_os_release(OsReleaseEvent::ReadFailed(String::from("missing")));
    assert!(matches!(m.phase, Phase::Complete { outcome: Err(BootError::Io(_)) }));
}

#[test]
fn os_release_parse_failure_is_fatal() {
    let install = Installation { root: String::from("/") };
    let mut m = Synchronizer::new(&install, &state_with_id(1), &bootable_layouts()).unwrap();
    m.on_os_release(OsReleaseEvent::ParseFailed(String::from("garbled")));
    assert!(matches!(m.phase, Phase::Complete { outcome: Err(BootError::OsRelease(_)) }));
}

#[test]
fn kernel_discovery_failure_is_fatal() {
    let install = Installation { root: String::from("/") };
    let mut m = Synchronizer::new(&install, &state_with_id(1), &bootable_layouts()).unwrap();
    m.on_os_release(OsReleaseEvent::Parsed(identity()));
    m.on_kernels(Err(String::from("incomplete kernel tree")));
    assert!(matches!(m.phase, Phase::Complete { outcome: Err(BootError::Discovery(_)) }));
}

#[test]
fn topology_failure_skips_silently() {
    let install = Installation { root: String::from("/") };
    let mut m = Synchronizer::new(&install, &state_with_id(1), &bootable_layouts()).unwrap();
    m.on_os_release(OsReleaseEvent::Parsed(identity()));
    m.on_kernels(Ok(1));
    m.on_snippets(SnippetEvent::Loaded(vec![]));
    assert_eq!(m.current_action(), Action::BuildManager);
    m.on_manager(Err(String::from("no ESP found")));
    // Absorbed: success, and no mount or sync action was ever requested.
    assert!(matches!(m.phase, Phase::Complete { outcome: Ok(()) }));
    assert_eq!(m.current_action(), Action::Done);
}

#[test]
fn native_roots_mount_before_syncing() {
    let install = Installation { root: String::from("/") };
    let mut m = Synchronizer::new(&install, &state_with_id(1), &bootable_layouts()).unwrap();
    assert!(m.native);
    m.on_os_release(OsReleaseEvent::Parsed(identity()));
    m.on_kernels(Ok(1));
    m.on_snippets(SnippetEvent::Loaded(vec![]));
    m.on_manager(Ok(()));
    assert_eq!(m.current_action(), Action::MountPartitions);
    m.on_mount(Ok(()));
    assert_eq!(m.current_action(), Action::SyncLoader);
    m.on_sync(Ok(()));
    assert!(matches!(m.phase, Phase::Complete { outcome: Ok(()) }));
}

#[test]
fn image_roots_never_mount() {
    let install = Installation { root: String::from("/mnt/target") };
    let mut m = Synchronizer::new(&install, &state_with_id(1), &bootable_layouts()).unwrap();
    assert!(!m.native);
    m.on_os_release(OsReleaseEvent::Parsed(identity()));
    m.on_kernels(Ok(1));
    m.on_snippets(SnippetEvent::Loaded(vec![]));
    m.on_manager(Ok(()));
    assert_eq!(m.current_action(), Action::SyncLoader);
    m.on_sync(Ok(()));
    assert!(matches!(m.phase, Phase::Complete { outcome: Ok(()) }));
}

#[test]
fn mount_failure_propagates() {
    let install = Installation { root: String::from("/") };
    let mut m = Synchronizer::new(&install, &state_with_id(1), &bootable_layouts()).unwrap();
    m.on_os_release(OsReleaseEvent::Parsed(identity()));
    m.on_kernels(Ok(1));
    m.on_snippets(SnippetEvent::Loaded(vec![]));
    m.on_manager(Ok(()));
    m.on_mount(Err(String::from("mount failed")));
    assert!(matches!(m.phase, Phase::Complete { outcome: Err(BootError::Mount(_)) }));
}

#[test]
fn sync_failure_propagates() {
    let install = Installation { root: String::from("/mnt/target") };
    let mut m = Synchronizer::new(&install, &state_with_id(1), &bootable_layouts()).unwrap();
    m.on_os_release(OsReleaseEvent::Parsed(identity()));
    m.on_kernels(Ok(1));
    m.on_snippets(SnippetEvent::Loaded(vec![]));
    m.on_manager(Ok(()));
    m.on_sync(Err(String::from("write failed")));
    assert!(matches!(m.phase, Phase::Complete { outcome: Err(BootError::Sync(_)) }));
}

#[test]
fn snippet_failure_is_isolated() {
    let install = Installation { root: String::from("/") };
    let mut m = Synchronizer::new(&install, &state_with_id(42), &bootable_layouts()).unwrap();
    m.on_os_release(OsReleaseEvent::Parsed(identity()));
    m.on_kernels(Ok(3));
    // First entry gets an extra fragment, the second fails, the third gets
    // nothing extra: all three still reach the manager step.
    m.on_snippets(SnippetEvent::Loaded(vec![CmdlineEntry {
        name: String::from("vendor"),
        snippet: String::from("quiet splash"),
    }]));
    m.on_snippets(SnippetEvent::Failed(String::from("bad snippet file")));
    m.on_snippets(SnippetEvent::Loaded(vec![]));
    assert_eq!(m.current_action(), Action::BuildManager);
    assert_eq!(m.entries.len(), 3);
    assert_eq!(m.warnings.len(), 1);
    assert_eq!(m.warnings[0], "bad snippet file");
    assert_eq!(m.entries[0].cmdline.len(), 2);
    assert_eq!(m.entries[0].cmdline[1].snippet, "quiet splash");
    assert_eq!(m.entries[1].cmdline.len(), 1);
    assert_eq!(m.entries[2].cmdline.len(), 1);
    for entry in &m.entries {
        assert_eq!(entry.cmdline[0].snippet, "moss.fstx=42");
    }
}

#[test]
fn os_release_path_lives_under_usr_lib() {
    let install = Installation { root: String::from("/mnt/target") };
    let layouts = bootable_layouts();
    let m = Synchronizer::new(&install, &state_with_id(1), &layouts).unwrap();
    assert_eq!(m.os_release_path(), "/mnt/target/usr/lib/os-release");
}
