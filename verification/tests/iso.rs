use reciso::boot::{entries_to_fat, setup_uefi_boot};
use reciso::iso::{appended_partitions, copy_core_files, in_tree_text, report, work_dir};
use reciso::loader::{copy_entry, loader_config};
use reciso::uki::{base_cmdline, default_filename, default_title, menu_title, uki_cmdline};
use reciso::{
    create_iso, DistroSettings, IsoConfig, IsoError, Next, OsRelease, Plan, Progress, Step,
};
use std::path::PathBuf;

fn distro() -> DistroSettings {
    DistroSettings {
        kernel_iso_path: "boot/vmlinuz".to_string(),
        initramfs_live_iso_path: "boot/initramfs-live.img".to_string(),
        rootfs_iso_path: "live/filesystem.erofs".to_string(),
        live_overlayfs_iso_path: "live/overlayfs.erofs".to_string(),
        selinux_disable: "selinux=0".to_string(),
    }
}

fn config() -> IsoConfig {
    IsoConfig::new(
        PathBuf::from("vmlinuz"),
        PathBuf::from("initramfs.img"),
        PathBuf::from("rootfs.erofs"),
        "MyISO".to_string(),
        PathBuf::from("out/my.iso"),
    )
}

/// The plan where every question is answered with yes.
fn plan(config: &IsoConfig) -> Plan {
    let mut answers = Vec::new();
    loop {
        match create_iso(config, &distro(), &answers) {
            Progress::Ask(_) => answers.push(true),
            Progress::Rejected(error) => panic!("{:?}", error),
            Progress::Ready(plan) => return plan,
        }
    }
}

/// The steps of a plan that are performed in quiet mode, in a short notation.
fn work(plan: &Plan) -> Vec<String> {
    plan.steps.iter().filter(|step| step.is_performed(true)).map(short).collect()
}

fn short(step: &Step) -> String {
    match step {
        Step::Note(text) => format!("note {}", text),
        Step::SetupStructure { root } => format!("setup {}", root.display()),
        Step::CreateDir { path, context } => {
            format!("mkdir {}{}", path.display(), short_context(context))
        }
        Step::Copy { from, to, context } => {
            format!("cp {} {}{}", from.display(), to.display(), short_context(context))
        }
        Step::BuildUki(uki) => format!(
            "uki {} {} [{}] {} {}",
            uki.kernel.display(),
            uki.initrd.display(),
            uki.cmdline,
            uki.output.display(),
            match &uki.os_release {
                Some(os) => format!("{}/{}/{}", os.name, os.id, os.version),
                None => "-".to_string(),
            }
        ),
        Step::WriteLoaderConf { path, config } => format!(
            "loader {} {} {} {} {}",
            path.display(),
            config.defaults,
            config.default_entry,
            config.timeout,
            config.console_mode
        ),
        Step::WriteFile { path, content, context } => {
            format!("write {} {:?}{}", path.display(), content, short_context(context))
        }
        Step::CreateFatImage { image, size_mb } => format!("fat {} {}", image.display(), size_mb),
        Step::CreateEfiDirs { image } => format!("efidirs {}", image.display()),
        Step::MakeFatDir { name, dir, context } => {
            format!("mmd {} {}{}", name, dir, short_context(context))
        }
        Step::CopyToFat { image, from, dir } => {
            format!("mcopy {} {} {}", image.display(), from.display(), dir)
        }
        Step::CopyEntriesToFat { image, name, entries } => {
            format!("entries {} {} {}", image.display(), name, entries.display())
        }
        Step::RemoveFile { path } => format!("rm {}", path.display()),
        Step::RunXorriso { root, output, label, boot_image, appended } => format!(
            "xorriso {} {} {} {} {:?}",
            root.display(),
            output.display(),
            label,
            boot_image,
            appended
                .iter()
                .map(|p| format!("{} {} {}", p.index, p.type_code, p.path.display()))
                .collect::<Vec<String>>()
        ),
        Step::WriteChecksum { iso } => format!("checksum {}", iso.display()),
        Step::RemoveTree { path } => format!("rmtree {}", path.display()),
        Step::Report { iso } => format!("report {}", iso.display()),
    }
}

fn short_context(context: &Option<String>) -> String {
    match context {
        Some(context) => format!(" ({})", context),
        None => String::new(),
    }
}

#[test]
fn basic_iso_is_planned_step_by_step() {
    let plan = plan(&config());
    assert!(plan.failure.is_none());
    assert_eq!(
        work(&plan),
        vec![
            "setup out/iso-root",
            "cp vmlinuz out/iso-root/boot/vmlinuz (Failed to copy kernel)",
            "cp initramfs.img out/iso-root/boot/initramfs-live.img (Failed to copy initramfs)",
            "mkdir out/iso-root/EFI/Linux",
            "uki vmlinuz initramfs.img [root=LABEL=MyISO console=ttyS0,115200n8 console=tty0 selinux=0] out/iso-root/EFI/Linux/myiso.efi -",
            "cp /usr/lib/systemd/boot/efi/systemd-bootx64.efi out/iso-root/EFI/BOOT/BOOTX64.EFI",
            "mkdir out/iso-root/loader",
            "loader out/iso-root/loader/loader.conf default myiso 5 max",
            "mkdir out/iso-root/loader/entries (creating loader entries dir 'out/iso-root/loader/entries')",
            "write out/iso-root/loader/entries/myiso.conf \"title MyISO\\nlinux /EFI/Linux/myiso.efi\\n\" (writing loader entry 'out/iso-root/loader/entries/myiso.conf')",
            "fat out/efiboot.img 200",
            "efidirs out/efiboot.img",
            "mmd out/efiboot.img ::EFI/Linux (mmd failed to create ::EFI/Linux)",
            "mcopy out/efiboot.img out/iso-root/EFI/BOOT/BOOTX64.EFI ::EFI/BOOT/",
            "mcopy out/efiboot.img out/iso-root/EFI/Linux/myiso.efi ::EFI/Linux/",
            "mmd out/efiboot.img ::loader (mmd failed to create ::loader)",
            "mcopy out/efiboot.img out/iso-root/loader/loader.conf ::loader/",
            "entries out/efiboot.img out/efiboot.img out/iso-root/loader/entries",
            "cp out/efiboot.img out/iso-root/efiboot.img",
            "rm out/efiboot.img",
            "xorriso out/iso-root out/my.iso MyISO efiboot.img [\"2 0x83 rootfs.erofs\"]",
            "checksum out/my.iso",
            "rmtree out/iso-root",
        ]
    );
}

#[test]
fn notes_tell_of_the_progress() {
    let plan = plan(&config());
    let notes: Vec<String> =
        plan.steps.iter().filter(|step| !step.is_performed(true)).map(short).collect();
    assert_eq!(
        notes,
        vec![
            "note Setting up ISO structure...",
            "note Copying boot files...",
            "note Live payload layout: appended partitions (rootfs/overlay not copied into ISO filesystem)",
            "note Setting up UEFI boot...",
            "note   Building UKI: myiso.efi",
            "note Creating EFI boot image...",
            "note Creating ISO with xorriso...",
            "note Generating checksum...",
            "report out/my.iso",
        ]
    );
    assert!(plan.steps.iter().all(|step| step.is_performed(false)));
}

#[test]
fn ukis_are_staged_in_order() {
    let config = config()
        .with_os_release("MyOS", "myos", "1.0")
        .with_prebuilt_uki(PathBuf::from("/srv/live.v2.efi"))
        .with_uki("Normal".to_string(), "".to_string(), "myos.efi".to_string())
        .with_uki("Emergency".to_string(), "emergency".to_string(), "e.efi".to_string());
    let steps = work(&plan(&config));
    let expected = [
        "cp /srv/live.v2.efi out/iso-root/EFI/Linux/live.v2.efi",
        "uki vmlinuz initramfs.img [root=LABEL=MyISO console=ttyS0,115200n8 console=tty0 selinux=0] out/iso-root/EFI/Linux/myos.efi MyOS/myos/1.0",
        "uki vmlinuz initramfs.img [root=LABEL=MyISO console=ttyS0,115200n8 console=tty0 selinux=0 emergency] out/iso-root/EFI/Linux/e.efi MyOS/myos/1.0",
    ];
    let at = steps.iter().position(|step| step == expected[0]).unwrap();
    assert_eq!(&steps[at..at + 3], &expected[..]);
    assert!(steps.contains(&"loader out/iso-root/loader/loader.conf default live.v2 5 max".to_string()));
    let titles: Vec<&String> = steps.iter().filter(|step| step.starts_with("write ")).collect();
    assert_eq!(titles.len(), 3);
    assert!(titles[0].contains("title live.v2\\nlinux /EFI/Linux/live.v2.efi\\n"));
    assert!(titles[1].contains("title Normal\\nlinux /EFI/Linux/myos.efi\\n"));
    assert!(titles[2].contains("title Emergency\\nlinux /EFI/Linux/e.efi\\n"));
    for name in ["live.v2.efi", "myos.efi", "e.efi"] {
        assert!(steps.contains(&format!(
            "mcopy out/efiboot.img out/iso-root/EFI/Linux/{} ::EFI/Linux/",
            name
        )));
    }
}

#[test]
fn prebuilt_uki_without_a_file_name_ends_the_plan() {
    let config = config()
        .with_prebuilt_uki(PathBuf::from("one.efi"))
        .with_prebuilt_uki(PathBuf::from("dir/.."))
        .with_prebuilt_uki(PathBuf::from("three.efi"));
    let plan = plan(&config);
    assert!(matches!(plan.failure, Some(IsoError::UkiWithoutFilename)));
    assert_eq!(
        work(&plan),
        vec![
            "setup out/iso-root",
            "cp vmlinuz out/iso-root/boot/vmlinuz (Failed to copy kernel)",
            "cp initramfs.img out/iso-root/boot/initramfs-live.img (Failed to copy initramfs)",
            "mkdir out/iso-root/EFI/Linux",
            "cp one.efi out/iso-root/EFI/Linux/one.efi",
        ]
    );
}

#[test]
fn nothing_is_done_without_the_kernel() {
    match create_iso(&config(), &distro(), &vec![false]) {
        Progress::Rejected(error) => assert_eq!(error.message(), "Kernel not found: vmlinuz"),
        other => panic!("{:?}", other),
    }
}

#[test]
fn payloads_go_into_the_iso_filesystem_or_behind_it() {
    let config = config().with_overlay_image(PathBuf::from("overlay.erofs"));
    let appended: Vec<(u8, PathBuf)> =
        appended_partitions(&config).into_iter().map(|p| (p.index, p.path)).collect();
    assert_eq!(
        appended,
        vec![(2, PathBuf::from("rootfs.erofs")), (3, PathBuf::from("overlay.erofs"))]
    );
    let root = PathBuf::from("r");
    assert_eq!(copy_core_files(&config, &distro(), &root).len(), 4);

    let config = config.with_live_payload_iso_files();
    assert!(appended_partitions(&config).is_empty());
    let steps: Vec<String> = copy_core_files(&config, &distro(), &root).iter().map(short).collect();
    assert_eq!(
        steps,
        vec![
            "note Copying boot files...",
            "cp vmlinuz r/boot/vmlinuz (Failed to copy kernel)",
            "cp initramfs.img r/boot/initramfs-live.img (Failed to copy initramfs)",
            "note Copying rootfs...",
            "cp rootfs.erofs r/live/filesystem.erofs (Failed to copy rootfs)",
            "note Copying live overlay image...",
            "cp overlay.erofs r/live/overlayfs.erofs (Failed to copy live overlay image)",
        ]
    );
}

#[test]
fn extra_files_are_copied_before_the_iso_is_made() {
    let config = config()
        .with_extra_file(PathBuf::from("/tmp/a.img"), "boot/sub/a.img".to_string())
        .with_extra_file(PathBuf::from("b"), "/b".to_string())
        .with_extra_file(PathBuf::from("d"), "//boot/extra.img".to_string())
        .with_extra_file(PathBuf::from("c"), "/".to_string());
    let steps = work(&plan(&config));
    let at = steps.iter().position(|step| step == "rm out/efiboot.img").unwrap();
    assert_eq!(
        &steps[at + 1..at + 9],
        &[
            "mkdir out/iso-root/boot/sub",
            "cp /tmp/a.img out/iso-root/boot/sub/a.img (Failed to copy /tmp/a.img to boot/sub/a.img)",
            "mkdir out/iso-root",
            "cp b out/iso-root/b (Failed to copy b to /b)",
            "mkdir out/iso-root/boot",
            "cp d out/iso-root/boot/extra.img (Failed to copy d to //boot/extra.img)",
            "mkdir out",
            "cp c out/iso-root/ (Failed to copy c to /)",
        ]
    );
    assert!(steps[at + 9].starts_with("xorriso "));
}

#[test]
fn destinations_are_taken_from_the_iso_root() {
    assert_eq!(in_tree_text("/boot/extra.img"), "boot/extra.img");
    assert_eq!(in_tree_text("///ä/"), "ä/");
    assert_eq!(in_tree_text("boot/extra.img"), "boot/extra.img");
    assert_eq!(in_tree_text("/"), "");
    assert_eq!(in_tree_text(""), "");
}

#[test]
fn a_failed_step_ends_the_creation() {
    let plan = plan(&config());
    let xorriso =
        plan.steps.iter().position(|step| matches!(step, Step::RunXorriso { .. })).unwrap();
    let mut failed = vec![false; xorriso];
    assert_eq!(plan.next(&failed), Next::Perform(xorriso));
    failed.push(true);
    assert_eq!(plan.next(&failed), Next::Stop(xorriso));
    failed.push(false);
    assert_eq!(plan.next(&failed), Next::Stop(xorriso));
    assert_eq!(plan.next(&Vec::new()), Next::Perform(0));
    assert_eq!(plan.next(&vec![false, true]), Next::Stop(1));
    assert_eq!(plan.next(&vec![false; plan.steps.len()]), Next::Done);
}

#[test]
fn a_failed_removal_is_ignored() {
    let plan = plan(&config());
    let failed: Vec<bool> = plan
        .steps
        .iter()
        .map(|step| matches!(step, Step::RemoveFile { .. } | Step::RemoveTree { .. }))
        .collect();
    assert_eq!(failed.iter().filter(|failed| **failed).count(), 2);
    assert_eq!(plan.next(&failed), Next::Done);
    for step in &plan.steps {
        let cleans_up = matches!(step, Step::RemoveFile { .. } | Step::RemoveTree { .. });
        assert_eq!(step.ends_creation(true), !cleans_up);
        assert!(!step.ends_creation(false));
    }
}

#[test]
fn checksum_can_be_left_out() {
    let steps = work(&plan(&config().without_checksum()));
    assert!(!steps.iter().any(|step| step.starts_with("checksum")));
    assert_eq!(steps.iter().filter(|step| step.starts_with("xorriso")).count(), 1);
    assert_eq!(steps.last().unwrap(), "rmtree out/iso-root");
}

#[test]
fn work_goes_on_beside_the_output() {
    let mut config = config();
    config.output = PathBuf::from("my.iso");
    assert_eq!(work(&plan(&config))[0], "setup iso-root");
    config.output = PathBuf::from("");
    assert_eq!(work(&plan(&config))[0], "setup ./iso-root");
    config.output = PathBuf::from("/");
    assert_eq!(work(&plan(&config))[0], "setup ./iso-root");
    assert_eq!(work_dir(None), PathBuf::from("."));
    assert_eq!(work_dir(Some(PathBuf::from("x"))), PathBuf::from("x"));
}

#[test]
fn default_uki_is_branded() {
    let config = config().with_os_release("MyOS", "myos", "1.0");
    let steps = work(&plan(&config));
    assert!(steps.iter().any(|step| step.starts_with("write ")
        && step.contains("title MyOS 1.0\\nlinux /EFI/Linux/myiso.efi\\n")));
    assert!(steps.iter().any(|step| step.starts_with("uki ") && step.ends_with(" MyOS/myos/1.0")));
}

#[test]
fn default_entry_is_the_first_one() {
    let root = PathBuf::from("r");
    let config = config()
        .with_uki("A".to_string(), "".to_string(), "a.conf.efi".to_string())
        .with_uki("B".to_string(), "".to_string(), "b.efi".to_string());
    let plan = setup_uefi_boot(&config, &distro(), &root, &PathBuf::from("o"));
    let steps = work(&plan);
    assert!(steps.contains(&"loader r/loader/loader.conf default a 5 max".to_string()));
    assert!(steps.iter().any(|step| step.starts_with("write r/loader/entries/a.conf.conf ")));
    assert_eq!(loader_config(&Vec::new()).default_entry, "default");
}

#[test]
fn only_entries_are_copied_to_the_boot_image() {
    let image = PathBuf::from("o/efiboot.img");
    match copy_entry(&image, &PathBuf::from("r/loader/entries/a.b.conf")) {
        Some(step) => assert_eq!(
            short(&step),
            "mcopy o/efiboot.img r/loader/entries/a.b.conf ::loader/entries/"
        ),
        None => panic!("left out"),
    }
    for name in ["a.conf~", "a", ".conf", "conf", "a.conf.bak", "..", "a.CONF"] {
        assert!(copy_entry(&image, &PathBuf::from("entries").join(name)).is_none());
    }
}

#[test]
fn listed_entries_are_copied_in_order() {
    let image = PathBuf::from("o/efiboot.img");
    let names = ["b.conf", "a.conf.bak", "a.CONF", "a", ".conf", "a.conf", "b.conf"];
    let found = names.iter().map(|name| PathBuf::from("e").join(name)).collect();
    let steps = entries_to_fat(&image, "o/efiboot.img", &Some(found));
    assert_eq!(
        steps.iter().map(short).collect::<Vec<_>>(),
        vec![
            "mmd o/efiboot.img ::loader/entries (mmd failed to create ::loader/entries)",
            "mcopy o/efiboot.img e/b.conf ::loader/entries/",
            "mcopy o/efiboot.img e/a.conf ::loader/entries/",
            "mcopy o/efiboot.img e/b.conf ::loader/entries/",
        ]
    );
}

#[test]
fn entries_need_a_directory() {
    let image = PathBuf::from("o/efiboot.img");
    assert!(entries_to_fat(&image, "shown", &None).is_empty());
    let steps = entries_to_fat(&image, "shown", &Some(Vec::new()));
    assert_eq!(
        steps.iter().map(short).collect::<Vec<_>>(),
        vec!["mmd shown ::loader/entries (mmd failed to create ::loader/entries)"]
    );
}

#[test]
fn outcome_is_the_iso_or_the_error() {
    match plan(&config()).outcome(PathBuf::from("out/my.iso")) {
        Ok(iso) => assert_eq!(iso, PathBuf::from("out/my.iso")),
        Err(error) => panic!("{:?}", error),
    }
    let nameless = config().with_prebuilt_uki(PathBuf::from(".."));
    match plan(&nameless).outcome(PathBuf::from("out/my.iso")) {
        Ok(iso) => panic!("{:?}", iso),
        Err(error) => assert_eq!(error.message(), IsoError::UkiWithoutFilename.message()),
    }
}

#[test]
fn texts_of_ukis() {
    assert_eq!(
        base_cmdline("L", "selinux=0"),
        "root=LABEL=L console=ttyS0,115200n8 console=tty0 selinux=0"
    );
    assert_eq!(uki_cmdline("a", ""), "a");
    assert_eq!(uki_cmdline("a", "b c"), "a b c");
    assert_eq!(menu_title(Some("stem".to_string()), "stem.efi"), "stem");
    assert_eq!(menu_title(None, "x.efi"), "x.efi");
    assert_eq!(default_filename("myiso"), "myiso.efi");
    assert_eq!(default_title(&None, "L"), "L");
    assert_eq!(default_title(&Some(OsRelease::new("N", "i", "V")), "L"), "N V");
}

#[test]
fn size_is_reported_in_megabytes() {
    let iso = PathBuf::from("out/my.iso");
    assert_eq!(report(&iso, None), vec!["\nISO created: out/my.iso"]);
    assert_eq!(
        report(&iso, Some(3 * 1024 * 1024 + 1)),
        vec!["\nISO created: out/my.iso", "  Size: 3 MB"]
    );
    assert_eq!(report(&iso, Some(1024 * 1024 - 1))[1], "  Size: 0 MB");
}
