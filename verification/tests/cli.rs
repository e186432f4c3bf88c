use reciso::cli::{
    branding_warning, configure, parse_build_uki, parse_extra_file, summary, CliOptions,
};
use reciso::{LivePayloadLayout, UkiSource};
use std::path::PathBuf;

fn options() -> CliOptions {
    CliOptions {
        kernel: PathBuf::from("vmlinuz"),
        initrd: PathBuf::from("initramfs.img"),
        rootfs: PathBuf::from("rootfs.erofs"),
        label: "MYISO".to_string(),
        output: PathBuf::from("output.iso"),
        ukis: Vec::new(),
        build_ukis: Vec::new(),
        extra_files: Vec::new(),
        overlay_image: None,
        os_name: None,
        os_id: None,
        os_version: None,
        no_checksum: false,
        live_payload_layout: LivePayloadLayout::AppendedPartitions,
        quiet: false,
    }
}

fn built(source: &UkiSource) -> (&str, &str, &str) {
    match source {
        UkiSource::Build { name, extra_cmdline, filename } => {
            (name.as_str(), extra_cmdline.as_str(), filename.as_str())
        }
        other => panic!("{:?}", other),
    }
}

#[test]
fn build_uki_is_parsed() {
    let uki = parse_build_uki("Emergency:emergency:myos-emergency.efi").unwrap();
    assert_eq!(built(&uki), ("Emergency", "emergency", "myos-emergency.efi"));
    let uki = parse_build_uki("Normal::myos.efi").unwrap();
    assert_eq!(built(&uki), ("Normal", "", "myos.efi"));
    let uki = parse_build_uki("a:b:c:d").unwrap();
    assert_eq!(built(&uki), ("a", "b", "c:d"));
    let uki = parse_build_uki("::").unwrap();
    assert_eq!(built(&uki), ("", "", ""));
}

#[test]
fn build_uki_needs_two_colons() {
    for text in ["", "Normal", "Normal:myos.efi"] {
        assert_eq!(
            parse_build_uki(text).unwrap_err().message(),
            format!(
                "Invalid --build-uki format: '{}'\n\
                 Expected: 'name:extra_cmdline:filename'\n\
                 Example: 'Emergency:emergency:myos-emergency.efi'",
                text
            )
        );
    }
}

#[test]
fn extra_file_is_parsed() {
    let (source, dst) =
        parse_extra_file("/tmp/initramfs-installed.img:boot/initramfs-installed.img").unwrap();
    assert_eq!(source, PathBuf::from("/tmp/initramfs-installed.img"));
    assert_eq!(dst, "boot/initramfs-installed.img");
    let (source, dst) = parse_extra_file("a:b:c").unwrap();
    assert_eq!((source, dst.as_str()), (PathBuf::from("a"), "b:c"));
}

#[test]
fn extra_file_needs_both_parts() {
    for text in ["", "a", ":", "a:", ":b"] {
        assert_eq!(
            parse_extra_file(text).unwrap_err().message(),
            format!(
                "Invalid --extra-file format: '{}'\n\
                 Expected: 'src:dst'\n\
                 Example: '/tmp/initramfs-installed.img:boot/initramfs-installed.img'",
                text
            )
        );
    }
}

#[test]
fn options_become_a_configuration() {
    let mut options = options();
    options.ukis = vec![PathBuf::from("pre.efi")];
    options.build_ukis = vec!["Normal::myos.efi".to_string(), "E:emergency:e.efi".to_string()];
    options.extra_files = vec!["a:b".to_string()];
    options.overlay_image = Some(PathBuf::from("live-overlay.erofs"));
    options.os_name = Some("MyOS".to_string());
    options.os_id = Some("myos".to_string());
    options.os_version = Some("1.0".to_string());
    options.no_checksum = true;
    options.live_payload_layout = LivePayloadLayout::IsoFiles;
    assert!(branding_warning(&options).is_none());
    let config = configure(&options).unwrap();
    assert_eq!(config.kernel, PathBuf::from("vmlinuz"));
    assert_eq!(config.output, PathBuf::from("output.iso"));
    assert_eq!(config.label, "MYISO");
    assert_eq!(config.ukis.len(), 3);
    assert!(matches!(&config.ukis[0], UkiSource::Prebuilt(p) if *p == PathBuf::from("pre.efi")));
    assert_eq!(built(&config.ukis[1]), ("Normal", "", "myos.efi"));
    assert_eq!(built(&config.ukis[2]), ("E", "emergency", "e.efi"));
    assert_eq!(config.extra_files, vec![(PathBuf::from("a"), "b".to_string())]);
    assert_eq!(config.overlay_image, Some(PathBuf::from("live-overlay.erofs")));
    assert_eq!(config.os_release.as_ref().unwrap().id, "myos");
    assert!(!config.generate_checksum);
    assert_eq!(config.live_payload_layout, LivePayloadLayout::IsoFiles);
    assert_eq!(
        summary(&config, false),
        vec![
            "Creating ISO: output.iso",
            "  Kernel: vmlinuz",
            "  Initrd: initramfs.img",
            "  Rootfs: rootfs.erofs",
            "  Label: MYISO",
            "  Overlay image: live-overlay.erofs",
            "  Extra files: 1",
            "  UKIs: 3",
            "  OS: MyOS 1.0 (myos)",
            "",
        ]
    );
}

#[test]
fn summary_of_a_basic_iso() {
    let config = configure(&options()).unwrap();
    assert!(config.generate_checksum);
    assert_eq!(
        summary(&config, false),
        vec![
            "Creating ISO: output.iso",
            "  Kernel: vmlinuz",
            "  Initrd: initramfs.img",
            "  Rootfs: rootfs.erofs",
            "  Label: MYISO",
            "",
        ]
    );
    assert!(summary(&config, true).is_empty());
}

#[test]
fn uki_errors_come_before_file_errors() {
    let mut options = options();
    options.build_ukis = vec!["a:b:c".to_string(), "bad".to_string(), "worse".to_string()];
    options.extra_files = vec!["bad file".to_string()];
    let message = configure(&options).unwrap_err().message();
    assert!(message.starts_with("Invalid --build-uki format: 'bad'\n"));
    options.build_ukis = Vec::new();
    let message = configure(&options).unwrap_err().message();
    assert!(message.starts_with("Invalid --extra-file format: 'bad file'\n"));
}

#[test]
fn partial_branding_is_dropped_with_a_warning() {
    let mut options = options();
    assert!(branding_warning(&options).is_none());
    options.os_name = Some("MyOS".to_string());
    options.os_version = Some("1.0".to_string());
    assert_eq!(
        branding_warning(&options).unwrap(),
        "Warning: Partial OS release info provided. \
         Need all of --os-name, --os-id, and --os-version for branding."
    );
    assert!(configure(&options).unwrap().os_release.is_none());
    options.quiet = true;
    assert!(branding_warning(&options).is_none());
}
