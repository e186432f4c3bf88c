use reciso::{IsoConfig, LivePayloadLayout, OsRelease, UkiSource};
use std::path::PathBuf;

fn config() -> IsoConfig {
    IsoConfig::new(
        PathBuf::from("vmlinuz"),
        PathBuf::from("initramfs.img"),
        PathBuf::from("rootfs.erofs"),
        "TESTISO".to_string(),
        PathBuf::from("test.iso"),
    )
}

#[test]
fn test_iso_config_builder() {
    let config = IsoConfig::new(
        PathBuf::from("vmlinuz"),
        PathBuf::from("initramfs.img"),
        PathBuf::from("rootfs.erofs"),
        "TESTISO".to_string(),
        PathBuf::from("test.iso"),
    )
    .with_os_release("TestOS", "testos", "1.0")
    .with_uki("Normal".to_string(), "".to_string(), "testos.efi".to_string())
    .with_uki(
        "Emergency".to_string(),
        "emergency".to_string(),
        "testos-emergency.efi".to_string(),
    );

    assert_eq!(config.kernel, PathBuf::from("vmlinuz"));
    assert_eq!(config.label, "TESTISO");
    assert_eq!(config.ukis.len(), 2);
    assert!(config.os_release.is_some());
}

#[test]
fn new_config_has_the_defaults() {
    let config = config();
    assert_eq!(config.initrd, PathBuf::from("initramfs.img"));
    assert_eq!(config.rootfs, PathBuf::from("rootfs.erofs"));
    assert_eq!(config.output, PathBuf::from("test.iso"));
    assert!(config.ukis.is_empty());
    assert!(config.overlay_image.is_none());
    assert!(config.os_release.is_none());
    assert!(config.extra_files.is_empty());
    assert!(config.generate_checksum);
    assert_eq!(config.live_payload_layout, LivePayloadLayout::AppendedPartitions);
}

#[test]
fn builder_sets_one_thing_at_a_time() {
    let config = config()
        .with_prebuilt_uki(PathBuf::from("a/b.efi"))
        .with_extra_file(PathBuf::from("src"), "dst/x".to_string())
        .with_overlay_image(PathBuf::from("overlay.erofs"))
        .without_checksum()
        .with_live_payload_iso_files();
    assert!(matches!(&config.ukis[0], UkiSource::Prebuilt(p) if *p == PathBuf::from("a/b.efi")));
    assert_eq!(config.extra_files, vec![(PathBuf::from("src"), "dst/x".to_string())]);
    assert_eq!(config.overlay_image, Some(PathBuf::from("overlay.erofs")));
    assert!(!config.generate_checksum);
    assert_eq!(config.live_payload_layout, LivePayloadLayout::IsoFiles);
    assert_eq!(config.label, "TESTISO");
}

#[test]
fn overlay_alias_sets_the_overlay_image() {
    let config = config().with_overlay(PathBuf::from("o.erofs"));
    assert_eq!(config.overlay_image, Some(PathBuf::from("o.erofs")));
}

#[test]
fn clone_copies_everything() {
    let config = config()
        .with_prebuilt_uki(PathBuf::from("a/b.efi"))
        .with_uki("N".to_string(), "x=1".to_string(), "n.efi".to_string())
        .with_os_release("TestOS", "testos", "1.0")
        .with_overlay_image(PathBuf::from("overlay.erofs"))
        .with_extra_file(PathBuf::from("src"), "dst".to_string());
    assert_eq!(format!("{:?}", config.clone()), format!("{:?}", config));
}

#[test]
fn os_release_keeps_its_parts() {
    let os = OsRelease::new("MyOS", "myos", "1.0");
    assert_eq!((os.name.as_str(), os.id.as_str(), os.version.as_str()), ("MyOS", "myos", "1.0"));
}
