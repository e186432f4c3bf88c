use reciso::checks::input_checks;
use reciso::{validate_inputs, IsoConfig, IsoError, Probe, Validation};
use std::path::PathBuf;

fn config() -> IsoConfig {
    IsoConfig::new(
        PathBuf::from("vmlinuz"),
        PathBuf::from("initramfs.img"),
        PathBuf::from("rootfs.erofs"),
        "TEST".to_string(),
        PathBuf::from("test.iso"),
    )
}

fn full() -> IsoConfig {
    config()
        .with_overlay_image(PathBuf::from("overlay.erofs"))
        .with_prebuilt_uki(PathBuf::from("one.efi"))
        .with_uki("Two".to_string(), "".to_string(), "two.efi".to_string())
        .with_prebuilt_uki(PathBuf::from("three.efi"))
}

/// The message where all questions before `at` are answered with yes, and that one with no.
fn message_at(config: &IsoConfig, at: usize) -> String {
    let mut answers = vec![true; at];
    answers.push(false);
    match validate_inputs(config, &answers) {
        Validation::Rejected(error) => error.message(),
        other => panic!("{:?}", other),
    }
}

#[test]
fn test_validate_inputs_missing_kernel() {
    let config = IsoConfig::new(
        PathBuf::from("/nonexistent/vmlinuz"),
        PathBuf::from("/nonexistent/initramfs.img"),
        PathBuf::from("/nonexistent/rootfs.erofs"),
        "TEST".to_string(),
        PathBuf::from("test.iso"),
    );

    let mut answers = Vec::new();
    let err = loop {
        match validate_inputs(&config, &answers) {
            Validation::Ask(check) => answers.push(match check.probe {
                Probe::Exists => check.path.exists(),
                Probe::IsFile => check.path.is_file(),
            }),
            Validation::Rejected(error) => break error,
            Validation::Accepted => panic!("accepted"),
        }
    };
    assert!(err.message().contains("Kernel not found"));
    assert_eq!(err.message(), "Kernel not found: /nonexistent/vmlinuz");
    assert_eq!(answers, vec![false]);
}

#[test]
fn checks_come_in_order() {
    let paths: Vec<PathBuf> = input_checks(&full()).into_iter().map(|c| c.path).collect();
    assert_eq!(
        paths,
        vec![
            PathBuf::from("vmlinuz"),
            PathBuf::from("initramfs.img"),
            PathBuf::from("rootfs.erofs"),
            PathBuf::from("overlay.erofs"),
            PathBuf::from("overlay.erofs"),
            PathBuf::from("one.efi"),
            PathBuf::from("three.efi"),
            PathBuf::from("/usr/lib/systemd/boot/efi/systemd-bootx64.efi"),
        ]
    );
    let probes: Vec<Probe> = input_checks(&full()).into_iter().map(|c| c.probe).collect();
    assert_eq!(probes[3], Probe::Exists);
    assert_eq!(probes[4], Probe::IsFile);
    assert_eq!(input_checks(&config()).len(), 4);
}

#[test]
fn every_missing_input_has_its_message() {
    let config = full();
    assert_eq!(message_at(&config, 0), "Kernel not found: vmlinuz");
    assert_eq!(message_at(&config, 1), "Initrd not found: initramfs.img");
    assert_eq!(message_at(&config, 2), "Rootfs not found: rootfs.erofs");
    assert_eq!(message_at(&config, 3), "Overlay image not found: overlay.erofs");
    assert_eq!(message_at(&config, 4), "Overlay image path is not a file: overlay.erofs");
    assert_eq!(message_at(&config, 5), "UKI not found: one.efi");
    assert_eq!(message_at(&config, 6), "UKI not found: three.efi");
    assert_eq!(
        message_at(&config, 7),
        "systemd-boot not found at /usr/lib/systemd/boot/efi/systemd-bootx64.efi.\n\
         Install: sudo dnf install systemd-boot"
    );
}

#[test]
fn all_yes_is_accepted() {
    assert!(matches!(validate_inputs(&config(), &vec![true; 4]), Validation::Accepted));
    assert!(matches!(validate_inputs(&full(), &vec![true; 8]), Validation::Accepted));
}

#[test]
fn a_yes_leads_to_the_next_question() {
    match validate_inputs(&config(), &vec![true, true]) {
        Validation::Ask(check) => {
            assert_eq!(check.path, PathBuf::from("rootfs.erofs"));
            assert_eq!(check.failure.message(), "Rootfs not found: rootfs.erofs");
        }
        other => panic!("{:?}", other),
    }
}

#[test]
fn first_no_counts() {
    match validate_inputs(&config(), &vec![true, false, false]) {
        Validation::Rejected(IsoError::InitrdNotFound(path)) => {
            assert_eq!(path, PathBuf::from("initramfs.img"))
        }
        other => panic!("{:?}", other),
    }
}

#[test]
fn messages_without_a_path() {
    assert_eq!(IsoError::UkiWithoutFilename.message(), "UKI has no filename");
    assert_eq!(
        IsoError::KernelNotFound(PathBuf::from("a")).describe("somewhere"),
        "Kernel not found: somewhere"
    );
}
