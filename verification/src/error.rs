//! Why an ISO is not created.
use crate::paths::{display, path_bytes, path_shown};
use std::path::PathBuf;
use vstd::prelude::*;

verus! {

/// Why an ISO is not created, as far as it is decided before any outside tool fails.
#[derive(Debug)]
pub enum IsoError {
    /// There is no kernel image at this path.
    KernelNotFound(PathBuf),
    /// There is no initramfs image at this path.
    InitrdNotFound(PathBuf),
    /// There is no rootfs image at this path.
    RootfsNotFound(PathBuf),
    /// There is no overlay image at this path.
    OverlayNotFound(PathBuf),
    /// The overlay image at this path is not a file.
    OverlayNotAFile(PathBuf),
    /// There is no prebuilt UKI at this path.
    UkiNotFound(PathBuf),
    /// systemd-boot is not installed at this path.
    SystemdBootNotFound(PathBuf),
    /// The path of a prebuilt UKI names no file.
    UkiWithoutFilename,
    /// This is no specification of a UKI to build.
    InvalidBuildUki(String),
    /// This is no specification of an extra file.
    InvalidExtraFile(String),
}

/// The model of an [`IsoError`].
pub enum IsoErrorView {
    KernelNotFound(Seq<u8>),
    InitrdNotFound(Seq<u8>),
    RootfsNotFound(Seq<u8>),
    OverlayNotFound(Seq<u8>),
    OverlayNotAFile(Seq<u8>),
    UkiNotFound(Seq<u8>),
    SystemdBootNotFound(Seq<u8>),
    UkiWithoutFilename,
    InvalidBuildUki(Seq<char>),
    InvalidExtraFile(Seq<char>),
}

impl View for IsoError {
    type V = IsoErrorView;

    open spec fn view(&self) -> IsoErrorView {
        match *self {
            IsoError::KernelNotFound(path) => IsoErrorView::KernelNotFound(path_bytes(path)),
            IsoError::InitrdNotFound(path) => IsoErrorView::InitrdNotFound(path_bytes(path)),
            IsoError::RootfsNotFound(path) => IsoErrorView::RootfsNotFound(path_bytes(path)),
            IsoError::OverlayNotFound(path) => IsoErrorView::OverlayNotFound(path_bytes(path)),
            IsoError::OverlayNotAFile(path) => IsoErrorView::OverlayNotAFile(path_bytes(path)),
            IsoError::UkiNotFound(path) => IsoErrorView::UkiNotFound(path_bytes(path)),
            IsoError::SystemdBootNotFound(path) => IsoErrorView::SystemdBootNotFound(
                path_bytes(path),
            ),
            IsoError::UkiWithoutFilename => IsoErrorView::UkiWithoutFilename,
            IsoError::InvalidBuildUki(spec_text) => IsoErrorView::InvalidBuildUki(spec_text@),
            IsoError::InvalidExtraFile(spec_text) => IsoErrorView::InvalidExtraFile(spec_text@),
        }
    }
}

impl IsoErrorView {
    /// The path that the error is about.
    pub open spec fn path(self) -> Option<Seq<u8>> {
        match self {
            IsoErrorView::KernelNotFound(path) => Some(path),
            IsoErrorView::InitrdNotFound(path) => Some(path),
            IsoErrorView::RootfsNotFound(path) => Some(path),
            IsoErrorView::OverlayNotFound(path) => Some(path),
            IsoErrorView::OverlayNotAFile(path) => Some(path),
            IsoErrorView::UkiNotFound(path) => Some(path),
            IsoErrorView::SystemdBootNotFound(path) => Some(path),
            _ => None,
        }
    }

    /// The message of the error, where its path is shown as `shown`.
    pub open spec fn text(self, shown: Seq<char>) -> Seq<char> {
        match self {
            IsoErrorView::KernelNotFound(_) => "Kernel not found: "@ + shown,
            IsoErrorView::InitrdNotFound(_) => "Initrd not found: "@ + shown,
            IsoErrorView::RootfsNotFound(_) => "Rootfs not found: "@ + shown,
            IsoErrorView::OverlayNotFound(_) => "Overlay image not found: "@ + shown,
            IsoErrorView::OverlayNotAFile(_) => "Overlay image path is not a file: "@ + shown,
            IsoErrorView::UkiNotFound(_) => "UKI not found: "@ + shown,
            IsoErrorView::SystemdBootNotFound(_) => "systemd-boot not found at "@ + shown
                + ".\nInstall: sudo dnf install systemd-boot"@,
            IsoErrorView::UkiWithoutFilename => "UKI has no filename"@,
            IsoErrorView::InvalidBuildUki(spec_text) => "Invalid --build-uki format: '"@
                + spec_text
                + "'\nExpected: 'name:extra_cmdline:filename'\nExample: 'Emergency:emergency:myos-emergency.efi'"@,
            IsoErrorView::InvalidExtraFile(spec_text) => "Invalid --extra-file format: '"@
                + spec_text
                + "'\nExpected: 'src:dst'\nExample: '/tmp/initramfs-installed.img:boot/initramfs-installed.img'"@,
        }
    }

    /// The message of the error.
    pub open spec fn message(self) -> Seq<char> {
        match self.path() {
            Some(path) => self.text(path_shown(path)),
            None => self.text(Seq::empty()),
        }
    }
}

/// `head` and `tail` put together.
fn prefixed(head: &str, tail: &str) -> (text: String)
    ensures
        text@ == head@ + tail@,
{
    head.to_owned().concat(tail)
}

impl IsoError {
    /// The message of the error, where its path, if it is about one, is shown as `shown`.
    pub fn describe(&self, shown: &str) -> (text: String)
        ensures
            text@ == self@.text(shown@),
    {
        match self {
            IsoError::KernelNotFound(_) => prefixed("Kernel not found: ", shown),
            IsoError::InitrdNotFound(_) => prefixed("Initrd not found: ", shown),
            IsoError::RootfsNotFound(_) => prefixed("Rootfs not found: ", shown),
            IsoError::OverlayNotFound(_) => prefixed("Overlay image not found: ", shown),
            IsoError::OverlayNotAFile(_) => prefixed("Overlay image path is not a file: ", shown),
            IsoError::UkiNotFound(_) => prefixed("UKI not found: ", shown),
            IsoError::SystemdBootNotFound(_) => prefixed("systemd-boot not found at ", shown)
                .concat(".\nInstall: sudo dnf install systemd-boot"),
            IsoError::UkiWithoutFilename => "UKI has no filename".to_owned(),
            IsoError::InvalidBuildUki(spec_text) => prefixed(
                "Invalid --build-uki format: '",
                spec_text.as_str(),
            ).concat(
                "'\nExpected: 'name:extra_cmdline:filename'\nExample: 'Emergency:emergency:myos-emergency.efi'",
            ),
            IsoError::InvalidExtraFile(spec_text) => prefixed(
                "Invalid --extra-file format: '",
                spec_text.as_str(),
            ).concat(
                "'\nExpected: 'src:dst'\nExample: '/tmp/initramfs-installed.img:boot/initramfs-installed.img'",
            ),
        }
    }

    /// The message of the error.
    pub fn message(&self) -> (text: String)
        ensures
            text@ == self@.message(),
    {
        match self {
            IsoError::KernelNotFound(path) => self.describe(display(path).as_str()),
            IsoError::InitrdNotFound(path) => self.describe(display(path).as_str()),
            IsoError::RootfsNotFound(path) => self.describe(display(path).as_str()),
            IsoError::OverlayNotFound(path) => self.describe(display(path).as_str()),
            IsoError::OverlayNotAFile(path) => self.describe(display(path).as_str()),
            IsoError::UkiNotFound(path) => self.describe(display(path).as_str()),
            IsoError::SystemdBootNotFound(path) => self.describe(display(path).as_str()),
            _ => self.describe(String::new().as_str()),
        }
    }
}

} // verus!
