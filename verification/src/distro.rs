//! What the distribution lays down for its live ISOs.
use vstd::prelude::*;

verus! {

/// Conventions of the distribution: where its initramfs looks for the parts of a live ISO, and
/// how SELinux is switched off.
#[derive(Debug)]
pub struct DistroSettings {
    /// Where the kernel goes, below the ISO root.
    pub kernel_iso_path: String,
    /// Where the initramfs goes, below the ISO root.
    pub initramfs_live_iso_path: String,
    /// Where the rootfs image goes, below the ISO root.
    pub rootfs_iso_path: String,
    /// Where the overlay image goes, below the ISO root.
    pub live_overlayfs_iso_path: String,
    /// The kernel parameter that switches SELinux off.
    pub selinux_disable: String,
}

/// The model of [`DistroSettings`].
pub struct DistroSettingsView {
    pub kernel_iso_path: Seq<char>,
    pub initramfs_live_iso_path: Seq<char>,
    pub rootfs_iso_path: Seq<char>,
    pub live_overlayfs_iso_path: Seq<char>,
    pub selinux_disable: Seq<char>,
}

impl View for DistroSettings {
    type V = DistroSettingsView;

    open spec fn view(&self) -> DistroSettingsView {
        DistroSettingsView {
            kernel_iso_path: self.kernel_iso_path@,
            initramfs_live_iso_path: self.initramfs_live_iso_path@,
            rootfs_iso_path: self.rootfs_iso_path@,
            live_overlayfs_iso_path: self.live_overlayfs_iso_path@,
            selinux_disable: self.selinux_disable@,
        }
    }
}

} // verus!
