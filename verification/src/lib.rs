//! Bootable ISO creator.
//!
//! Creates UEFI-bootable ISOs from kernel + initramfs + rootfs inputs.
//! Supports UKI (Unified Kernel Image) boot with systemd-boot.
//!
//! The library decides: it asks for what it has to know of the file system, and then says, step
//! by step, what is to be done and where it ends. Whoever calls it answers and performs the steps.
//!
//! ```ignore
//! use reciso::{create_iso, IsoConfig, Progress};
//!
//! let config = IsoConfig::new(kernel, initrd, rootfs, label, output);
//! let mut answers = Vec::new();
//! let plan = loop {
//!     match create_iso(&config, &distro, &answers) {
//!         Progress::Ask(check) => answers.push(ask(&check)),
//!         Progress::Rejected(error) => return Err(error),
//!         Progress::Ready(plan) => break plan,
//!     }
//! };
//! ```

pub mod boot;
pub mod checks;
pub mod cli;
pub mod config;
pub mod distro;
pub mod error;
pub mod iso;
pub mod laws;
pub mod loader;
pub mod paths;
pub mod step;
pub mod text;
pub mod uki;

pub use boot::DEFAULT_EFIBOOT_SIZE_MB;
pub use checks::{validate_inputs, InputCheck, Probe, Validation};
pub use config::{IsoConfig, LivePayloadLayout, OsRelease, UkiSource};
pub use distro::DistroSettings;
pub use error::IsoError;
pub use iso::{create_iso, Progress};
pub use loader::entry_id;
pub use step::{Next, Plan, Step, UkiConfig};
