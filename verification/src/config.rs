//! What an ISO is made from, and the builder that puts it together.
use crate::paths::{option_path_bytes, path_bytes};
use std::path::PathBuf;
use vstd::prelude::*;

verus! {

/// OS release information for the branding of UKIs.
#[derive(Debug)]
pub struct OsRelease {
    /// Name of the OS.
    pub name: String,
    /// Identifier of the OS.
    pub id: String,
    /// Version of the OS.
    pub version: String,
}

/// The model of an [`OsRelease`].
pub struct OsReleaseView {
    pub name: Seq<char>,
    pub id: Seq<char>,
    pub version: Seq<char>,
}

impl View for OsRelease {
    type V = OsReleaseView;

    open spec fn view(&self) -> OsReleaseView {
        OsReleaseView { name: self.name@, id: self.id@, version: self.version@ }
    }
}

impl Clone for OsRelease {
    fn clone(&self) -> (copy: Self)
        ensures
            copy@ == self@,
    {
        OsRelease {
            name: self.name.clone(),
            id: self.id.clone(),
            version: self.version.clone(),
        }
    }
}

impl OsRelease {
    /// Create OS release information.
    pub fn new(name: &str, id: &str, version: &str) -> (os: Self)
        ensures
            os@ == (OsReleaseView { name: name@, id: id@, version: version@ }),
    {
        OsRelease { name: name.to_owned(), id: id.to_owned(), version: version.to_owned() }
    }
}

/// The model of OS release information that may be absent.
pub open spec fn option_os_view(os: Option<OsRelease>) -> Option<OsReleaseView> {
    match os {
        Some(os) => Some(os@),
        None => None,
    }
}

/// A copy of OS release information that may be absent.
pub(crate) fn clone_os_release(os: &Option<OsRelease>) -> (copy: Option<OsRelease>)
    ensures
        option_os_view(copy) == option_os_view(*os),
{
    match os {
        Some(os) => Some(os.clone()),
        None => None,
    }
}

/// A copy of a path that may be absent.
pub(crate) fn clone_path(path: &Option<PathBuf>) -> (copy: Option<PathBuf>)
    ensures
        option_path_bytes(copy) == option_path_bytes(*path),
{
    match path {
        Some(path) => Some(path.clone()),
        None => None,
    }
}

/// How to place rootfs/overlay payloads on boot media.
#[derive(Debug, Clone, Copy, PartialEq, Eq, Structural)]
pub enum LivePayloadLayout {
    /// Keep payloads as files under `live/` in ISO filesystem.
    IsoFiles,
    /// Append payload images as GPT partitions (direct block mounts in initramfs).
    AppendedPartitions,
}

/// Source for a UKI - either prebuilt or to be built.
#[derive(Debug)]
pub enum UkiSource {
    /// Path to a prebuilt UKI file.
    Prebuilt(PathBuf),
    /// Build a UKI with these parameters.
    Build {
        /// Display name for boot menu.
        name: String,
        /// Extra cmdline parameters (appended to base).
        extra_cmdline: String,
        /// Output filename (e.g., "myos-live.efi").
        filename: String,
    },
}

/// The model of a [`UkiSource`].
pub enum UkiSourceView {
    Prebuilt(Seq<u8>),
    Build { name: Seq<char>, extra_cmdline: Seq<char>, filename: Seq<char> },
}

impl View for UkiSource {
    type V = UkiSourceView;

    open spec fn view(&self) -> UkiSourceView {
        match *self {
            UkiSource::Prebuilt(path) => UkiSourceView::Prebuilt(path_bytes(path)),
            UkiSource::Build { name, extra_cmdline, filename } => UkiSourceView::Build {
                name: name@,
                extra_cmdline: extra_cmdline@,
                filename: filename@,
            },
        }
    }
}

impl Clone for UkiSource {
    fn clone(&self) -> (copy: Self)
        ensures
            copy@ == self@,
    {
        match self {
            UkiSource::Prebuilt(path) => UkiSource::Prebuilt(path.clone()),
            UkiSource::Build { name, extra_cmdline, filename } => UkiSource::Build {
                name: name.clone(),
                extra_cmdline: extra_cmdline.clone(),
                filename: filename.clone(),
            },
        }
    }
}

/// The models of UKI sources, in their order.
pub open spec fn ukis_view(ukis: Seq<UkiSource>) -> Seq<UkiSourceView> {
    Seq::new(ukis.len(), |i: int| ukis[i]@)
}

/// The models of extra files (source and destination), in their order.
pub open spec fn extra_files_view(files: Seq<(PathBuf, String)>) -> Seq<(Seq<u8>, Seq<char>)> {
    Seq::new(files.len(), |i: int| (path_bytes(files[i].0), files[i].1@))
}

/// Configuration for creating an ISO.
#[derive(Debug)]
pub struct IsoConfig {
    /// Path to kernel image (vmlinuz).
    pub kernel: PathBuf,
    /// Path to initramfs image.
    pub initrd: PathBuf,
    /// Path to rootfs image (EROFS).
    pub rootfs: PathBuf,
    /// ISO volume label (used for boot device detection).
    pub label: String,
    /// Output ISO path.
    pub output: PathBuf,
    /// UKI sources (prebuilt files or build specs).
    pub ukis: Vec<UkiSource>,
    /// Optional live overlay payload image (EROFS).
    pub overlay_image: Option<PathBuf>,
    /// OS release information for UKI branding.
    pub os_release: Option<OsRelease>,
    /// Additional files to copy to ISO root.
    pub extra_files: Vec<(PathBuf, String)>,
    /// Generate a checksum of the ISO.
    pub generate_checksum: bool,
    /// How to place rootfs/overlay payloads on boot media.
    pub live_payload_layout: LivePayloadLayout,
}

/// The model of an [`IsoConfig`].
#[verifier::ext_equal]
pub struct IsoConfigView {
    pub kernel: Seq<u8>,
    pub initrd: Seq<u8>,
    pub rootfs: Seq<u8>,
    pub label: Seq<char>,
    pub output: Seq<u8>,
    pub ukis: Seq<UkiSourceView>,
    pub overlay_image: Option<Seq<u8>>,
    pub os_release: Option<OsReleaseView>,
    pub extra_files: Seq<(Seq<u8>, Seq<char>)>,
    pub generate_checksum: bool,
    pub live_payload_layout: LivePayloadLayout,
}

impl View for IsoConfig {
    type V = IsoConfigView;

    open spec fn view(&self) -> IsoConfigView {
        IsoConfigView {
            kernel: path_bytes(self.kernel),
            initrd: path_bytes(self.initrd),
            rootfs: path_bytes(self.rootfs),
            label: self.label@,
            output: path_bytes(self.output),
            ukis: ukis_view(self.ukis@),
            overlay_image: option_path_bytes(self.overlay_image),
            os_release: option_os_view(self.os_release),
            extra_files: extra_files_view(self.extra_files@),
            generate_checksum: self.generate_checksum,
            live_payload_layout: self.live_payload_layout,
        }
    }
}

impl IsoConfigView {
    /// A configuration with nothing but the five things that every ISO needs: a checksum is
    /// generated, payloads are appended as partitions, and there is nothing else.
    pub open spec fn basic(
        kernel: Seq<u8>,
        initrd: Seq<u8>,
        rootfs: Seq<u8>,
        label: Seq<char>,
        output: Seq<u8>,
    ) -> IsoConfigView {
        IsoConfigView {
            kernel,
            initrd,
            rootfs,
            label,
            output,
            ukis: Seq::empty(),
            overlay_image: None,
            os_release: None,
            extra_files: Seq::empty(),
            generate_checksum: true,
            live_payload_layout: LivePayloadLayout::AppendedPartitions,
        }
    }

    /// The configuration with one more UKI, behind those it has.
    pub open spec fn plus_uki(self, uki: UkiSourceView) -> IsoConfigView {
        IsoConfigView { ukis: self.ukis.push(uki), ..self }
    }

    /// The configuration with one more extra file, behind those it has.
    pub open spec fn plus_extra_file(self, source: Seq<u8>, dst: Seq<char>) -> IsoConfigView {
        IsoConfigView { extra_files: self.extra_files.push((source, dst)), ..self }
    }
}

impl Clone for IsoConfig {
    fn clone(&self) -> (copy: Self)
        ensures
            copy@ == self@,
    {
        let mut ukis: Vec<UkiSource> = Vec::new();
        let mut at: usize = 0;
        while at < self.ukis.len()
            invariant
                at <= self.ukis@.len(),
                ukis@.len() == at,
                forall|i: int| 0 <= i < at ==> (#[trigger] ukis@[i])@ == self.ukis@[i]@,
            decreases self.ukis@.len() - at,
        {
            ukis.push(self.ukis[at].clone());
            at = at + 1;
        }
        assert(ukis_view(ukis@) =~= ukis_view(self.ukis@));
        let mut extra_files: Vec<(PathBuf, String)> = Vec::new();
        let mut at: usize = 0;
        while at < self.extra_files.len()
            invariant
                at <= self.extra_files@.len(),
                extra_files@.len() == at,
                forall|i: int|
                    0 <= i < at ==> path_bytes((#[trigger] extra_files@[i]).0) == path_bytes(
                        self.extra_files@[i].0,
                    ) && extra_files@[i].1@ == self.extra_files@[i].1@,
            decreases self.extra_files@.len() - at,
        {
            let file = &self.extra_files[at];
            extra_files.push((file.0.clone(), file.1.clone()));
            at = at + 1;
        }
        assert(extra_files_view(extra_files@) =~= extra_files_view(self.extra_files@));
        IsoConfig {
            kernel: self.kernel.clone(),
            initrd: self.initrd.clone(),
            rootfs: self.rootfs.clone(),
            label: self.label.clone(),
            output: self.output.clone(),
            ukis,
            overlay_image: clone_path(&self.overlay_image),
            os_release: clone_os_release(&self.os_release),
            extra_files,
            generate_checksum: self.generate_checksum,
            live_payload_layout: self.live_payload_layout,
        }
    }
}

impl IsoConfig {
    /// Create a new ISO configuration.
    pub fn new(
        kernel: PathBuf,
        initrd: PathBuf,
        rootfs: PathBuf,
        label: String,
        output: PathBuf,
    ) -> (config: Self)
        ensures
            config@ == IsoConfigView::basic(
                path_bytes(kernel),
                path_bytes(initrd),
                path_bytes(rootfs),
                label@,
                path_bytes(output),
            ),
    {
        IsoConfig {
            kernel,
            initrd,
            rootfs,
            label,
            output,
            ukis: Vec::new(),
            overlay_image: None,
            os_release: None,
            extra_files: Vec::new(),
            generate_checksum: true,
            live_payload_layout: LivePayloadLayout::AppendedPartitions,
        }
    }

    /// Add a UKI source.
    pub(crate) fn push_uki(&mut self, uki: UkiSource)
        ensures
            final(self)@ == old(self)@.plus_uki(uki@),
    {
        self.ukis.push(uki);
        assert(self@ =~= old(self)@.plus_uki(uki@));
    }

    /// Add an extra file.
    pub(crate) fn push_extra_file(&mut self, source: PathBuf, dst: String)
        ensures
            final(self)@ == old(self)@.plus_extra_file(path_bytes(source), dst@),
    {
        self.extra_files.push((source, dst));
        assert(self@ =~= old(self)@.plus_extra_file(path_bytes(source), dst@));
    }

    /// Add a prebuilt UKI file.
    pub fn with_prebuilt_uki(self, path: PathBuf) -> (config: Self)
        ensures
            config@ == self@.plus_uki(UkiSourceView::Prebuilt(path_bytes(path))),
    {
        let mut config: Self = self;
        config.push_uki(UkiSource::Prebuilt(path));
        config
    }

    /// Add a UKI to build.
    pub fn with_uki(self, name: String, extra_cmdline: String, filename: String) -> (config: Self)
        ensures
            config@ == self@.plus_uki(
                (UkiSourceView::Build {
                    name: name@,
                    extra_cmdline: extra_cmdline@,
                    filename: filename@,
                }),
            ),
    {
        let mut config: Self = self;
        config.push_uki(UkiSource::Build { name, extra_cmdline, filename });
        config
    }

    /// Set live overlay payload image (EROFS).
    pub fn with_overlay_image(self, path: PathBuf) -> (config: Self)
        ensures
            config@ == (IsoConfigView { overlay_image: Some(path_bytes(path)), ..self@ }),
    {
        let mut config: Self = self;
        config.overlay_image = Some(path);
        config
    }

    /// Legacy compatibility alias for `with_overlay_image`.
    pub fn with_overlay(self, path: PathBuf) -> (config: Self)
        ensures
            config@ == (IsoConfigView { overlay_image: Some(path_bytes(path)), ..self@ }),
    {
        self.with_overlay_image(path)
    }

    /// Set OS release branding.
    pub fn with_os_release(self, name: &str, id: &str, version: &str) -> (config: Self)
        ensures
            config@ == (IsoConfigView {
                os_release: Some(OsReleaseView { name: name@, id: id@, version: version@ }),
                ..self@
            }),
    {
        let mut config: Self = self;
        config.os_release = Some(OsRelease::new(name, id, version));
        config
    }

    /// Add an extra file to copy to ISO.
    pub fn with_extra_file(self, src: PathBuf, dst: String) -> (config: Self)
        ensures
            config@ == self@.plus_extra_file(path_bytes(src), dst@),
    {
        let mut config: Self = self;
        config.push_extra_file(src, dst);
        config
    }

    /// Disable checksum generation.
    pub fn without_checksum(self) -> (config: Self)
        ensures
            config@ == (IsoConfigView { generate_checksum: false, ..self@ }),
    {
        let mut config: Self = self;
        config.generate_checksum = false;
        config
    }

    /// Force legacy payload placement (`live/*.erofs` files in ISO filesystem).
    pub fn with_live_payload_iso_files(self) -> (config: Self)
        ensures
            config@ == (IsoConfigView {
                live_payload_layout: LivePayloadLayout::IsoFiles,
                ..self@
            }),
    {
        let mut config: Self = self;
        config.live_payload_layout = LivePayloadLayout::IsoFiles;
        config
    }
}

} // verus!
