//! From the options of the command line to the configuration of an ISO.
use crate::config::{
    clone_path, IsoConfig, IsoConfigView, LivePayloadLayout, OsReleaseView, UkiSource,
    UkiSourceView,
};
use crate::error::{IsoError, IsoErrorView};
use crate::paths::{option_path_bytes, path_bytes, path_from, path_line, paths_view, show_path};
use crate::step::option_text;
use crate::text::{decimal, decimal_digits, push_line, split_once, split_once_at, texts_view};
use std::path::PathBuf;
use vstd::prelude::*;
use vstd::utf8::encode_utf8;

verus! {

/// The options of the command line.
#[derive(Debug)]
pub struct CliOptions {
    /// Path to kernel image (vmlinuz).
    pub kernel: PathBuf,
    /// Path to initramfs image.
    pub initrd: PathBuf,
    /// Path to rootfs image (EROFS).
    pub rootfs: PathBuf,
    /// ISO volume label (used for boot device detection).
    pub label: String,
    /// Output ISO path.
    pub output: PathBuf,
    /// Prebuilt UKI files to put on the ISO.
    pub ukis: Vec<PathBuf>,
    /// UKIs to build, each as "name:extra_cmdline:filename".
    pub build_ukis: Vec<String>,
    /// Extra files, each as "src:dst".
    pub extra_files: Vec<String>,
    /// Live overlay payload image (EROFS).
    pub overlay_image: Option<PathBuf>,
    /// OS name for UKI branding.
    pub os_name: Option<String>,
    /// OS identifier for UKI branding.
    pub os_id: Option<String>,
    /// OS version for UKI branding.
    pub os_version: Option<String>,
    /// Skip checksum generation.
    pub no_checksum: bool,
    /// Layout for live payloads.
    pub live_payload_layout: LivePayloadLayout,
    /// Only print errors.
    pub quiet: bool,
}

/// The model of [`CliOptions`].
pub struct CliOptionsView {
    pub kernel: Seq<u8>,
    pub initrd: Seq<u8>,
    pub rootfs: Seq<u8>,
    pub label: Seq<char>,
    pub output: Seq<u8>,
    pub ukis: Seq<Seq<u8>>,
    pub build_ukis: Seq<Seq<char>>,
    pub extra_files: Seq<Seq<char>>,
    pub overlay_image: Option<Seq<u8>>,
    pub os_name: Option<Seq<char>>,
    pub os_id: Option<Seq<char>>,
    pub os_version: Option<Seq<char>>,
    pub no_checksum: bool,
    pub live_payload_layout: LivePayloadLayout,
    pub quiet: bool,
}

impl View for CliOptions {
    type V = CliOptionsView;

    open spec fn view(&self) -> CliOptionsView {
        CliOptionsView {
            kernel: path_bytes(self.kernel),
            initrd: path_bytes(self.initrd),
            rootfs: path_bytes(self.rootfs),
            label: self.label@,
            output: path_bytes(self.output),
            ukis: paths_view(self.ukis@),
            build_ukis: texts_view(self.build_ukis@),
            extra_files: texts_view(self.extra_files@),
            overlay_image: option_path_bytes(self.overlay_image),
            os_name: option_text(self.os_name),
            os_id: option_text(self.os_id),
            os_version: option_text(self.os_version),
            no_checksum: self.no_checksum,
            live_payload_layout: self.live_payload_layout,
            quiet: self.quiet,
        }
    }
}

/// The UKI that "name:extra_cmdline:filename" asks for. The first two colons part the text, so
/// a file name may have colons in it.
pub open spec fn build_uki_of(text: Seq<char>) -> Option<UkiSourceView> {
    match split_once_at(text, ':') {
        Some((name, rest)) => match split_once_at(rest, ':') {
            Some((extra_cmdline, filename)) => Some(
                UkiSourceView::Build { name, extra_cmdline, filename },
            ),
            None => None,
        },
        None => None,
    }
}

/// The extra file that "src:dst" asks for. The first colon parts the text, and neither part may
/// be empty.
pub open spec fn extra_file_of(text: Seq<char>) -> Option<(Seq<u8>, Seq<char>)> {
    match split_once_at(text, ':') {
        Some((source, dst)) => if source.len() > 0 && dst.len() > 0 {
            Some((encode_utf8(source), dst))
        } else {
            None
        },
        None => None,
    }
}

/// The UKIs that the texts ask for, or the first text that asks for none.
pub open spec fn build_ukis_of(texts: Seq<Seq<char>>) -> Result<Seq<UkiSourceView>, Seq<char>>
    decreases texts.len(),
{
    if texts.len() == 0 {
        Ok(seq![])
    } else {
        match build_ukis_of(texts.drop_last()) {
            Ok(before) => match build_uki_of(texts.last()) {
                Some(uki) => Ok(before.push(uki)),
                None => Err(texts.last()),
            },
            Err(text) => Err(text),
        }
    }
}

/// The extra files that the texts ask for, or the first text that asks for none.
pub open spec fn extra_files_of(texts: Seq<Seq<char>>) -> Result<
    Seq<(Seq<u8>, Seq<char>)>,
    Seq<char>,
>
    decreases texts.len(),
{
    if texts.len() == 0 {
        Ok(seq![])
    } else {
        match extra_files_of(texts.drop_last()) {
            Ok(before) => match extra_file_of(texts.last()) {
                Some(file) => Ok(before.push(file)),
                None => Err(texts.last()),
            },
            Err(text) => Err(text),
        }
    }
}

/// The OS release information, where all three parts of it are given.
pub open spec fn branding_of(
    name: Option<Seq<char>>,
    id: Option<Seq<char>>,
    version: Option<Seq<char>>,
) -> Option<OsReleaseView> {
    if name is Some && id is Some && version is Some {
        Some(OsReleaseView { name: name->0, id: id->0, version: version->0 })
    } else {
        None
    }
}

/// Whether some, but not all, of the OS release information is given.
pub open spec fn is_partial_branding(options: CliOptionsView) -> bool {
    &&& options.os_name is Some || options.os_id is Some || options.os_version is Some
    &&& options.os_name is None || options.os_id is None || options.os_version is None
}

/// The configuration that the options ask for, or why they ask for none.
pub open spec fn config_of(options: CliOptionsView) -> Result<IsoConfigView, IsoErrorView> {
    match build_ukis_of(options.build_ukis) {
        Ok(built) => match extra_files_of(options.extra_files) {
            Ok(extra_files) => Ok(
                IsoConfigView {
                    kernel: options.kernel,
                    initrd: options.initrd,
                    rootfs: options.rootfs,
                    label: options.label,
                    output: options.output,
                    ukis: options.ukis.map_values(|path: Seq<u8>| UkiSourceView::Prebuilt(path))
                        + built,
                    overlay_image: options.overlay_image,
                    os_release: branding_of(
                        options.os_name,
                        options.os_id,
                        options.os_version,
                    ),
                    extra_files,
                    generate_checksum: !options.no_checksum,
                    live_payload_layout: options.live_payload_layout,
                },
            ),
            Err(text) => Err(IsoErrorView::InvalidExtraFile(text)),
        },
        Err(text) => Err(IsoErrorView::InvalidBuildUki(text)),
    }
}

/// A line that shows a number, unless it is zero.
pub open spec fn count_lines(head: Seq<char>, count: nat) -> Seq<Seq<char>> {
    if count == 0 {
        seq![]
    } else {
        seq![head + decimal_digits(count)]
    }
}

/// What the user is told before an ISO is created.
pub open spec fn summary_of(config: IsoConfigView) -> Seq<Seq<char>> {
    let overlay_lines = match config.overlay_image {
        Some(overlay_image) => seq![path_line("  Overlay image: "@, overlay_image)],
        None => seq![],
    };
    let os_lines = match config.os_release {
        Some(os) => seq!["  OS: "@ + os.name + " "@ + os.version + " ("@ + os.id + ")"@],
        None => seq![],
    };
    seq![
        path_line("Creating ISO: "@, config.output),
        path_line("  Kernel: "@, config.kernel),
        path_line("  Initrd: "@, config.initrd),
        path_line("  Rootfs: "@, config.rootfs),
        "  Label: "@ + config.label,
    ] + overlay_lines + count_lines("  Extra files: "@, config.extra_files.len()) + count_lines(
        "  UKIs: "@,
        config.ukis.len(),
    ) + os_lines + seq![""@]
}

/// The UKI that "name:extra_cmdline:filename" asks for.
pub fn parse_build_uki(text: &str) -> (parsed: Result<UkiSource, IsoError>)
    ensures
        match parsed {
            Ok(uki) => build_uki_of(text@) == Some(uki@),
            Err(error) => build_uki_of(text@) is None && error@ == IsoErrorView::InvalidBuildUki(
                text@,
            ),
        },
{
    if let Some((name, rest)) = split_once(text, ':') {
        if let Some((extra_cmdline, filename)) = split_once(rest.as_str(), ':') {
            return Ok(UkiSource::Build { name, extra_cmdline, filename });
        }
    }
    Err(IsoError::InvalidBuildUki(text.to_owned()))
}

/// The extra file that "src:dst" asks for.
pub fn parse_extra_file(text: &str) -> (parsed: Result<(PathBuf, String), IsoError>)
    ensures
        match parsed {
            Ok(file) => extra_file_of(text@) == Some((path_bytes(file.0), file.1@)),
            Err(error) => extra_file_of(text@) is None && error@ == IsoErrorView::InvalidExtraFile(
                text@,
            ),
        },
{
    if let Some((source, dst)) = split_once(text, ':') {
        if !source.as_str().is_empty() && !dst.as_str().is_empty() {
            return Ok((path_from(source.as_str()), dst));
        }
    }
    Err(IsoError::InvalidExtraFile(text.to_owned()))
}

/// Whether some, but not all, of the OS release information is given.
pub fn partial_branding(options: &CliOptions) -> (partial: bool)
    ensures
        partial == is_partial_branding(options@),
{
    let some: bool = options.os_name.is_some() || options.os_id.is_some()
        || options.os_version.is_some();
    let all: bool = options.os_name.is_some() && options.os_id.is_some()
        && options.os_version.is_some();
    some && !all
}

/// The warning that the options call for, unless nothing but errors is to be printed.
pub fn branding_warning(options: &CliOptions) -> (warning: Option<String>)
    ensures
        warning is Some == (is_partial_branding(options@) && !options@.quiet),
        warning matches Some(warning) ==> warning@
            == "Warning: Partial OS release info provided. Need all of --os-name, --os-id, and --os-version for branding."@,
{
    if partial_branding(options) && !options.quiet {
        Some(
            "Warning: Partial OS release info provided. Need all of --os-name, --os-id, and --os-version for branding.".to_owned(),
        )
    } else {
        None
    }
}

/// The configuration that the options ask for.
pub fn configure(options: &CliOptions) -> (configured: Result<IsoConfig, IsoError>)
    ensures
        match configured {
            Ok(config) => config_of(options@) == Ok::<IsoConfigView, IsoErrorView>(config@),
            Err(error) => config_of(options@) == Err::<IsoConfigView, IsoErrorView>(error@),
        },
{
    let mut config = IsoConfig::new(
        options.kernel.clone(),
        options.initrd.clone(),
        options.rootfs.clone(),
        options.label.clone(),
        options.output.clone(),
    );
    let ghost start = config@;
    let ghost prebuilt = options@.ukis.map_values(
        |path: Seq<u8>| UkiSourceView::Prebuilt(path),
    );
    let mut at: usize = 0;
    assert(config@ =~= (IsoConfigView { ukis: prebuilt.take(0), ..start }));
    while at < options.ukis.len()
        invariant
            at <= options.ukis@.len(),
            prebuilt == options@.ukis.map_values(|path: Seq<u8>| UkiSourceView::Prebuilt(path)),
            config@ == (IsoConfigView { ukis: prebuilt.take(at as int), ..start }),
        decreases options.ukis@.len() - at,
    {
        config.push_uki(UkiSource::Prebuilt(options.ukis[at].clone()));
        at = at + 1;
        assert(config@ =~= (IsoConfigView { ukis: prebuilt.take(at as int), ..start }));
    }
    assert(prebuilt.take(at as int) =~= prebuilt);
    let mut at: usize = 0;
    assert(options@.build_ukis.take(0) =~= seq![]);
    assert(config@ =~= (IsoConfigView { ukis: prebuilt + seq![], ..start }));
    while at < options.build_ukis.len()
        invariant
            at <= options.build_ukis@.len(),
            build_ukis_of(options@.build_ukis.take(at as int)) matches Ok(done) && config@ == (
            IsoConfigView { ukis: prebuilt + done, ..start }),
        decreases options.build_ukis@.len() - at,
    {
        let ghost texts = options@.build_ukis;
        proof {
            assert(texts.take(at + 1).drop_last() =~= texts.take(at as int));
            assert(texts.take(at + 1).last() == options.build_ukis@[at as int]@);
        }
        match parse_build_uki(options.build_ukis[at].as_str()) {
            Ok(uki) => {
                config.push_uki(uki);
                proof {
                    let done = build_ukis_of(texts.take(at as int))->Ok_0;
                    assert(prebuilt + done.push(uki@) =~= (prebuilt + done).push(uki@));
                }
            },
            Err(error) => {
                proof {
                    lemma_build_ukis_error(texts, at + 1);
                }
                return Err(error);
            },
        }
        at = at + 1;
    }
    assert(options@.build_ukis.take(at as int) =~= options@.build_ukis);
    let ghost start = config@;
    let mut at: usize = 0;
    assert(options@.extra_files.take(0) =~= seq![]);
    assert(config@ =~= (IsoConfigView { extra_files: seq![], ..start }));
    while at < options.extra_files.len()
        invariant
            at <= options.extra_files@.len(),
            build_ukis_of(options@.build_ukis) is Ok,
            extra_files_of(options@.extra_files.take(at as int)) matches Ok(done) && config@ == (
            IsoConfigView { extra_files: done, ..start }),
        decreases options.extra_files@.len() - at,
    {
        let ghost texts = options@.extra_files;
        proof {
            assert(texts.take(at + 1).drop_last() =~= texts.take(at as int));
            assert(texts.take(at + 1).last() == options.extra_files@[at as int]@);
        }
        match parse_extra_file(options.extra_files[at].as_str()) {
            Ok((source, dst)) => {
                config.push_extra_file(source, dst);
            },
            Err(error) => {
                proof {
                    lemma_extra_files_error(texts, at + 1);
                }
                return Err(error);
            },
        }
        at = at + 1;
    }
    assert(options@.extra_files.take(at as int) =~= options@.extra_files);
    config.overlay_image = clone_path(&options.overlay_image);
    if let (Some(name), Some(id), Some(version)) = (
        &options.os_name,
        &options.os_id,
        &options.os_version,
    ) {
        config = config.with_os_release(name.as_str(), id.as_str(), version.as_str());
    }
    if options.no_checksum {
        config.generate_checksum = false;
    }
    config.live_payload_layout = options.live_payload_layout;
    Ok(config)
}

/// Where some first texts hold one that asks for no UKI, so do all texts.
proof fn lemma_build_ukis_error(texts: Seq<Seq<char>>, at: int)
    requires
        0 <= at <= texts.len(),
        build_ukis_of(texts.take(at)) is Err,
    ensures
        build_ukis_of(texts) == build_ukis_of(texts.take(at)),
    decreases texts.len(),
{
    if at == texts.len() {
        assert(texts.take(at) =~= texts);
    } else {
        assert(texts.drop_last().take(at) =~= texts.take(at));
        lemma_build_ukis_error(texts.drop_last(), at);
    }
}

/// Where some first texts hold one that asks for no extra file, so do all texts.
proof fn lemma_extra_files_error(texts: Seq<Seq<char>>, at: int)
    requires
        0 <= at <= texts.len(),
        extra_files_of(texts.take(at)) is Err,
    ensures
        extra_files_of(texts) == extra_files_of(texts.take(at)),
    decreases texts.len(),
{
    if at == texts.len() {
        assert(texts.take(at) =~= texts);
    } else {
        assert(texts.drop_last().take(at) =~= texts.take(at));
        lemma_extra_files_error(texts.drop_last(), at);
    }
}

/// What the user is told before an ISO is created; nothing in quiet mode.
pub fn summary(config: &IsoConfig, quiet: bool) -> (lines: Vec<String>)
    ensures
        texts_view(lines@) == if quiet {
            Seq::<Seq<char>>::empty()
        } else {
            summary_of(config@)
        },
{
    let mut lines: Vec<String> = Vec::new();
    if quiet {
        assert(texts_view(lines@) =~= Seq::<Seq<char>>::empty());
        return lines;
    }
    push_line(&mut lines, show_path("Creating ISO: ", &config.output));
    push_line(&mut lines, show_path("  Kernel: ", &config.kernel));
    push_line(&mut lines, show_path("  Initrd: ", &config.initrd));
    push_line(&mut lines, show_path("  Rootfs: ", &config.rootfs));
    push_line(&mut lines, "  Label: ".to_owned().concat(config.label.as_str()));
    if let Some(overlay_image) = &config.overlay_image {
        push_line(&mut lines, show_path("  Overlay image: ", overlay_image));
    }
    if config.extra_files.len() != 0 {
        let count = decimal(config.extra_files.len() as u64);
        push_line(&mut lines, "  Extra files: ".to_owned().concat(count.as_str()));
    }
    if config.ukis.len() != 0 {
        let count = decimal(config.ukis.len() as u64);
        push_line(&mut lines, "  UKIs: ".to_owned().concat(count.as_str()));
    }
    if let Some(os) = &config.os_release {
        push_line(
            &mut lines,
            "  OS: ".to_owned().concat(os.name.as_str()).concat(" ").concat(
                os.version.as_str(),
            ).concat(" (").concat(os.id.as_str()).concat(")"),
        );
    }
    push_line(&mut lines, "".to_owned());
    assert(texts_view(lines@) =~= summary_of(config@));
    lines
}

} // verus!
