//! The UKIs of an ISO: which ones there are, how they get there and what boots them.
use crate::config::{
    option_os_view, IsoConfig, IsoConfigView, OsRelease, OsReleaseView, UkiSource, UkiSourceView,
};
use crate::distro::{DistroSettings, DistroSettingsView};
use crate::loader::{entries_view, UkiMenuEntry, UkiMenuEntryView};
use crate::paths::{
    below, file_name, file_stem, join, join_text, option_path_bytes, path_bytes, path_file_name,
    path_file_stem, path_joined, path_lossy, to_string_lossy,
};
use crate::step::{option_text, push_step, steps_view, Step, StepView, UkiConfig, UkiConfigView};
use std::path::PathBuf;
use vstd::prelude::*;

verus! {

/// What `str::to_lowercase` makes of a text.
pub uninterp spec fn lowercased(text: Seq<char>) -> Seq<char>;

/// `str::to_lowercase`: the outcome is a function of the text, named `lowercased`.
#[verifier::external_body]
pub(crate) fn to_lowercase(text: &str) -> (lower: String)
    ensures
        lower@ == lowercased(text@),
{
    text.to_lowercase()
}

/// The kernel command line that every UKI of an ISO starts with.
pub open spec fn base_cmdline_of(label: Seq<char>, selinux_disable: Seq<char>) -> Seq<char> {
    "root=LABEL="@ + label + " console=ttyS0,115200n8 console=tty0 "@ + selinux_disable
}

/// The base command line, with extra parameters where there are any.
pub open spec fn cmdline_with(base: Seq<char>, extra: Seq<char>) -> Seq<char> {
    if extra.len() == 0 {
        base
    } else {
        base + " "@ + extra
    }
}

/// The base command line of an ISO.
pub open spec fn iso_cmdline(config: IsoConfigView, distro: DistroSettingsView) -> Seq<char> {
    base_cmdline_of(config.label, distro.selinux_disable)
}

/// The title of a prebuilt UKI: the stem of its file name, or else the file name.
pub open spec fn menu_title_of(stem: Option<Seq<char>>, filename: Seq<char>) -> Seq<char> {
    match stem {
        Some(stem) => stem,
        None => filename,
    }
}

/// The file name of the UKI that is built where none is asked for.
pub open spec fn default_filename_of(lowered_label: Seq<char>) -> Seq<char> {
    lowered_label + ".efi"@
}

/// The title of the UKI that is built where none is asked for.
pub open spec fn default_title_of(os: Option<OsReleaseView>, label: Seq<char>) -> Seq<char> {
    match os {
        Some(os) => os.name + " "@ + os.version,
        None => label,
    }
}

/// The text of a part of a path that may be absent.
pub open spec fn option_lossy(part: Option<Seq<u8>>) -> Option<Seq<char>> {
    match part {
        Some(part) => Some(path_lossy(part)),
        None => None,
    }
}

/// The steps that put one UKI into the ISO tree, and its menu entry.
#[verifier::ext_equal]
pub struct StagedUkiView {
    pub steps: Seq<StepView>,
    pub entry: UkiMenuEntryView,
}

/// How a prebuilt UKI with the file name `name` is put into `uki_dir`.
pub open spec fn staged_prebuilt(
    uki_dir: Seq<u8>,
    path: Seq<u8>,
    name: Seq<u8>,
    stem: Option<Seq<u8>>,
) -> StagedUkiView {
    let to = path_joined(uki_dir, name);
    StagedUkiView {
        steps: seq![StepView::Copy { from: path, to, context: None }],
        entry: UkiMenuEntryView {
            title: menu_title_of(option_lossy(stem), path_lossy(name)),
            filename: path_lossy(name),
            path: to,
        },
    }
}

/// How a UKI is built into `uki_dir`.
pub open spec fn staged_build(
    config: IsoConfigView,
    uki_dir: Seq<u8>,
    title: Seq<char>,
    cmdline: Seq<char>,
    filename: Seq<char>,
) -> StagedUkiView {
    let output = below(uki_dir, filename);
    StagedUkiView {
        steps: seq![
            StepView::Note("  Building UKI: "@ + filename),
            StepView::BuildUki(
                UkiConfigView {
                    kernel: config.kernel,
                    initrd: config.initrd,
                    cmdline,
                    output,
                    os_release: config.os_release,
                },
            ),
        ],
        entry: UkiMenuEntryView { title, filename, path: output },
    }
}

/// How a UKI gets into `uki_dir`; it does not where it is prebuilt and its path names no file.
pub open spec fn staged_uki(
    config: IsoConfigView,
    distro: DistroSettingsView,
    uki_dir: Seq<u8>,
    uki: UkiSourceView,
) -> Option<StagedUkiView> {
    match uki {
        UkiSourceView::Prebuilt(path) => match path_file_name(path) {
            Some(name) => Some(staged_prebuilt(uki_dir, path, name, path_file_stem(path))),
            None => None,
        },
        UkiSourceView::Build { name, extra_cmdline, filename } => Some(
            staged_build(
                config,
                uki_dir,
                name,
                cmdline_with(iso_cmdline(config, distro), extra_cmdline),
                filename,
            ),
        ),
    }
}

/// How the UKI that is built where none is asked for gets into `uki_dir`.
pub open spec fn staged_default(
    config: IsoConfigView,
    distro: DistroSettingsView,
    uki_dir: Seq<u8>,
) -> StagedUkiView {
    staged_build(
        config,
        uki_dir,
        default_title_of(config.os_release, config.label),
        iso_cmdline(config, distro),
        default_filename_of(lowercased(config.label)),
    )
}

/// The steps that put UKIs into the ISO tree, up to the first one whose path names no file, and
/// the menu entries of those before it.
#[verifier::ext_equal]
pub struct StagedUkisView {
    pub steps: Seq<StepView>,
    pub entries: Seq<UkiMenuEntryView>,
    pub nameless: bool,
}

impl StagedUkisView {
    /// With one more UKI behind the others.
    pub open spec fn plus(self, staged: StagedUkiView) -> StagedUkisView {
        StagedUkisView {
            steps: self.steps + staged.steps,
            entries: self.entries.push(staged.entry),
            nameless: self.nameless,
        }
    }
}

/// How the UKIs `ukis` get into `uki_dir`, one after the other.
pub open spec fn staged_ukis(
    config: IsoConfigView,
    distro: DistroSettingsView,
    uki_dir: Seq<u8>,
    ukis: Seq<UkiSourceView>,
) -> StagedUkisView
    decreases ukis.len(),
{
    if ukis.len() == 0 {
        StagedUkisView { steps: seq![], entries: seq![], nameless: false }
    } else {
        let before = staged_ukis(config, distro, uki_dir, ukis.drop_last());
        if before.nameless {
            before
        } else {
            match staged_uki(config, distro, uki_dir, ukis.last()) {
                Some(staged) => before.plus(staged),
                None => StagedUkisView { nameless: true, ..before },
            }
        }
    }
}

/// How all UKIs of an ISO get into `uki_dir`: those that are asked for, or else the default one.
pub open spec fn staged_all(
    config: IsoConfigView,
    distro: DistroSettingsView,
    uki_dir: Seq<u8>,
) -> StagedUkisView {
    let asked = staged_ukis(config, distro, uki_dir, config.ukis);
    if !asked.nameless && asked.entries.len() == 0 {
        let fallback = staged_default(config, distro, uki_dir);
        StagedUkisView {
            steps: asked.steps + fallback.steps,
            entries: seq![fallback.entry],
            nameless: false,
        }
    } else {
        asked
    }
}

/// The kernel command line that every UKI of an ISO starts with.
pub fn base_cmdline(label: &str, selinux_disable: &str) -> (cmdline: String)
    ensures
        cmdline@ == base_cmdline_of(label@, selinux_disable@),
{
    "root=LABEL=".to_owned().concat(label).concat(" console=ttyS0,115200n8 console=tty0 ").concat(
        selinux_disable,
    )
}

/// The command line of a UKI: extra parameters are put behind the base.
pub fn uki_cmdline(base: &str, extra: &str) -> (cmdline: String)
    ensures
        cmdline@ == cmdline_with(base@, extra@),
{
    if extra.is_empty() {
        base.to_owned()
    } else {
        base.to_owned().concat(" ").concat(extra)
    }
}

/// The title of a prebuilt UKI: the stem of its file name, or else the file name.
pub fn menu_title(stem: Option<String>, filename: &str) -> (title: String)
    ensures
        title@ == menu_title_of(option_text(stem), filename@),
{
    match stem {
        Some(stem) => stem,
        None => filename.to_owned(),
    }
}

/// The file name of the UKI that is built where none is asked for, going by the label in lower
/// case.
pub fn default_filename(lowered_label: &str) -> (filename: String)
    ensures
        filename@ == default_filename_of(lowered_label@),
{
    lowered_label.to_owned().concat(".efi")
}

/// The title of the UKI that is built where none is asked for.
pub fn default_title(os: &Option<OsRelease>, label: &str) -> (title: String)
    ensures
        title@ == default_title_of(option_os_view(*os), label@),
{
    match os {
        Some(os) => os.name.clone().concat(" ").concat(os.version.as_str()),
        None => label.to_owned(),
    }
}

/// The steps that put UKIs into the ISO tree, and the menu entries of these UKIs.
#[derive(Debug)]
pub struct StagedUkis {
    /// What to do, in this order.
    pub steps: Vec<Step>,
    /// The menu entries, in their order.
    pub entries: Vec<UkiMenuEntry>,
    /// Whether the steps end before a prebuilt UKI whose path names no file.
    pub nameless: bool,
}

impl View for StagedUkis {
    type V = StagedUkisView;

    open spec fn view(&self) -> StagedUkisView {
        StagedUkisView {
            steps: steps_view(self.steps@),
            entries: entries_view(self.entries@),
            nameless: self.nameless,
        }
    }
}

impl StagedUkis {
    /// Adds a prebuilt UKI with the file name `name`, whose stem is `stem`.
    pub fn add_prebuilt(
        &mut self,
        uki_dir: &PathBuf,
        path: &PathBuf,
        name: &PathBuf,
        stem: &Option<PathBuf>,
    )
        ensures
            final(self)@ == old(self)@.plus(
                staged_prebuilt(
                    path_bytes(*uki_dir),
                    path_bytes(*path),
                    path_bytes(*name),
                    option_path_bytes(*stem),
                ),
            ),
    {
        let ghost staged = staged_prebuilt(
            path_bytes(*uki_dir),
            path_bytes(*path),
            path_bytes(*name),
            option_path_bytes(*stem),
        );
        let to = join(uki_dir, name);
        push_step(
            &mut self.steps,
            Step::Copy { from: path.clone(), to: to.clone(), context: None },
        );
        let filename = to_string_lossy(name);
        let stem_text: Option<String> = match stem {
            Some(stem) => Some(to_string_lossy(stem)),
            None => None,
        };
        let title = menu_title(stem_text, filename.as_str());
        self.entries.push(UkiMenuEntry { title, filename, path: to });
        assert(self@ =~= old(self)@.plus(staged));
    }

    /// Adds a UKI to build.
    pub fn add_build(
        &mut self,
        config: &IsoConfig,
        uki_dir: &PathBuf,
        title: String,
        cmdline: &str,
        filename: String,
    )
        ensures
            final(self)@ == old(self)@.plus(
                staged_build(config@, path_bytes(*uki_dir), title@, cmdline@, filename@),
            ),
    {
        let ghost staged = staged_build(
            config@,
            path_bytes(*uki_dir),
            title@,
            cmdline@,
            filename@,
        );
        let output = join_text(uki_dir, filename.as_str());
        let mut uki = UkiConfig::new(&config.kernel, &config.initrd, cmdline, &output);
        if let Some(os) = &config.os_release {
            uki = uki.with_os_release(os.name.as_str(), os.id.as_str(), os.version.as_str());
        }
        push_step(
            &mut self.steps,
            Step::Note("  Building UKI: ".to_owned().concat(filename.as_str())),
        );
        push_step(&mut self.steps, Step::BuildUki(uki));
        self.entries.push(UkiMenuEntry { title, filename, path: output });
        assert(self@.steps =~= old(self)@.plus(staged).steps);
        assert(self@ =~= old(self)@.plus(staged));
    }
}

/// Stages the UKIs that are asked for, or else the default one.
pub fn stage_ukis(config: &IsoConfig, distro: &DistroSettings, uki_dir: &PathBuf) -> (staged:
    StagedUkis)
    ensures
        staged@ == staged_all(config@, distro@, path_bytes(*uki_dir)),
{
    let base = base_cmdline(config.label.as_str(), distro.selinux_disable.as_str());
    let mut staged = StagedUkis { steps: Vec::new(), entries: Vec::new(), nameless: false };
    assert(config@.ukis.take(0) =~= seq![]);
    assert(staged@ =~= staged_ukis(config@, distro@, path_bytes(*uki_dir), seq![]));
    let mut at: usize = 0;
    while at < config.ukis.len() && !staged.nameless
        invariant
            at <= config.ukis@.len(),
            base@ == iso_cmdline(config@, distro@),
            staged@ == staged_ukis(
                config@,
                distro@,
                path_bytes(*uki_dir),
                config@.ukis.take(at as int),
            ),
        decreases config.ukis@.len() - at,
    {
        proof {
            let taken = config@.ukis.take(at + 1);
            assert(taken.drop_last() =~= config@.ukis.take(at as int));
            assert(taken.last() == config.ukis@[at as int]@);
        }
        match &config.ukis[at] {
            UkiSource::Prebuilt(path) => {
                match file_name(path) {
                    Some(name) => {
                        staged.add_prebuilt(uki_dir, path, &name, &file_stem(path));
                    },
                    None => {
                        staged.nameless = true;
                    },
                }
            },
            UkiSource::Build { name, extra_cmdline, filename } => {
                let cmdline = uki_cmdline(base.as_str(), extra_cmdline.as_str());
                staged.add_build(config, uki_dir, name.clone(), cmdline.as_str(), filename.clone());
            },
        }
        at = at + 1;
    }
    proof {
        lemma_nameless_prefix(config@, distro@, path_bytes(*uki_dir), config@.ukis, at as int);
    }
    if !staged.nameless && staged.entries.len() == 0 {
        let filename = default_filename(to_lowercase(config.label.as_str()).as_str());
        let title = default_title(&config.os_release, config.label.as_str());
        staged.add_build(config, uki_dir, title, base.as_str(), filename);
        assert(staged@ =~= staged_all(config@, distro@, path_bytes(*uki_dir)));
    }
    staged
}

/// Staging ends at the first UKI whose path names no file, whatever comes behind it.
proof fn lemma_nameless_prefix(
    config: IsoConfigView,
    distro: DistroSettingsView,
    uki_dir: Seq<u8>,
    ukis: Seq<UkiSourceView>,
    at: int,
)
    requires
        0 <= at <= ukis.len(),
        at < ukis.len() ==> staged_ukis(config, distro, uki_dir, ukis.take(at)).nameless,
    ensures
        staged_ukis(config, distro, uki_dir, ukis) == staged_ukis(
            config,
            distro,
            uki_dir,
            ukis.take(at),
        ),
    decreases ukis.len(),
{
    if at == ukis.len() {
        assert(ukis.take(at) =~= ukis);
    } else {
        assert(ukis.drop_last().take(at) =~= ukis.take(at));
        if at == ukis.len() - 1 {
            assert(ukis.drop_last() =~= ukis.take(at));
        }
        lemma_nameless_prefix(config, distro, uki_dir, ukis.drop_last(), at);
    }
}

} // verus!
