//! What the models of values say of them: what a value holds, each thing under its own name.
use crate::boot::option_paths_view;
use crate::checks::{
    checks_view, InputCheck, InputCheckView, Validation, ValidationView,
};
use crate::cli::CliOptions;
use crate::config::{
    extra_files_view, option_os_view, ukis_view, IsoConfig, OsRelease, UkiSource, UkiSourceView,
};
use crate::distro::DistroSettings;
use crate::error::{IsoError, IsoErrorView};
use crate::iso::{Progress, ProgressView};
use crate::loader::{entries_view, UkiMenuEntry};
use crate::paths::{option_path_bytes, path_bytes, paths_view};
use crate::step::{
    option_text, partitions_view, steps_view, AppendedPartition, LoaderConfig, Next, NextView,
    Plan, Step, StepView, UkiConfig,
};
use crate::text::texts_view;
use crate::uki::StagedUkis;
use std::path::PathBuf;
use vstd::prelude::*;

verus! {

/// Things that may be absent are absent in the model exactly where they are.
pub proof fn law_models_of_what_may_be_absent(
    path: PathBuf,
    text: String,
    os: OsRelease,
    paths: Vec<PathBuf>,
)
    ensures
        option_path_bytes(Some(path)) == Some(path_bytes(path)),
        option_path_bytes(None) is None,
        option_text(Some(text)) == Some(text@),
        option_text(None) is None,
        option_os_view(Some(os)) == Some(os@),
        option_os_view(None) is None,
        option_paths_view(Some(paths)) == Some(paths_view(paths@)),
        option_paths_view(None) is None,
{
}

/// The model of a list has the models of its items, as many and in the same order.
pub proof fn law_models_of_lists(
    paths: Seq<PathBuf>,
    texts: Seq<String>,
    ukis: Seq<UkiSource>,
    files: Seq<(PathBuf, String)>,
    checks: Seq<InputCheck>,
)
    ensures
        paths_view(paths).len() == paths.len(),
        forall|i: int|
            0 <= i < paths.len() ==> #[trigger] paths_view(paths)[i] == path_bytes(paths[i]),
        texts_view(texts).len() == texts.len(),
        forall|i: int| 0 <= i < texts.len() ==> #[trigger] texts_view(texts)[i] == texts[i]@,
        ukis_view(ukis).len() == ukis.len(),
        forall|i: int| 0 <= i < ukis.len() ==> #[trigger] ukis_view(ukis)[i] == ukis[i]@,
        extra_files_view(files).len() == files.len(),
        forall|i: int|
            0 <= i < files.len() ==> #[trigger] extra_files_view(files)[i] == (
                path_bytes(files[i].0),
                files[i].1@,
            ),
        checks_view(checks).len() == checks.len(),
        forall|i: int| 0 <= i < checks.len() ==> #[trigger] checks_view(checks)[i] == checks[i]@,
{
}

/// The model of a list of steps, partitions or menu entries has the models of its items, as many
/// and in the same order.
pub proof fn law_models_of_plan_lists(
    steps: Seq<Step>,
    partitions: Seq<AppendedPartition>,
    entries: Seq<UkiMenuEntry>,
)
    ensures
        steps_view(steps).len() == steps.len(),
        forall|i: int| 0 <= i < steps.len() ==> #[trigger] steps_view(steps)[i] == steps[i]@,
        partitions_view(partitions).len() == partitions.len(),
        forall|i: int|
            0 <= i < partitions.len() ==> #[trigger] partitions_view(partitions)[i]
                == partitions[i]@,
        entries_view(entries).len() == entries.len(),
        forall|i: int|
            0 <= i < entries.len() ==> #[trigger] entries_view(entries)[i] == entries[i]@,
{
}

/// The model of a configuration.
pub proof fn law_model_of_a_configuration(config: IsoConfig)
    ensures
        config@.kernel == path_bytes(config.kernel),
        config@.initrd == path_bytes(config.initrd),
        config@.rootfs == path_bytes(config.rootfs),
        config@.label == config.label@,
        config@.output == path_bytes(config.output),
        config@.ukis == ukis_view(config.ukis@),
        config@.overlay_image == option_path_bytes(config.overlay_image),
        config@.os_release == option_os_view(config.os_release),
        config@.extra_files == extra_files_view(config.extra_files@),
        config@.generate_checksum == config.generate_checksum,
        config@.live_payload_layout == config.live_payload_layout,
{
}

/// The model of a UKI source and of OS release information.
pub proof fn law_models_of_sources(uki: UkiSource, os: OsRelease)
    ensures
        match uki {
            UkiSource::Prebuilt(path) => uki@ == UkiSourceView::Prebuilt(path_bytes(path)),
            UkiSource::Build { name, extra_cmdline, filename } => uki@ == (UkiSourceView::Build {
                name: name@,
                extra_cmdline: extra_cmdline@,
                filename: filename@,
            }),
        },
        os@.name == os.name@,
        os@.id == os.id@,
        os@.version == os.version@,
{
}

/// The model of the options of the command line.
pub proof fn law_model_of_options(options: CliOptions)
    ensures
        options@.kernel == path_bytes(options.kernel),
        options@.initrd == path_bytes(options.initrd),
        options@.rootfs == path_bytes(options.rootfs),
        options@.label == options.label@,
        options@.output == path_bytes(options.output),
        options@.ukis == paths_view(options.ukis@),
        options@.build_ukis == texts_view(options.build_ukis@),
        options@.extra_files == texts_view(options.extra_files@),
        options@.overlay_image == option_path_bytes(options.overlay_image),
        options@.os_name == option_text(options.os_name),
        options@.os_id == option_text(options.os_id),
        options@.os_version == option_text(options.os_version),
        options@.no_checksum == options.no_checksum,
        options@.live_payload_layout == options.live_payload_layout,
        options@.quiet == options.quiet,
{
}

/// The model of what the distribution lays down.
pub proof fn law_model_of_the_distribution(distro: DistroSettings)
    ensures
        distro@.kernel_iso_path == distro.kernel_iso_path@,
        distro@.initramfs_live_iso_path == distro.initramfs_live_iso_path@,
        distro@.rootfs_iso_path == distro.rootfs_iso_path@,
        distro@.live_overlayfs_iso_path == distro.live_overlayfs_iso_path@,
        distro@.selinux_disable == distro.selinux_disable@,
{
}

/// The models of what steps are about.
pub proof fn law_models_of_step_contents(
    uki: UkiConfig,
    config: LoaderConfig,
    partition: AppendedPartition,
    entry: UkiMenuEntry,
)
    ensures
        uki@.kernel == path_bytes(uki.kernel),
        uki@.initrd == path_bytes(uki.initrd),
        uki@.cmdline == uki.cmdline@,
        uki@.output == path_bytes(uki.output),
        uki@.os_release == option_os_view(uki.os_release),
        config@.defaults == config.defaults@,
        config@.default_entry == config.default_entry@,
        config@.timeout == config.timeout,
        config@.console_mode == config.console_mode@,
        partition@.index == partition.index,
        partition@.type_code == partition.type_code@,
        partition@.path == path_bytes(partition.path),
        entry@.title == entry.title@,
        entry@.filename == entry.filename@,
        entry@.path == path_bytes(entry.path),
{
}

/// The model of a step.
pub proof fn law_model_of_a_step(step: Step)
    ensures
        match (step, step@) {
            (Step::Note(a), StepView::Note(b)) => b == a@,
            (Step::SetupStructure { root: a }, StepView::SetupStructure { root: b }) => b
                == path_bytes(a),
            (Step::CreateDir { path: a, context: c }, StepView::CreateDir { path, context }) => {
                path == path_bytes(a) && context == option_text(c)
            },
            (Step::Copy { from: a, to: b, context: c }, StepView::Copy { from, to, context }) => {
                from == path_bytes(a) && to == path_bytes(b) && context == option_text(c)
            },
            (Step::BuildUki(a), StepView::BuildUki(b)) => b == a@,
            (
                Step::WriteLoaderConf { path: a, config: c },
                StepView::WriteLoaderConf { path, config },
            ) => path == path_bytes(a) && config == c@,
            (
                Step::WriteFile { path: a, content: b, context: c },
                StepView::WriteFile { path, content, context },
            ) => path == path_bytes(a) && content == b@ && context == option_text(c),
            (
                Step::CreateFatImage { image: a, size_mb: b },
                StepView::CreateFatImage { image, size_mb },
            ) => image == path_bytes(a) && size_mb == b,
            (Step::CreateEfiDirs { image: a }, StepView::CreateEfiDirs { image }) => image
                == path_bytes(a),
            (
                Step::MakeFatDir { name: a, dir: b, context: c },
                StepView::MakeFatDir { name, dir, context },
            ) => name == a@ && dir == b@ && context == option_text(c),
            (
                Step::CopyToFat { image: a, from: b, dir: c },
                StepView::CopyToFat { image, from, dir },
            ) => image == path_bytes(a) && from == path_bytes(b) && dir == c@,
            (
                Step::CopyEntriesToFat { image: a, name: b, entries: c },
                StepView::CopyEntriesToFat { image, name, entries },
            ) => image == path_bytes(a) && name == b@ && entries == path_bytes(c),
            (Step::RemoveFile { path: a }, StepView::RemoveFile { path }) => path == path_bytes(a),
            (
                Step::RunXorriso { root: a, output: b, label: c, boot_image: d, appended: e },
                StepView::RunXorriso { root, output, label, boot_image, appended },
            ) => {
                &&& root == path_bytes(a)
                &&& output == path_bytes(b)
                &&& label == c@
                &&& boot_image == d@
                &&& appended == partitions_view(e@)
            },
            (Step::WriteChecksum { iso: a }, StepView::WriteChecksum { iso }) => iso == path_bytes(
                a,
            ),
            (Step::RemoveTree { path: a }, StepView::RemoveTree { path }) => path == path_bytes(a),
            (Step::Report { iso: a }, StepView::Report { iso }) => iso == path_bytes(a),
            _ => false,
        },
{
}

/// The model of a plan, and of UKIs that are staged.
pub proof fn law_models_of_plans(plan: Plan, staged: StagedUkis)
    ensures
        plan@.steps == steps_view(plan.steps@),
        match plan.failure {
            Some(error) => plan@.failure == Some(error@),
            None => plan@.failure is None,
        },
        staged@.steps == steps_view(staged.steps@),
        staged@.entries == entries_view(staged.entries@),
        staged@.nameless == staged.nameless,
{
}

/// The models of what comes next.
pub proof fn law_models_of_progress(
    check: InputCheck,
    validation: Validation,
    progress: Progress,
    next: Next,
)
    ensures
        check@ == (InputCheckView {
            path: path_bytes(check.path),
            probe: check.probe,
            failure: check.failure@,
        }),
        match validation {
            Validation::Ask(check) => validation@ == ValidationView::Ask(check@),
            Validation::Rejected(error) => validation@ == ValidationView::Rejected(error@),
            Validation::Accepted => validation@ == ValidationView::Accepted,
        },
        match progress {
            Progress::Ask(check) => progress@ == ProgressView::Ask(check@),
            Progress::Rejected(error) => progress@ == ProgressView::Rejected(error@),
            Progress::Ready(plan) => progress@ == ProgressView::Ready(plan@),
        },
        match next {
            Next::Perform(at) => next@ == NextView::Perform(at as int),
            Next::Stop(at) => next@ == NextView::Stop(at as int),
            Next::Done => next@ == NextView::Done,
        },
{
}

/// The model of an error.
pub proof fn law_model_of_an_error(error: IsoError)
    ensures
        match error {
            IsoError::KernelNotFound(path) => error@ == IsoErrorView::KernelNotFound(
                path_bytes(path),
            ),
            IsoError::InitrdNotFound(path) => error@ == IsoErrorView::InitrdNotFound(
                path_bytes(path),
            ),
            IsoError::RootfsNotFound(path) => error@ == IsoErrorView::RootfsNotFound(
                path_bytes(path),
            ),
            IsoError::OverlayNotFound(path) => error@ == IsoErrorView::OverlayNotFound(
                path_bytes(path),
            ),
            IsoError::OverlayNotAFile(path) => error@ == IsoErrorView::OverlayNotAFile(
                path_bytes(path),
            ),
            IsoError::UkiNotFound(path) => error@ == IsoErrorView::UkiNotFound(path_bytes(path)),
            IsoError::SystemdBootNotFound(path) => error@ == IsoErrorView::SystemdBootNotFound(
                path_bytes(path),
            ),
            IsoError::UkiWithoutFilename => error@ == IsoErrorView::UkiWithoutFilename,
            IsoError::InvalidBuildUki(text) => error@ == IsoErrorView::InvalidBuildUki(text@),
            IsoError::InvalidExtraFile(text) => error@ == IsoErrorView::InvalidExtraFile(text@),
        },
{
}

} // verus!
