//! The creation of an ISO, from the validation of the inputs to the finished image.
use crate::boot::{setup_uefi_boot, uefi_boot_plan};
use crate::checks::{
    input_checks_view, validate_inputs, verdict, InputCheck, InputCheckView, Validation,
    ValidationView,
};
use crate::config::{IsoConfig, IsoConfigView, LivePayloadLayout};
use crate::distro::{DistroSettings, DistroSettingsView};
use crate::error::{IsoError, IsoErrorView};
use crate::paths::{
    below, display, join_text, option_path_bytes, parent, path_bytes, path_from, path_parent,
    path_line, path_shown, show_path,
};
use crate::step::{
    append_steps, partitions_view, push_step, steps_view, AppendedPartition,
    AppendedPartitionView, Plan, PlanView, Step, StepView,
};
use crate::text::{decimal, decimal_digits, push_line, texts_view};
use std::path::PathBuf;
use vstd::prelude::*;
use vstd::utf8::encode_utf8;

verus! {

/// How far the creation of an ISO has come.
#[derive(Debug)]
pub enum Progress {
    /// This question has to be answered next.
    Ask(InputCheck),
    /// An input is missing; nothing is done.
    Rejected(IsoError),
    /// This is what to do.
    Ready(Plan),
}

/// The model of [`Progress`].
pub enum ProgressView {
    Ask(InputCheckView),
    Rejected(IsoErrorView),
    Ready(PlanView),
}

impl View for Progress {
    type V = ProgressView;

    open spec fn view(&self) -> ProgressView {
        match *self {
            Progress::Ask(check) => ProgressView::Ask(check@),
            Progress::Rejected(error) => ProgressView::Rejected(error@),
            Progress::Ready(plan) => ProgressView::Ready(plan@),
        }
    }
}

/// The step that copies a file of the ISO into place.
pub open spec fn core_copy(from: Seq<u8>, to: Seq<u8>, context: Seq<char>) -> StepView {
    StepView::Copy { from, to, context: Some(context) }
}

/// The steps that place the live payloads in the ISO filesystem, where they belong there.
pub open spec fn payload_steps(
    config: IsoConfigView,
    distro: DistroSettingsView,
    iso_root: Seq<u8>,
) -> Seq<StepView> {
    match config.live_payload_layout {
        LivePayloadLayout::IsoFiles => seq![
            StepView::Note("Copying rootfs..."@),
            core_copy(
                config.rootfs,
                below(iso_root, distro.rootfs_iso_path),
                "Failed to copy rootfs"@,
            ),
        ] + match config.overlay_image {
            Some(overlay_image) => seq![
                StepView::Note("Copying live overlay image..."@),
                core_copy(
                    overlay_image,
                    below(iso_root, distro.live_overlayfs_iso_path),
                    "Failed to copy live overlay image"@,
                ),
            ],
            None => seq![],
        },
        LivePayloadLayout::AppendedPartitions => seq![
            StepView::Note(
                "Live payload layout: appended partitions (rootfs/overlay not copied into ISO filesystem)"@,
            ),
        ],
    }
}

/// The steps that copy kernel, initramfs and live payloads to the ISO structure.
pub open spec fn core_files_steps(
    config: IsoConfigView,
    distro: DistroSettingsView,
    iso_root: Seq<u8>,
) -> Seq<StepView> {
    seq![
        StepView::Note("Copying boot files..."@),
        core_copy(
            config.kernel,
            below(iso_root, distro.kernel_iso_path),
            "Failed to copy kernel"@,
        ),
        core_copy(
            config.initrd,
            below(iso_root, distro.initramfs_live_iso_path),
            "Failed to copy initramfs"@,
        ),
    ] + payload_steps(config, distro, iso_root)
}

/// The steps that copy one extra file to `to`, whose directory is `dir`.
pub open spec fn extra_file_steps_to(
    file: (Seq<u8>, Seq<char>),
    to: Seq<u8>,
    dir: Option<Seq<u8>>,
) -> Seq<StepView> {
    let made = match dir {
        Some(dir) => seq![StepView::CreateDir { path: dir, context: None }],
        None => seq![],
    };
    made.push(core_copy(file.0, to, "Failed to copy "@ + path_shown(file.0) + " to "@ + file.1))
}

/// A destination on the ISO as a path relative to the ISO root: the slashes that it begins with
/// stand for that root. The rest of it stays as it is.
pub open spec fn in_tree(dst: Seq<char>) -> Seq<char>
    decreases dst.len(),
{
    if dst.len() > 0 && dst[0] == '/' {
        in_tree(dst.drop_first())
    } else {
        dst
    }
}

/// The steps that copy one extra file.
pub open spec fn extra_file_steps(iso_root: Seq<u8>, file: (Seq<u8>, Seq<char>)) -> Seq<StepView> {
    let to = below(iso_root, in_tree(file.1));
    extra_file_steps_to(file, to, path_parent(to))
}

/// The steps that copy extra files, one after the other.
pub open spec fn extra_files_steps(
    iso_root: Seq<u8>,
    files: Seq<(Seq<u8>, Seq<char>)>,
) -> Seq<StepView>
    decreases files.len(),
{
    if files.len() == 0 {
        seq![]
    } else {
        extra_files_steps(iso_root, files.drop_last()) + extra_file_steps(iso_root, files.last())
    }
}

/// The type of a partition with a Linux filesystem.
pub const LINUX_PARTITION: &'static str = "0x83";

/// The partitions that are appended to the ISO: rootfs and overlay image, or none.
pub open spec fn appended_partitions_of(config: IsoConfigView) -> Seq<AppendedPartitionView> {
    match config.live_payload_layout {
        LivePayloadLayout::IsoFiles => seq![],
        LivePayloadLayout::AppendedPartitions => seq![
            AppendedPartitionView {
                index: 2,
                type_code: LINUX_PARTITION@,
                path: config.rootfs,
            },
        ] + match config.overlay_image {
            Some(overlay_image) => seq![
                AppendedPartitionView {
                    index: 3,
                    type_code: LINUX_PARTITION@,
                    path: overlay_image,
                },
            ],
            None => seq![],
        },
    }
}

/// The steps from the complete ISO tree to the ISO.
pub open spec fn final_steps(config: IsoConfigView, iso_root: Seq<u8>) -> Seq<StepView> {
    seq![
        StepView::Note("Creating ISO with xorriso..."@),
        StepView::RunXorriso {
            root: iso_root,
            output: config.output,
            label: config.label,
            boot_image: "efiboot.img"@,
            appended: appended_partitions_of(config),
        },
    ] + (if config.generate_checksum {
        seq![
            StepView::Note("Generating checksum..."@),
            StepView::WriteChecksum { iso: config.output },
        ]
    } else {
        seq![]
    }) + seq![
        StepView::RemoveTree { path: iso_root },
        StepView::Report { iso: config.output },
    ]
}

/// The root of the ISO tree.
pub open spec fn iso_root_in(output_dir: Seq<u8>) -> Seq<u8> {
    below(output_dir, "iso-root"@)
}

/// The steps that create the ISO structure.
pub open spec fn first_steps(iso_root: Seq<u8>) -> Seq<StepView> {
    seq![
        StepView::Note("Setting up ISO structure..."@),
        StepView::SetupStructure { root: iso_root },
    ]
}

/// How an ISO is created with `output_dir` to work in.
pub open spec fn iso_plan_in(
    config: IsoConfigView,
    distro: DistroSettingsView,
    output_dir: Seq<u8>,
) -> PlanView {
    let iso_root = iso_root_in(output_dir);
    let boot = uefi_boot_plan(config, distro, iso_root, output_dir);
    let head = first_steps(iso_root) + core_files_steps(config, distro, iso_root) + boot.steps;
    if boot.failure is Some {
        PlanView { steps: head, failure: boot.failure }
    } else {
        PlanView {
            steps: head + extra_files_steps(iso_root, config.extra_files) + final_steps(
                config,
                iso_root,
            ),
            failure: None,
        }
    }
}

/// The directory to work in: the one that the ISO goes to, or else the current one.
pub open spec fn work_dir_of(parent: Option<Seq<u8>>) -> Seq<u8> {
    match parent {
        Some(dir) => dir,
        None => encode_utf8("."@),
    }
}

/// The directory that an ISO is created in.
pub open spec fn output_dir_of(config: IsoConfigView) -> Seq<u8> {
    work_dir_of(path_parent(config.output))
}

/// How an ISO is created.
pub open spec fn iso_plan(config: IsoConfigView, distro: DistroSettingsView) -> PlanView {
    iso_plan_in(config, distro, output_dir_of(config))
}

/// How far the creation of an ISO has come with these answers.
pub open spec fn iso_progress(
    config: IsoConfigView,
    distro: DistroSettingsView,
    answers: Seq<bool>,
) -> ProgressView {
    match verdict(input_checks_view(config), answers) {
        ValidationView::Ask(check) => ProgressView::Ask(check),
        ValidationView::Rejected(error) => ProgressView::Rejected(error),
        ValidationView::Accepted => ProgressView::Ready(iso_plan(config, distro)),
    }
}

/// What the user is told when an ISO of this size, where it is known, is created.
pub open spec fn report_of(iso: Seq<u8>, size: Option<u64>) -> Seq<Seq<char>> {
    let created = seq![path_line("\nISO created: "@, iso)];
    match size {
        Some(size) => created.push(
            "  Size: "@ + decimal_digits((size / 1024 / 1024) as nat) + " MB"@,
        ),
        None => created,
    }
}

/// The step that copies a file of the ISO into place.
fn copy_file(from: &PathBuf, to: PathBuf, context: String) -> (step: Step)
    ensures
        step@ == core_copy(path_bytes(*from), path_bytes(to), context@),
{
    Step::Copy { from: from.clone(), to, context: Some(context) }
}

/// Copy kernel, initramfs, rootfs to ISO structure.
pub fn copy_core_files(
    config: &IsoConfig,
    distro: &DistroSettings,
    iso_root: &PathBuf,
) -> (steps: Vec<Step>)
    ensures
        steps_view(steps@) == core_files_steps(config@, distro@, path_bytes(*iso_root)),
{
    let mut steps: Vec<Step> = Vec::new();
    push_step(&mut steps, Step::Note("Copying boot files...".to_owned()));
    push_step(
        &mut steps,
        copy_file(
            &config.kernel,
            join_text(iso_root, distro.kernel_iso_path.as_str()),
            "Failed to copy kernel".to_owned(),
        ),
    );
    push_step(
        &mut steps,
        copy_file(
            &config.initrd,
            join_text(iso_root, distro.initramfs_live_iso_path.as_str()),
            "Failed to copy initramfs".to_owned(),
        ),
    );
    if config.live_payload_layout == LivePayloadLayout::IsoFiles {
        push_step(&mut steps, Step::Note("Copying rootfs...".to_owned()));
        push_step(
            &mut steps,
            copy_file(
                &config.rootfs,
                join_text(iso_root, distro.rootfs_iso_path.as_str()),
                "Failed to copy rootfs".to_owned(),
            ),
        );
        if let Some(overlay_image) = &config.overlay_image {
            push_step(&mut steps, Step::Note("Copying live overlay image...".to_owned()));
            push_step(
                &mut steps,
                copy_file(
                    overlay_image,
                    join_text(iso_root, distro.live_overlayfs_iso_path.as_str()),
                    "Failed to copy live overlay image".to_owned(),
                ),
            );
        }
    } else {
        push_step(
            &mut steps,
            Step::Note(
                "Live payload layout: appended partitions (rootfs/overlay not copied into ISO filesystem)".to_owned(),
            ),
        );
    }
    assert(steps_view(steps@) =~= core_files_steps(config@, distro@, path_bytes(*iso_root)));
    steps
}

/// A destination on the ISO as a path relative to the ISO root.
pub fn in_tree_text(dst: &str) -> (out: String)
    ensures
        out@ == in_tree(dst@),
{
    let mut rest: &str = dst;
    while !rest.is_empty() && rest.get_char(0) == '/'
        invariant
            in_tree(rest@) == in_tree(dst@),
        decreases rest@.len(),
    {
        let len: usize = rest.unicode_len();
        assert(rest@.subrange(1, len as int) == rest@.drop_first());
        rest = rest.substring_char(1, len);
    }
    rest.to_owned()
}

/// The steps that copy one extra file to `to`, whose directory is `dir`.
pub fn place_extra_file(
    source: &PathBuf,
    dst: &str,
    to: PathBuf,
    dir: Option<PathBuf>,
) -> (steps: Vec<Step>)
    ensures
        steps_view(steps@) == extra_file_steps_to(
            (path_bytes(*source), dst@),
            path_bytes(to),
            option_path_bytes(dir),
        ),
{
    let ghost dir_bytes = option_path_bytes(dir);
    let mut steps: Vec<Step> = Vec::new();
    if let Some(dir) = dir {
        push_step(&mut steps, Step::CreateDir { path: dir, context: None });
    }
    let context = "Failed to copy ".to_owned().concat(display(source).as_str()).concat(
        " to ",
    ).concat(dst);
    push_step(&mut steps, copy_file(source, to, context));
    assert(steps_view(steps@) =~= extra_file_steps_to(
        (path_bytes(*source), dst@),
        path_bytes(to),
        dir_bytes,
    ));
    steps
}

/// Copy extra files to the ISO structure.
pub fn copy_extra_files(config: &IsoConfig, iso_root: &PathBuf) -> (steps: Vec<Step>)
    ensures
        steps_view(steps@) == extra_files_steps(path_bytes(*iso_root), config@.extra_files),
{
    let ghost root = path_bytes(*iso_root);
    let ghost files = config@.extra_files;
    let mut steps: Vec<Step> = Vec::new();
    assert(files.take(0) =~= seq![]);
    assert(steps_view(steps@) =~= extra_files_steps(root, files.take(0)));
    let mut at: usize = 0;
    while at < config.extra_files.len()
        invariant
            at <= config.extra_files@.len(),
            files == config@.extra_files,
            root == path_bytes(*iso_root),
            steps_view(steps@) == extra_files_steps(root, files.take(at as int)),
        decreases config.extra_files@.len() - at,
    {
        let file = &config.extra_files[at];
        let to = join_text(iso_root, in_tree_text(file.1.as_str()).as_str());
        let dir = parent(&to);
        append_steps(&mut steps, place_extra_file(&file.0, file.1.as_str(), to, dir));
        proof {
            let taken = files.take(at + 1);
            assert(taken.drop_last() =~= files.take(at as int));
            assert(taken.last() == (path_bytes(file.0), file.1@));
        }
        at = at + 1;
    }
    assert(files.take(at as int) =~= files);
    steps
}

/// The partitions that are appended to the ISO: rootfs and overlay image, or none.
pub fn appended_partitions(config: &IsoConfig) -> (appended: Vec<AppendedPartition>)
    ensures
        partitions_view(appended@) == appended_partitions_of(config@),
{
    let mut appended: Vec<AppendedPartition> = Vec::new();
    if config.live_payload_layout == LivePayloadLayout::AppendedPartitions {
        appended.push(
            AppendedPartition {
                index: 2,
                type_code: LINUX_PARTITION,
                path: config.rootfs.clone(),
            },
        );
        if let Some(overlay_image) = &config.overlay_image {
            appended.push(
                AppendedPartition {
                    index: 3,
                    type_code: LINUX_PARTITION,
                    path: overlay_image.clone(),
                },
            );
        }
    }
    assert(partitions_view(appended@) =~= appended_partitions_of(config@));
    appended
}

/// The directory to work in: the one that the ISO goes to, or else the current one.
pub fn work_dir(parent: Option<PathBuf>) -> (dir: PathBuf)
    ensures
        path_bytes(dir) == work_dir_of(option_path_bytes(parent)),
{
    match parent {
        Some(dir) => dir,
        None => path_from("."),
    }
}

/// The steps from the complete ISO tree to the ISO.
pub fn finish_iso(config: &IsoConfig, iso_root: &PathBuf) -> (steps: Vec<Step>)
    ensures
        steps_view(steps@) == final_steps(config@, path_bytes(*iso_root)),
{
    let mut steps: Vec<Step> = Vec::new();
    push_step(&mut steps, Step::Note("Creating ISO with xorriso...".to_owned()));
    push_step(
        &mut steps,
        Step::RunXorriso {
            root: iso_root.clone(),
            output: config.output.clone(),
            label: config.label.clone(),
            boot_image: "efiboot.img".to_owned(),
            appended: appended_partitions(config),
        },
    );
    if config.generate_checksum {
        push_step(&mut steps, Step::Note("Generating checksum...".to_owned()));
        push_step(&mut steps, Step::WriteChecksum { iso: config.output.clone() });
    }
    push_step(&mut steps, Step::RemoveTree { path: iso_root.clone() });
    push_step(&mut steps, Step::Report { iso: config.output.clone() });
    assert(steps_view(steps@) =~= final_steps(config@, path_bytes(*iso_root)));
    steps
}

/// The steps that create the ISO structure.
fn start_iso(iso_root: &PathBuf) -> (steps: Vec<Step>)
    ensures
        steps_view(steps@) == first_steps(path_bytes(*iso_root)),
{
    let mut steps: Vec<Step> = Vec::new();
    push_step(&mut steps, Step::Note("Setting up ISO structure...".to_owned()));
    push_step(&mut steps, Step::SetupStructure { root: iso_root.clone() });
    assert(steps_view(steps@) =~= first_steps(path_bytes(*iso_root)));
    steps
}

/// How an ISO is created with `output_dir` to work in.
pub fn plan_iso(config: &IsoConfig, distro: &DistroSettings, output_dir: &PathBuf) -> (plan: Plan)
    ensures
        plan@ == iso_plan_in(config@, distro@, path_bytes(*output_dir)),
{
    let iso_root = join_text(output_dir, "iso-root");
    let mut steps = start_iso(&iso_root);
    append_steps(&mut steps, copy_core_files(config, distro, &iso_root));
    let boot = setup_uefi_boot(config, distro, &iso_root, output_dir);
    append_steps(&mut steps, boot.steps);
    if let Some(error) = boot.failure {
        return Plan { steps, failure: Some(error) };
    }
    append_steps(&mut steps, copy_extra_files(config, &iso_root));
    append_steps(&mut steps, finish_iso(config, &iso_root));
    Plan { steps, failure: None }
}

/// What the user is told when an ISO is created; the size, where it is known, is in bytes.
pub fn report(iso: &PathBuf, size: Option<u64>) -> (lines: Vec<String>)
    ensures
        texts_view(lines@) == report_of(path_bytes(*iso), size),
{
    let mut lines: Vec<String> = Vec::new();
    push_line(&mut lines, show_path("\nISO created: ", iso));
    if let Some(size) = size {
        let megabytes = decimal(size / 1024 / 1024);
        push_line(&mut lines, "  Size: ".to_owned().concat(megabytes.as_str()).concat(" MB"));
    }
    assert(texts_view(lines@) =~= report_of(path_bytes(*iso), size));
    lines
}

/// Create a bootable ISO from the given configuration.
///
/// # Process
///
/// 1. Validate inputs exist
/// 2. Create ISO directory structure (boot/, live/, EFI/BOOT/)
/// 3. Copy kernel, initramfs, rootfs to ISO
/// 4. Build or copy UKIs
/// 5. Set up systemd-boot
/// 6. Create EFI boot image
/// 7. Run xorriso to create final ISO
/// 8. Generate checksum (optional)
///
/// `answers` holds the answers to the questions that were asked so far: the first call takes
/// none, and each [`Progress::Ask`] wants the next one. The steps of the plan that comes in the
/// end are to be performed in their order.
pub fn create_iso(
    config: &IsoConfig,
    distro: &DistroSettings,
    answers: &Vec<bool>,
) -> (progress: Progress)
    ensures
        progress@ == iso_progress(config@, distro@, answers@),
{
    match validate_inputs(config, answers) {
        Validation::Ask(check) => Progress::Ask(check),
        Validation::Rejected(error) => Progress::Rejected(error),
        Validation::Accepted => {
            let output_dir = work_dir(parent(&config.output));
            Progress::Ready(plan_iso(config, distro, &output_dir))
        },
    }
}

} // verus!
