//! The steps that the creation of an ISO is made of.
use crate::config::{option_os_view, OsRelease, OsReleaseView};
use crate::error::{IsoError, IsoErrorView};
use crate::paths::path_bytes;
use std::path::PathBuf;
use vstd::prelude::*;

verus! {

/// A UKI to build.
#[derive(Debug)]
pub struct UkiConfig {
    /// Path to kernel image.
    pub kernel: PathBuf,
    /// Path to initramfs image.
    pub initrd: PathBuf,
    /// Kernel command line.
    pub cmdline: String,
    /// Where the UKI is written.
    pub output: PathBuf,
    /// OS release information to put into the UKI.
    pub os_release: Option<OsRelease>,
}

/// The model of a [`UkiConfig`].
pub struct UkiConfigView {
    pub kernel: Seq<u8>,
    pub initrd: Seq<u8>,
    pub cmdline: Seq<char>,
    pub output: Seq<u8>,
    pub os_release: Option<OsReleaseView>,
}

impl View for UkiConfig {
    type V = UkiConfigView;

    open spec fn view(&self) -> UkiConfigView {
        UkiConfigView {
            kernel: path_bytes(self.kernel),
            initrd: path_bytes(self.initrd),
            cmdline: self.cmdline@,
            output: path_bytes(self.output),
            os_release: option_os_view(self.os_release),
        }
    }
}

impl UkiConfig {
    /// A UKI without OS release information.
    pub fn new(kernel: &PathBuf, initrd: &PathBuf, cmdline: &str, output: &PathBuf) -> (uki: Self)
        ensures
            uki@ == (UkiConfigView {
                kernel: path_bytes(*kernel),
                initrd: path_bytes(*initrd),
                cmdline: cmdline@,
                output: path_bytes(*output),
                os_release: None,
            }),
    {
        UkiConfig {
            kernel: kernel.clone(),
            initrd: initrd.clone(),
            cmdline: cmdline.to_owned(),
            output: output.clone(),
            os_release: None,
        }
    }

    /// Set OS release information.
    pub fn with_os_release(self, name: &str, id: &str, version: &str) -> (uki: Self)
        ensures
            uki@ == (UkiConfigView {
                os_release: Some(OsReleaseView { name: name@, id: id@, version: version@ }),
                ..self@
            }),
    {
        let mut uki: Self = self;
        uki.os_release = Some(OsRelease::new(name, id, version));
        uki
    }
}

/// What `loader.conf` says.
#[derive(Debug)]
pub struct LoaderConfig {
    /// The defaults that the rest is laid over.
    pub defaults: String,
    /// The entry that is booted unless another one is chosen.
    pub default_entry: String,
    /// How long the menu is shown, in seconds.
    pub timeout: u8,
    /// The console mode.
    pub console_mode: String,
}

/// The model of a [`LoaderConfig`].
pub struct LoaderConfigView {
    pub defaults: Seq<char>,
    pub default_entry: Seq<char>,
    pub timeout: u8,
    pub console_mode: Seq<char>,
}

impl View for LoaderConfig {
    type V = LoaderConfigView;

    open spec fn view(&self) -> LoaderConfigView {
        LoaderConfigView {
            defaults: self.defaults@,
            default_entry: self.default_entry@,
            timeout: self.timeout,
            console_mode: self.console_mode@,
        }
    }
}

/// An image that is appended to the ISO as a GPT partition.
#[derive(Debug)]
pub struct AppendedPartition {
    /// Number of the partition.
    pub index: u8,
    /// Type of the partition.
    pub type_code: &'static str,
    /// The image.
    pub path: PathBuf,
}

/// The model of an [`AppendedPartition`].
pub struct AppendedPartitionView {
    pub index: u8,
    pub type_code: Seq<char>,
    pub path: Seq<u8>,
}

impl View for AppendedPartition {
    type V = AppendedPartitionView;

    open spec fn view(&self) -> AppendedPartitionView {
        AppendedPartitionView {
            index: self.index,
            type_code: self.type_code@,
            path: path_bytes(self.path),
        }
    }
}

/// The models of partitions, in their order.
pub open spec fn partitions_view(partitions: Seq<AppendedPartition>) -> Seq<
    AppendedPartitionView,
> {
    Seq::new(partitions.len(), |i: int| partitions[i]@)
}

/// One step on the way to an ISO. A step that fails ends the creation, where nothing else is
/// said; a `context` is put before the cause of the failure.
#[derive(Debug)]
pub enum Step {
    /// Tell the user this.
    Note(String),
    /// Create the directories of an ISO below `root`.
    SetupStructure { root: PathBuf },
    /// Create a directory and those above it.
    CreateDir { path: PathBuf, context: Option<String> },
    /// Copy a file.
    Copy { from: PathBuf, to: PathBuf, context: Option<String> },
    /// Build a UKI.
    BuildUki(UkiConfig),
    /// Write a `loader.conf`.
    WriteLoaderConf { path: PathBuf, config: LoaderConfig },
    /// Write a file.
    WriteFile { path: PathBuf, content: String, context: Option<String> },
    /// Create a FAT16 image.
    CreateFatImage { image: PathBuf, size_mb: u32 },
    /// Create the EFI directories in a FAT image.
    CreateEfiDirs { image: PathBuf },
    /// Run `mmd` on the image that `name` spells out to create a directory in it; what `mmd`
    /// then says of its success is ignored.
    MakeFatDir { name: String, dir: String, context: Option<String> },
    /// Copy a file into a directory of a FAT image.
    CopyToFat { image: PathBuf, from: PathBuf, dir: String },
    /// Copy the loader entries in the directory `entries` into a FAT image, whose path `name`
    /// spells out: [`crate::boot::entries_to_fat`] says by which steps.
    CopyEntriesToFat { image: PathBuf, name: String, entries: PathBuf },
    /// Remove a file; a failure is ignored.
    RemoveFile { path: PathBuf },
    /// Create an ISO from the tree below `root`, with `boot_image` in it to boot from.
    RunXorriso {
        root: PathBuf,
        output: PathBuf,
        label: String,
        boot_image: String,
        appended: Vec<AppendedPartition>,
    },
    /// Generate the checksum of an ISO.
    WriteChecksum { iso: PathBuf },
    /// Remove a directory and all that is in it; a failure is ignored.
    RemoveTree { path: PathBuf },
    /// Tell the user where the ISO is and, where it can be found out, how large it is.
    Report { iso: PathBuf },
}

/// The model of a [`Step`].
pub enum StepView {
    Note(Seq<char>),
    SetupStructure { root: Seq<u8> },
    CreateDir { path: Seq<u8>, context: Option<Seq<char>> },
    Copy { from: Seq<u8>, to: Seq<u8>, context: Option<Seq<char>> },
    BuildUki(UkiConfigView),
    WriteLoaderConf { path: Seq<u8>, config: LoaderConfigView },
    WriteFile { path: Seq<u8>, content: Seq<char>, context: Option<Seq<char>> },
    CreateFatImage { image: Seq<u8>, size_mb: u32 },
    CreateEfiDirs { image: Seq<u8> },
    MakeFatDir { name: Seq<char>, dir: Seq<char>, context: Option<Seq<char>> },
    CopyToFat { image: Seq<u8>, from: Seq<u8>, dir: Seq<char> },
    CopyEntriesToFat { image: Seq<u8>, name: Seq<char>, entries: Seq<u8> },
    RemoveFile { path: Seq<u8> },
    RunXorriso {
        root: Seq<u8>,
        output: Seq<u8>,
        label: Seq<char>,
        boot_image: Seq<char>,
        appended: Seq<AppendedPartitionView>,
    },
    WriteChecksum { iso: Seq<u8> },
    RemoveTree { path: Seq<u8> },
    Report { iso: Seq<u8> },
}

/// The contents of a text that may be absent.
pub open spec fn option_text(text: Option<String>) -> Option<Seq<char>> {
    match text {
        Some(text) => Some(text@),
        None => None,
    }
}

impl View for Step {
    type V = StepView;

    open spec fn view(&self) -> StepView {
        match *self {
            Step::Note(text) => StepView::Note(text@),
            Step::SetupStructure { root } => StepView::SetupStructure { root: path_bytes(root) },
            Step::CreateDir { path, context } => StepView::CreateDir {
                path: path_bytes(path),
                context: option_text(context),
            },
            Step::Copy { from, to, context } => StepView::Copy {
                from: path_bytes(from),
                to: path_bytes(to),
                context: option_text(context),
            },
            Step::BuildUki(uki) => StepView::BuildUki(uki@),
            Step::WriteLoaderConf { path, config } => StepView::WriteLoaderConf {
                path: path_bytes(path),
                config: config@,
            },
            Step::WriteFile { path, content, context } => StepView::WriteFile {
                path: path_bytes(path),
                content: content@,
                context: option_text(context),
            },
            Step::CreateFatImage { image, size_mb } => StepView::CreateFatImage {
                image: path_bytes(image),
                size_mb,
            },
            Step::CreateEfiDirs { image } => StepView::CreateEfiDirs { image: path_bytes(image) },
            Step::MakeFatDir { name, dir, context } => StepView::MakeFatDir {
                name: name@,
                dir: dir@,
                context: option_text(context),
            },
            Step::CopyToFat { image, from, dir } => StepView::CopyToFat {
                image: path_bytes(image),
                from: path_bytes(from),
                dir: dir@,
            },
            Step::CopyEntriesToFat { image, name, entries } => StepView::CopyEntriesToFat {
                image: path_bytes(image),
                name: name@,
                entries: path_bytes(entries),
            },
            Step::RemoveFile { path } => StepView::RemoveFile { path: path_bytes(path) },
            Step::RunXorriso { root, output, label, boot_image, appended } => StepView::RunXorriso {
                root: path_bytes(root),
                output: path_bytes(output),
                label: label@,
                boot_image: boot_image@,
                appended: partitions_view(appended@),
            },
            Step::WriteChecksum { iso } => StepView::WriteChecksum { iso: path_bytes(iso) },
            Step::RemoveTree { path } => StepView::RemoveTree { path: path_bytes(path) },
            Step::Report { iso } => StepView::Report { iso: path_bytes(iso) },
        }
    }
}

/// The models of steps, in their order.
pub open spec fn steps_view(steps: Seq<Step>) -> Seq<StepView> {
    Seq::new(steps.len(), |i: int| steps[i]@)
}

/// Puts a step behind others.
pub(crate) fn push_step(steps: &mut Vec<Step>, step: Step)
    ensures
        steps_view(final(steps)@) == steps_view(old(steps)@).push(step@),
{
    steps.push(step);
    assert(steps_view(steps@) =~= steps_view(old(steps)@).push(step@));
}

/// Puts steps behind others.
pub(crate) fn append_steps(steps: &mut Vec<Step>, mut more: Vec<Step>)
    ensures
        steps_view(final(steps)@) == steps_view(old(steps)@) + steps_view(more@),
{
    let ghost added = more@;
    steps.append(&mut more);
    assert(steps_view(steps@) =~= steps_view(old(steps)@) + steps_view(added));
}

/// A sequence of steps, and the error that is due when they are done.
#[derive(Debug)]
pub struct Plan {
    /// What to do, in this order.
    pub steps: Vec<Step>,
    /// Why the creation ends with an error after these steps; absent where it succeeds.
    pub failure: Option<IsoError>,
}

/// The model of a [`Plan`].
#[verifier::ext_equal]
pub struct PlanView {
    pub steps: Seq<StepView>,
    pub failure: Option<IsoErrorView>,
}

impl View for Plan {
    type V = PlanView;

    open spec fn view(&self) -> PlanView {
        PlanView {
            steps: steps_view(self.steps@),
            failure: match self.failure {
                Some(error) => Some(error@),
                None => None,
            },
        }
    }
}

impl StepView {
    /// Whether the step does nothing but tell the user something.
    pub open spec fn is_talk(self) -> bool {
        self is Note || self is Report
    }

    /// Whether the creation of an ISO ends with this step, going by whether it failed: it does
    /// where the step failed, except for one that only cleans up.
    pub open spec fn ends_creation(self, failed: bool) -> bool {
        failed && !(self is RemoveFile || self is RemoveTree)
    }
}

/// The first of the first `count` steps that the creation ends with, going by which of them
/// failed.
pub open spec fn first_end(steps: Seq<StepView>, failed: Seq<bool>, count: int) -> Option<int>
    decreases count,
{
    if count <= 0 {
        None
    } else {
        match first_end(steps, failed, count - 1) {
            Some(at) => Some(at),
            None => if steps[count - 1].ends_creation(failed[count - 1]) {
                Some(count - 1)
            } else {
                None
            },
        }
    }
}

/// What is to be done about a plan.
#[derive(Debug, Clone, Copy, PartialEq, Eq, Structural)]
pub enum Next {
    /// Perform the step with this number.
    Perform(usize),
    /// End with the failure of the step with this number.
    Stop(usize),
    /// Every step is done; [`Plan::outcome`] says what has come of it.
    Done,
}

/// The model of a [`Next`].
pub enum NextView {
    Perform(int),
    Stop(int),
    Done,
}

impl View for Next {
    type V = NextView;

    open spec fn view(&self) -> NextView {
        match *self {
            Next::Perform(at) => NextView::Perform(at as int),
            Next::Stop(at) => NextView::Stop(at as int),
            Next::Done => NextView::Done,
        }
    }
}

/// What is to be done about a plan with these steps, of which the first ones were performed and
/// failed or not.
pub open spec fn next_of(steps: Seq<StepView>, failed: Seq<bool>) -> NextView {
    let count = if failed.len() < steps.len() {
        failed.len()
    } else {
        steps.len()
    };
    match first_end(steps, failed, count as int) {
        Some(at) => NextView::Stop(at),
        None => if failed.len() < steps.len() {
            NextView::Perform(failed.len() as int)
        } else {
            NextView::Done
        },
    }
}

impl Plan {
    /// What the creation of the ISO at `output` comes to when every step is done: the ISO, or
    /// the error that is then due.
    pub fn outcome(self, output: PathBuf) -> (made: Result<PathBuf, IsoError>)
        ensures
            match made {
                Ok(path) => self@.failure is None && path_bytes(path) == path_bytes(output),
                Err(error) => self@.failure == Some(error@),
            },
    {
        match self.failure {
            Some(error) => Err(error),
            None => Ok(output),
        }
    }

    /// What is to be done next. `failed` tells of the steps that were performed so far, in their
    /// order, whether each of them failed.
    pub fn next(&self, failed: &Vec<bool>) -> (next: Next)
        ensures
            next@ == next_of(self@.steps, failed@),
    {
        let ghost steps = self@.steps;
        let count: usize = if failed.len() < self.steps.len() {
            failed.len()
        } else {
            self.steps.len()
        };
        let mut at: usize = 0;
        while at < count
            invariant
                at <= count,
                count == if failed@.len() < self.steps@.len() {
                    failed@.len()
                } else {
                    self.steps@.len()
                },
                steps == self@.steps,
                first_end(steps, failed@, at as int) is None,
            decreases count - at,
        {
            if self.steps[at].ends_creation(failed[at]) {
                proof {
                    assert(first_end(steps, failed@, at + 1) == Some(at as int));
                    lemma_first_end_stays(steps, failed@, at + 1, count as int);
                }
                return Next::Stop(at);
            }
            at = at + 1;
        }
        if failed.len() < self.steps.len() {
            Next::Perform(failed.len())
        } else {
            Next::Done
        }
    }
}

/// The first step that the creation ends with does not change with the steps behind it.
pub(crate) proof fn lemma_first_end_stays(
    steps: Seq<StepView>,
    failed: Seq<bool>,
    few: int,
    many: int,
)
    requires
        few <= many,
        first_end(steps, failed, few) is Some,
    ensures
        first_end(steps, failed, many) == first_end(steps, failed, few),
    decreases many - few,
{
    if few < many {
        lemma_first_end_stays(steps, failed, few, many - 1);
    }
}

impl Step {
    /// Whether the creation of an ISO ends with this step, going by whether it failed: it does
    /// where the step failed, except for one that only cleans up.
    pub fn ends_creation(&self, failed: bool) -> (ends: bool)
        ensures
            ends == (failed && !(self@ is RemoveFile || self@ is RemoveTree)),
    {
        match self {
            Step::RemoveFile { .. } => false,
            Step::RemoveTree { .. } => false,
            _ => failed,
        }
    }

    /// Whether the step is performed: in quiet mode those are left out that do nothing but tell
    /// the user something.
    pub fn is_performed(&self, quiet: bool) -> (performed: bool)
        ensures
            performed == !(quiet && self@.is_talk()),
    {
        match self {
            Step::Note(_) => !quiet,
            Step::Report { .. } => !quiet,
            _ => true,
        }
    }
}

} // verus!
