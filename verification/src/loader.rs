//! The boot menu: the entries of systemd-boot and its `loader.conf`.
use crate::paths::{
    below, display, extension, join_text, option_path_bytes, path_bytes, path_extension, path_shown,
    to_text,
};
use crate::step::{push_step, steps_view, LoaderConfig, LoaderConfigView, Step, StepView};
use crate::text::{trim_end_matches, trimmed_end};
use std::path::PathBuf;
use vstd::prelude::*;
use vstd::utf8::{encode_utf8, encode_utf8_decode_utf8, encode_utf8_valid_utf8};
use vstd::utf8::{decode_utf8_encode_utf8, valid_utf8};

verus! {

/// A UKI in the boot menu.
#[derive(Debug)]
pub struct UkiMenuEntry {
    /// Title in the menu.
    pub title: String,
    /// File name of the UKI.
    pub filename: String,
    /// Where the UKI is in the ISO tree.
    pub path: PathBuf,
}

/// The model of a [`UkiMenuEntry`].
pub struct UkiMenuEntryView {
    pub title: Seq<char>,
    pub filename: Seq<char>,
    pub path: Seq<u8>,
}

impl View for UkiMenuEntry {
    type V = UkiMenuEntryView;

    open spec fn view(&self) -> UkiMenuEntryView {
        UkiMenuEntryView {
            title: self.title@,
            filename: self.filename@,
            path: path_bytes(self.path),
        }
    }
}

/// The models of menu entries, in their order.
pub open spec fn entries_view(entries: Seq<UkiMenuEntry>) -> Seq<UkiMenuEntryView> {
    Seq::new(entries.len(), |i: int| entries[i]@)
}

/// The name of the file that describes the UKI `filename` in the boot menu.
pub open spec fn entry_id_of(filename: Seq<char>) -> Seq<char> {
    trimmed_end(filename, ".efi"@) + ".conf"@
}

/// What the file of a menu entry says.
pub open spec fn entry_content_of(title: Seq<char>, filename: Seq<char>) -> Seq<char> {
    "title "@ + title + "\nlinux /EFI/Linux/"@ + filename + "\n"@
}

/// The entry that is booted by default: the first one, by the name of its file without the
/// `.conf` at the end.
pub open spec fn default_entry_of(entries: Seq<UkiMenuEntryView>) -> Seq<char> {
    trimmed_end(
        if entries.len() == 0 {
            "default.conf"@
        } else {
            entry_id_of(entries[0].filename)
        },
        ".conf"@,
    )
}

/// What `loader.conf` says for these menu entries.
pub open spec fn loader_config_of(entries: Seq<UkiMenuEntryView>) -> LoaderConfigView {
    LoaderConfigView {
        defaults: "default"@,
        default_entry: default_entry_of(entries),
        timeout: 5,
        console_mode: "max"@,
    }
}

/// The step that writes the file of one menu entry.
pub open spec fn entry_step(entries_dir: Seq<u8>, entry: UkiMenuEntryView) -> StepView {
    let path = below(entries_dir, entry_id_of(entry.filename));
    StepView::WriteFile {
        path,
        content: entry_content_of(entry.title, entry.filename),
        context: Some("writing loader entry '"@ + path_shown(path) + "'"@),
    }
}

/// The steps that write the files of the menu entries.
pub open spec fn loader_entries_steps(
    loader_dir: Seq<u8>,
    entries: Seq<UkiMenuEntryView>,
) -> Seq<StepView> {
    let entries_dir = below(loader_dir, "entries"@);
    seq![
        StepView::CreateDir {
            path: entries_dir,
            context: Some("creating loader entries dir '"@ + path_shown(entries_dir) + "'"@),
        },
    ] + entries.map_values(|entry: UkiMenuEntryView| entry_step(entries_dir, entry))
}

/// Whether a file is a menu entry, going by its extension.
pub open spec fn is_entry_extension(found: Option<Seq<u8>>) -> bool {
    found == Some(encode_utf8("conf"@))
}

/// Whether there is a menu entry at `path`, going by the extension.
pub open spec fn is_entry_path(path: Seq<u8>) -> bool {
    is_entry_extension(path_extension(path))
}

/// The step that copies the menu entry at `path` into a FAT image.
pub open spec fn entry_copy_step(image: Seq<u8>, path: Seq<u8>) -> StepView {
    StepView::CopyToFat { image, from: path, dir: "::loader/entries/"@ }
}

/// The name of the file that describes the UKI `filename` in the boot menu.
pub fn entry_id(filename: &str) -> (id: String)
    ensures
        id@ == entry_id_of(filename@),
{
    proof {
        reveal_strlit(".efi");
    }
    trim_end_matches(filename, ".efi").concat(".conf")
}

/// What the file of a menu entry says.
pub fn entry_content(title: &str, filename: &str) -> (content: String)
    ensures
        content@ == entry_content_of(title@, filename@),
{
    "title ".to_owned().concat(title).concat("\nlinux /EFI/Linux/").concat(filename).concat("\n")
}

/// What `loader.conf` says: the first entry is booted after five seconds.
pub fn loader_config(entries: &Vec<UkiMenuEntry>) -> (config: LoaderConfig)
    ensures
        config@ == loader_config_of(entries_view(entries@)),
{
    let first: String = if entries.len() == 0 {
        "default.conf".to_owned()
    } else {
        entry_id(entries[0].filename.as_str())
    };
    proof {
        reveal_strlit(".conf");
    }
    LoaderConfig {
        defaults: "default".to_owned(),
        default_entry: trim_end_matches(first.as_str(), ".conf"),
        timeout: 5,
        console_mode: "max".to_owned(),
    }
}

/// `path` between two texts.
fn quoted(head: &str, path: &PathBuf) -> (text: String)
    ensures
        text@ == head@ + path_shown(path_bytes(*path)) + "'"@,
{
    head.to_owned().concat(display(path).as_str()).concat("'")
}

/// The steps that write the files of the menu entries.
pub fn write_loader_entries(loader_dir: &PathBuf, entries: &Vec<UkiMenuEntry>) -> (steps: Vec<Step>)
    ensures
        steps_view(steps@) == loader_entries_steps(path_bytes(*loader_dir), entries_view(entries@)),
{
    let ghost all = loader_entries_steps(path_bytes(*loader_dir), entries_view(entries@));
    let mut steps: Vec<Step> = Vec::new();
    let entries_dir = join_text(loader_dir, "entries");
    push_step(
        &mut steps,
        Step::CreateDir {
            path: entries_dir.clone(),
            context: Some(quoted("creating loader entries dir '", &entries_dir)),
        },
    );
    assert(steps_view(steps@) =~= all.take(1));
    let mut at: usize = 0;
    while at < entries.len()
        invariant
            at <= entries@.len(),
            all == loader_entries_steps(path_bytes(*loader_dir), entries_view(entries@)),
            path_bytes(entries_dir) == below(path_bytes(*loader_dir), "entries"@),
            steps_view(steps@) == all.take(1 + at),
        decreases entries@.len() - at,
    {
        let entry = &entries[at];
        let path = join_text(&entries_dir, entry_id(entry.filename.as_str()).as_str());
        let context = Some(quoted("writing loader entry '", &path));
        push_step(
            &mut steps,
            Step::WriteFile {
                path,
                content: entry_content(entry.title.as_str(), entry.filename.as_str()),
                context,
            },
        );
        at = at + 1;
        assert(steps_view(steps@) =~= all.take(1 + at));
    }
    assert(all.take(all.len() as int) =~= all);
    steps
}

/// Whether a file is a menu entry, going by its extension.
pub fn is_entry(found: &Option<PathBuf>) -> (entry: bool)
    ensures
        entry == is_entry_extension(option_path_bytes(*found)),
{
    let conf: String = "conf".to_owned();
    match found {
        Some(found) => {
            proof {
                encode_utf8_decode_utf8("conf"@);
                encode_utf8_valid_utf8("conf"@);
                if valid_utf8(path_bytes(*found)) {
                    decode_utf8_encode_utf8(path_bytes(*found));
                }
            }
            match to_text(found) {
                Some(text) => text == conf,
                None => false,
            }
        },
        None => false,
    }
}

/// The step that copies what was found at `path` among the menu entries into a FAT image; there
/// is none for what is not a menu entry.
pub fn copy_entry(image: &PathBuf, path: &PathBuf) -> (step: Option<Step>)
    ensures
        step is Some == is_entry_path(path_bytes(*path)),
        step matches Some(step) ==> step@ == entry_copy_step(
            path_bytes(*image),
            path_bytes(*path),
        ),
{
    if is_entry(&extension(path)) {
        Some(
            Step::CopyToFat {
                image: image.clone(),
                from: path.clone(),
                dir: "::loader/entries/".to_owned(),
            },
        )
    } else {
        None
    }
}

} // verus!
