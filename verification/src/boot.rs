//! UEFI boot: systemd-boot, the UKIs and the boot image that holds them.
use crate::checks::SYSTEMD_BOOT;
use crate::config::{IsoConfig, IsoConfigView};
use crate::distro::{DistroSettings, DistroSettingsView};
use crate::error::{IsoError, IsoErrorView};
use crate::loader::{
    copy_entry, entries_view, entry_copy_step, is_entry_path, loader_config, loader_config_of,
    loader_entries_steps, write_loader_entries, UkiMenuEntry, UkiMenuEntryView,
};
use crate::paths::{
    below, join_text, path_bytes, path_from, path_lossy, paths_view, to_string_lossy,
};
use crate::step::{append_steps, push_step, steps_view, Plan, PlanView, Step, StepView};
use crate::uki::{stage_ukis, staged_all};
use std::path::PathBuf;
use vstd::prelude::*;
use vstd::utf8::encode_utf8;

verus! {

/// Default EFI boot image size in MB.
/// UKIs require ~50MB each. With 3 UKIs + systemd-boot, need ~200MB.
pub const DEFAULT_EFIBOOT_SIZE_MB: u32 = 200;

/// The step that creates the directory `dir` in the FAT image that `name` spells out.
pub open spec fn fat_dir_step(name: Seq<char>, dir: Seq<char>) -> StepView {
    StepView::MakeFatDir { name, dir, context: Some("mmd failed to create "@ + dir) }
}

/// The step that copies a UKI into a FAT image.
pub open spec fn fat_uki_step(image: Seq<u8>, entry: UkiMenuEntryView) -> StepView {
    StepView::CopyToFat { image, from: entry.path, dir: "::EFI/Linux/"@ }
}

/// The steps that create the EFI boot image before the UKIs go into it.
pub open spec fn image_head_steps(iso_root: Seq<u8>, image: Seq<u8>) -> Seq<StepView> {
    seq![
        StepView::Note("Creating EFI boot image..."@),
        StepView::CreateFatImage { image, size_mb: DEFAULT_EFIBOOT_SIZE_MB },
        StepView::CreateEfiDirs { image },
        fat_dir_step(path_lossy(image), "::EFI/Linux"@),
        StepView::CopyToFat {
            image,
            from: below(iso_root, "EFI/BOOT/BOOTX64.EFI"@),
            dir: "::EFI/BOOT/"@,
        },
    ]
}

/// The steps that complete the EFI boot image when the UKIs are in it.
pub open spec fn image_tail_steps(iso_root: Seq<u8>, image: Seq<u8>) -> Seq<StepView> {
    seq![
        fat_dir_step(path_lossy(image), "::loader"@),
        StepView::CopyToFat {
            image,
            from: below(iso_root, "loader/loader.conf"@),
            dir: "::loader/"@,
        },
        StepView::CopyEntriesToFat {
            image,
            name: path_lossy(image),
            entries: below(iso_root, "loader/entries"@),
        },
        StepView::Copy { from: image, to: below(iso_root, "efiboot.img"@), context: None },
        StepView::RemoveFile { path: image },
    ]
}

/// The steps that create the EFI boot image with systemd-boot and UKIs.
pub open spec fn efi_boot_image_steps(
    iso_root: Seq<u8>,
    output_dir: Seq<u8>,
    entries: Seq<UkiMenuEntryView>,
) -> Seq<StepView> {
    let image = below(output_dir, "efiboot.img"@);
    image_head_steps(iso_root, image) + entries.map_values(
        |entry: UkiMenuEntryView| fat_uki_step(image, entry),
    ) + image_tail_steps(iso_root, image)
}

/// The steps that a [`Step::CopyEntriesToFat`] stands for. `found` is what the directory of the
/// menu entries holds; without such a directory there is nothing to do. Else a directory for the
/// entries is made in the image, and each entry that was found is copied there, in that order.
pub open spec fn entries_to_fat_steps(
    image: Seq<u8>,
    name: Seq<char>,
    found: Option<Seq<Seq<u8>>>,
) -> Seq<StepView> {
    match found {
        Some(found) => seq![fat_dir_step(name, "::loader/entries"@)] + found.filter(
            |path: Seq<u8>| is_entry_path(path),
        ).map_values(|path: Seq<u8>| entry_copy_step(image, path)),
        None => seq![],
    }
}

/// Whether there is a menu entry at `path` among what was found.
pub open spec fn is_found_entry(found: Option<Seq<Seq<u8>>>, path: Seq<u8>) -> bool {
    found matches Some(found) && found.contains(path) && is_entry_path(path)
}

/// The steps with those in place of each [`Step::CopyEntriesToFat`] that it stands for.
pub open spec fn spelled_out(steps: Seq<StepView>, found: Option<Seq<Seq<u8>>>) -> Seq<StepView>
    decreases steps.len(),
{
    if steps.len() == 0 {
        seq![]
    } else {
        spelled_out(steps.drop_last(), found) + match steps.last() {
            StepView::CopyEntriesToFat { image, name, .. } => entries_to_fat_steps(
                image,
                name,
                found,
            ),
            step => seq![step],
        }
    }
}

/// The directory of the UKIs in the ISO tree.
pub open spec fn uki_dir_of(iso_root: Seq<u8>) -> Seq<u8> {
    below(iso_root, "EFI/Linux"@)
}

/// The steps before any UKI gets into the ISO tree.
pub open spec fn boot_head_steps(iso_root: Seq<u8>) -> Seq<StepView> {
    seq![
        StepView::Note("Setting up UEFI boot..."@),
        StepView::CreateDir { path: uki_dir_of(iso_root), context: None },
    ]
}

/// The steps that install systemd-boot and say what it boots.
pub open spec fn systemd_boot_steps(
    iso_root: Seq<u8>,
    entries: Seq<UkiMenuEntryView>,
) -> Seq<StepView> {
    let loader_dir = below(iso_root, "loader"@);
    seq![
        StepView::Copy {
            from: encode_utf8(SYSTEMD_BOOT@),
            to: below(iso_root, "EFI/BOOT/BOOTX64.EFI"@),
            context: None,
        },
        StepView::CreateDir { path: loader_dir, context: None },
        StepView::WriteLoaderConf {
            path: below(loader_dir, "loader.conf"@),
            config: loader_config_of(entries),
        },
    ] + loader_entries_steps(loader_dir, entries)
}

/// How UEFI boot is set up. Where a prebuilt UKI has no file name, that is found out after the
/// UKIs before it are in place, and nothing more is done.
pub open spec fn uefi_boot_plan(
    config: IsoConfigView,
    distro: DistroSettingsView,
    iso_root: Seq<u8>,
    output_dir: Seq<u8>,
) -> PlanView {
    let staged = staged_all(config, distro, uki_dir_of(iso_root));
    if staged.nameless {
        PlanView {
            steps: boot_head_steps(iso_root) + staged.steps,
            failure: Some(IsoErrorView::UkiWithoutFilename),
        }
    } else {
        PlanView {
            steps: boot_head_steps(iso_root) + staged.steps + systemd_boot_steps(
                iso_root,
                staged.entries,
            ) + efi_boot_image_steps(iso_root, output_dir, staged.entries),
            failure: None,
        }
    }
}

/// The step that creates the directory `dir` in the FAT image that `name` spells out.
fn make_fat_dir(name: &str, dir: &str) -> (step: Step)
    ensures
        step@ == fat_dir_step(name@, dir@),
{
    Step::MakeFatDir {
        name: name.to_owned(),
        dir: dir.to_owned(),
        context: Some("mmd failed to create ".to_owned().concat(dir)),
    }
}

/// The step that copies a file into the directory `dir` of a FAT image.
fn copy_to_fat(image: &PathBuf, from: &PathBuf, dir: &str) -> (step: Step)
    ensures
        step@ == (StepView::CopyToFat {
            image: path_bytes(*image),
            from: path_bytes(*from),
            dir: dir@,
        }),
{
    Step::CopyToFat { image: image.clone(), from: from.clone(), dir: dir.to_owned() }
}

/// Create EFI boot image with systemd-boot and UKIs.
pub fn build_efi_boot_image(
    iso_root: &PathBuf,
    output_dir: &PathBuf,
    uki_entries: &Vec<UkiMenuEntry>,
) -> (steps: Vec<Step>)
    ensures
        steps_view(steps@) == efi_boot_image_steps(
            path_bytes(*iso_root),
            path_bytes(*output_dir),
            entries_view(uki_entries@),
        ),
{
    let ghost root = path_bytes(*iso_root);
    let ghost entries = entries_view(uki_entries@);
    let image = join_text(output_dir, "efiboot.img");
    let ghost img = path_bytes(image);
    let ghost uki_steps = entries.map_values(
        |entry: UkiMenuEntryView| fat_uki_step(img, entry),
    );
    let name = to_string_lossy(&image);
    let mut steps: Vec<Step> = Vec::new();
    push_step(&mut steps, Step::Note("Creating EFI boot image...".to_owned()));
    push_step(
        &mut steps,
        Step::CreateFatImage { image: image.clone(), size_mb: DEFAULT_EFIBOOT_SIZE_MB },
    );
    push_step(&mut steps, Step::CreateEfiDirs { image: image.clone() });
    push_step(&mut steps, make_fat_dir(name.as_str(), "::EFI/Linux"));
    push_step(
        &mut steps,
        copy_to_fat(&image, &join_text(iso_root, "EFI/BOOT/BOOTX64.EFI"), "::EFI/BOOT/"),
    );
    assert(steps_view(steps@) =~= image_head_steps(root, img) + uki_steps.take(0));
    let mut at: usize = 0;
    while at < uki_entries.len()
        invariant
            at <= uki_entries@.len(),
            entries == entries_view(uki_entries@),
            img == path_bytes(image),
            uki_steps == entries.map_values(
                |entry: UkiMenuEntryView| fat_uki_step(img, entry),
            ),
            steps_view(steps@) == image_head_steps(root, img) + uki_steps.take(at as int),
        decreases uki_entries@.len() - at,
    {
        push_step(&mut steps, copy_to_fat(&image, &uki_entries[at].path, "::EFI/Linux/"));
        at = at + 1;
        assert(steps_view(steps@) =~= image_head_steps(root, img) + uki_steps.take(at as int));
    }
    assert(uki_steps.take(at as int) =~= uki_steps);
    push_step(&mut steps, make_fat_dir(name.as_str(), "::loader"));
    push_step(
        &mut steps,
        copy_to_fat(&image, &join_text(iso_root, "loader/loader.conf"), "::loader/"),
    );
    push_step(
        &mut steps,
        Step::CopyEntriesToFat {
            image: image.clone(),
            name,
            entries: join_text(iso_root, "loader/entries"),
        },
    );
    push_step(
        &mut steps,
        Step::Copy {
            from: image.clone(),
            to: join_text(iso_root, "efiboot.img"),
            context: None,
        },
    );
    push_step(&mut steps, Step::RemoveFile { path: image });
    assert(steps_view(steps@) =~= image_head_steps(root, img) + uki_steps + image_tail_steps(
        root,
        img,
    ));
    steps
}

/// The contents of a listing of a directory that may be absent.
pub open spec fn option_paths_view(found: Option<Vec<PathBuf>>) -> Option<Seq<Seq<u8>>> {
    match found {
        Some(found) => Some(paths_view(found@)),
        None => None,
    }
}

/// The steps that a [`Step::CopyEntriesToFat`] stands for. `found` is what the directory of the
/// menu entries holds; it is absent where there is no such directory.
pub fn entries_to_fat(image: &PathBuf, name: &str, found: &Option<Vec<PathBuf>>) -> (steps: Vec<
    Step,
>)
    ensures
        steps_view(steps@) == entries_to_fat_steps(
            path_bytes(*image),
            name@,
            option_paths_view(*found),
        ),
{
    let mut steps: Vec<Step> = Vec::new();
    if let Some(found) = found {
        let ghost all = paths_view(found@);
        let ghost is_entry = |path: Seq<u8>| is_entry_path(path);
        let ghost copy = |path: Seq<u8>| entry_copy_step(path_bytes(*image), path);
        let ghost head = seq![fat_dir_step(name@, "::loader/entries"@)];
        push_step(&mut steps, make_fat_dir(name, "::loader/entries"));
        proof {
            reveal(Seq::filter);
            assert(all.take(0).filter(is_entry) =~= seq![]);
            assert(steps_view(steps@) =~= head + all.take(0).filter(is_entry).map_values(copy));
        }
        let mut at: usize = 0;
        while at < found.len()
            invariant
                at <= found@.len(),
                all == paths_view(found@),
                is_entry == (|path: Seq<u8>| is_entry_path(path)),
                copy == (|path: Seq<u8>| entry_copy_step(path_bytes(*image), path)),
                steps_view(steps@) == head + all.take(at as int).filter(is_entry).map_values(copy),
            decreases found@.len() - at,
        {
            let ghost before = all.take(at as int).filter(is_entry);
            proof {
                reveal(Seq::filter);
                assert(all.take(at + 1).drop_last() =~= all.take(at as int));
                assert(all.take(at + 1).last() == path_bytes(found@[at as int]));
            }
            if let Some(step) = copy_entry(image, &found[at]) {
                push_step(&mut steps, step);
                assert(head + before.push(path_bytes(found@[at as int])).map_values(copy) =~= (head
                    + before.map_values(copy)).push(step@));
            }
            at = at + 1;
        }
        assert(all.take(at as int) =~= all);
    }
    assert(steps_view(steps@) =~= entries_to_fat_steps(
        path_bytes(*image),
        name@,
        option_paths_view(*found),
    ));
    steps
}

/// Set up UEFI boot with systemd-boot and UKIs.
pub fn setup_uefi_boot(
    config: &IsoConfig,
    distro: &DistroSettings,
    iso_root: &PathBuf,
    output_dir: &PathBuf,
) -> (plan: Plan)
    ensures
        plan@ == uefi_boot_plan(config@, distro@, path_bytes(*iso_root), path_bytes(*output_dir)),
{
    let ghost root = path_bytes(*iso_root);
    let uki_dir = join_text(iso_root, "EFI/Linux");
    let mut steps: Vec<Step> = Vec::new();
    push_step(&mut steps, Step::Note("Setting up UEFI boot...".to_owned()));
    push_step(&mut steps, Step::CreateDir { path: uki_dir.clone(), context: None });
    assert(steps_view(steps@) =~= boot_head_steps(root));
    let staged = stage_ukis(config, distro, &uki_dir);
    append_steps(&mut steps, staged.steps);
    if staged.nameless {
        return Plan { steps, failure: Some(IsoError::UkiWithoutFilename) };
    }
    let entries = staged.entries;
    let ghost before = steps_view(steps@);
    push_step(
        &mut steps,
        Step::Copy {
            from: path_from(SYSTEMD_BOOT),
            to: join_text(iso_root, "EFI/BOOT/BOOTX64.EFI"),
            context: None,
        },
    );
    let loader_dir = join_text(iso_root, "loader");
    push_step(&mut steps, Step::CreateDir { path: loader_dir.clone(), context: None });
    push_step(
        &mut steps,
        Step::WriteLoaderConf {
            path: join_text(&loader_dir, "loader.conf"),
            config: loader_config(&entries),
        },
    );
    append_steps(&mut steps, write_loader_entries(&loader_dir, &entries));
    assert(steps_view(steps@) =~= before + systemd_boot_steps(root, entries_view(entries@)));
    append_steps(&mut steps, build_efi_boot_image(iso_root, output_dir, &entries));
    Plan { steps, failure: None }
}

} // verus!
