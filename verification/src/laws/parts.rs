//! What holds of the parts that the creation of an ISO is made of.
use crate::boot::{
    boot_head_steps, efi_boot_image_steps, fat_dir_step, fat_uki_step, systemd_boot_steps,
    uefi_boot_plan,
};
use crate::config::{IsoConfigView, LivePayloadLayout};
use crate::distro::DistroSettingsView;
use crate::error::IsoErrorView;
use crate::iso::{
    appended_partitions_of, core_copy, core_files_steps, extra_file_steps_to, extra_files_steps,
    final_steps, first_steps, in_tree, iso_plan_in, payload_steps,
};
use crate::loader::{loader_config_of, loader_entries_steps, UkiMenuEntryView};
use crate::paths::{path_joined, path_lossy, path_parent, path_shown};
use crate::step::{AppendedPartitionView, StepView};
use crate::uki::staged_all;
use vstd::prelude::*;
use vstd::utf8::encode_utf8;

verus! {

/// What lies at `text` in the directory `base`.
pub open spec fn inside(base: Seq<u8>, text: Seq<char>) -> Seq<u8> {
    path_joined(base, encode_utf8(text))
}

/// The structure of an ISO is set up at the root that is given.
pub proof fn law_structure_is_set_up(root: Seq<u8>)
    ensures
        first_steps(root).len() == 2,
        first_steps(root)[0] == StepView::Note("Setting up ISO structure..."@),
        first_steps(root)[1] matches StepView::SetupStructure { root: at } && at == root,
{
}

/// Kernel and initramfs are copied to their places on the ISO, whatever the layout is. With a
/// layout of files, rootfs and overlay image are copied to theirs; with one of partitions
/// nothing else is copied.
pub proof fn law_boot_files_and_payloads_are_copied(
    config: IsoConfigView,
    distro: DistroSettingsView,
    root: Seq<u8>,
)
    ensures
        ({
            let steps = core_files_steps(config, distro, root);
            &&& steps[0] == StepView::Note("Copying boot files..."@)
            &&& steps[1] == (StepView::Copy {
                from: config.kernel,
                to: inside(root, distro.kernel_iso_path),
                context: Some("Failed to copy kernel"@),
            })
            &&& steps[2] == (StepView::Copy {
                from: config.initrd,
                to: inside(root, distro.initramfs_live_iso_path),
                context: Some("Failed to copy initramfs"@),
            })
            &&& steps.skip(3) == payload_steps(config, distro, root)
            &&& config.live_payload_layout == LivePayloadLayout::IsoFiles ==> {
                &&& steps[3] == StepView::Note("Copying rootfs..."@)
                &&& steps[4] == (StepView::Copy {
                    from: config.rootfs,
                    to: inside(root, distro.rootfs_iso_path),
                    context: Some("Failed to copy rootfs"@),
                })
                &&& config.overlay_image is None ==> steps.len() == 5
                &&& config.overlay_image matches Some(overlay) ==> {
                    &&& steps.len() == 7
                    &&& steps[5] == StepView::Note("Copying live overlay image..."@)
                    &&& steps[6] == (StepView::Copy {
                        from: overlay,
                        to: inside(root, distro.live_overlayfs_iso_path),
                        context: Some("Failed to copy live overlay image"@),
                    })
                }
            }
            &&& config.live_payload_layout == LivePayloadLayout::AppendedPartitions ==> {
                &&& steps.len() == 4
                &&& steps[3] == StepView::Note(
                    "Live payload layout: appended partitions (rootfs/overlay not copied into ISO filesystem)"@,
                )
            }
        }),
{
    let steps = core_files_steps(config, distro, root);
    assert(steps.skip(3) =~= payload_steps(config, distro, root));
}

/// A file of the ISO is copied from where it is to where it belongs.
pub proof fn law_copies_go_from_source_to_place(from: Seq<u8>, to: Seq<u8>, context: Seq<char>)
    ensures
        core_copy(from, to, context) == (StepView::Copy { from, to, context: Some(context) }),
{
}

/// The payloads are appended as partitions exactly where the layout says so: the rootfs as the
/// second partition, the overlay image as the third, both for Linux.
pub proof fn law_payloads_are_appended(config: IsoConfigView)
    ensures
        config.live_payload_layout == LivePayloadLayout::IsoFiles ==> appended_partitions_of(
            config,
        ).len() == 0,
        config.live_payload_layout == LivePayloadLayout::AppendedPartitions ==> {
            let appended = appended_partitions_of(config);
            &&& appended[0] == (AppendedPartitionView {
                index: 2,
                type_code: "0x83"@,
                path: config.rootfs,
            })
            &&& match config.overlay_image {
                Some(overlay) => appended.len() == 2 && appended[1] == (AppendedPartitionView {
                    index: 3,
                    type_code: "0x83"@,
                    path: overlay,
                }),
                None => appended.len() == 1,
            }
        },
{
}

/// The directory of the UKIs is made before any UKI gets there.
pub proof fn law_uki_directory_is_made(root: Seq<u8>)
    ensures
        boot_head_steps(root).len() == 2,
        boot_head_steps(root)[0] == StepView::Note("Setting up UEFI boot..."@),
        boot_head_steps(root)[1] == (StepView::CreateDir {
            path: inside(root, "EFI/Linux"@),
            context: None,
        }),
{
}

/// systemd-boot is copied to where a computer looks for it, and is told in `loader.conf` what it
/// boots; behind that the menu is written.
pub proof fn law_systemd_boot_is_set_up(root: Seq<u8>, entries: Seq<UkiMenuEntryView>)
    ensures
        ({
            let steps = systemd_boot_steps(root, entries);
            let loader = inside(root, "loader"@);
            &&& steps[0] == (StepView::Copy {
                from: encode_utf8("/usr/lib/systemd/boot/efi/systemd-bootx64.efi"@),
                to: inside(root, "EFI/BOOT/BOOTX64.EFI"@),
                context: None,
            })
            &&& steps[1] == (StepView::CreateDir { path: loader, context: None })
            &&& steps[2] == (StepView::WriteLoaderConf {
                path: inside(loader, "loader.conf"@),
                config: loader_config_of(entries),
            })
            &&& steps.skip(3) == loader_entries_steps(loader, entries)
            &&& steps.len() == 4 + entries.len()
        }),
{
    let loader = inside(root, "loader"@);
    assert(systemd_boot_steps(root, entries).skip(3) =~= loader_entries_steps(loader, entries));
}

/// A directory is made in a FAT image by name, and a failure says which directory.
pub proof fn law_directories_in_the_image(name: Seq<char>, dir: Seq<char>)
    ensures
        fat_dir_step(name, dir) == (StepView::MakeFatDir {
            name,
            dir,
            context: Some("mmd failed to create "@ + dir),
        }),
{
}

/// A UKI is copied into a FAT image from where it is in the ISO tree.
pub proof fn law_ukis_in_the_image(image: Seq<u8>, entry: UkiMenuEntryView)
    ensures
        fat_uki_step(image, entry) == (StepView::CopyToFat {
            image,
            from: entry.path,
            dir: "::EFI/Linux/"@,
        }),
{
}

/// The boot image is a fresh one of 200 MB, in which systemd-boot, each UKI of the menu in its
/// order, `loader.conf` and the menu entries are put, before it is copied into the ISO tree and
/// removed where it was made.
pub proof fn law_boot_image_is_filled(
    root: Seq<u8>,
    dir: Seq<u8>,
    entries: Seq<UkiMenuEntryView>,
)
    ensures
        ({
            let steps = efi_boot_image_steps(root, dir, entries);
            let image = inside(dir, "efiboot.img"@);
            let tail = 5 + entries.len() as int;
            &&& steps.len() == tail + 5
            &&& steps[0] == StepView::Note("Creating EFI boot image..."@)
            &&& steps[1] == (StepView::CreateFatImage { image, size_mb: 200 })
            &&& steps[2] == (StepView::CreateEfiDirs { image })
            &&& steps[3] == (StepView::MakeFatDir {
                name: path_lossy(image),
                dir: "::EFI/Linux"@,
                context: Some("mmd failed to create "@ + "::EFI/Linux"@),
            })
            &&& steps[4] == (StepView::CopyToFat {
                image,
                from: inside(root, "EFI/BOOT/BOOTX64.EFI"@),
                dir: "::EFI/BOOT/"@,
            })
            &&& forall|i: int|
                0 <= i < entries.len() ==> steps[5 + i] == (StepView::CopyToFat {
                    image,
                    from: (#[trigger] entries[i]).path,
                    dir: "::EFI/Linux/"@,
                })
            &&& steps[tail] == (StepView::MakeFatDir {
                name: path_lossy(image),
                dir: "::loader"@,
                context: Some("mmd failed to create "@ + "::loader"@),
            })
            &&& steps[tail + 1] == (StepView::CopyToFat {
                image,
                from: inside(root, "loader/loader.conf"@),
                dir: "::loader/"@,
            })
            &&& steps[tail + 2] == (StepView::CopyEntriesToFat {
                image,
                name: path_lossy(image),
                entries: inside(root, "loader/entries"@),
            })
            &&& steps[tail + 3] == (StepView::Copy {
                from: image,
                to: inside(root, "efiboot.img"@),
                context: None,
            })
            &&& steps[tail + 4] == (StepView::RemoveFile { path: image })
        }),
{
}

/// Extra files are copied one behind the other: each is copied from its source to its
/// destination in the ISO tree, once the directory above that, if there is one, is made. A
/// failure says what was copied where.
pub proof fn law_extra_files_are_copied_one_by_one(
    root: Seq<u8>,
    files: Seq<(Seq<u8>, Seq<char>)>,
    source: Seq<u8>,
    dst: Seq<char>,
)
    ensures
        extra_files_steps(root, Seq::empty()) == Seq::<StepView>::empty(),
        ({
            let place = inside(root, in_tree(dst));
            let copy = StepView::Copy {
                from: source,
                to: place,
                context: Some("Failed to copy "@ + path_shown(source) + " to "@ + dst),
            };
            extra_files_steps(root, files.push((source, dst))) == match path_parent(place) {
                Some(above) => extra_files_steps(root, files).push(
                    StepView::CreateDir { path: above, context: None },
                ).push(copy),
                None => extra_files_steps(root, files).push(copy),
            }
        }),
{
    let place = inside(root, in_tree(dst));
    let copy = StepView::Copy {
        from: source,
        to: place,
        context: Some("Failed to copy "@ + path_shown(source) + " to "@ + dst),
    };
    let before = extra_files_steps(root, files);
    let after = extra_files_steps(root, files.push((source, dst)));
    assert(files.push((source, dst)).drop_last() =~= files);
    assert(files.push((source, dst)).last() == (source, dst));
    match path_parent(place) {
        Some(above) => {
            assert(after =~= before.push(
                StepView::CreateDir { path: above, context: None },
            ).push(copy));
        },
        None => {
            assert(after =~= before.push(copy));
        },
    }
}

/// An extra file is copied last to where it is to be, whatever the directory above is.
pub proof fn law_extra_file_is_placed(
    source: Seq<u8>,
    dst: Seq<char>,
    place: Seq<u8>,
    above: Option<Seq<u8>>,
)
    ensures
        ({
            let steps = extra_file_steps_to((source, dst), place, above);
            let context = "Failed to copy "@ + path_shown(source) + " to "@ + dst;
            &&& steps.last() == (StepView::Copy {
                from: source,
                to: place,
                context: Some(context),
            })
            &&& match above {
                Some(above) => steps.len() == 2 && steps[0] == (StepView::CreateDir {
                    path: above,
                    context: None,
                }),
                None => steps.len() == 1,
            }
        }),
{
}

/// From the ISO tree to the ISO: xorriso makes it at the path and with the label that are asked
/// for, with the boot image in the tree and the payloads as partitions; the checksum follows
/// exactly where it is asked for; then the tree is removed and the user told.
pub proof fn law_iso_is_finished(config: IsoConfigView, root: Seq<u8>)
    ensures
        ({
            let steps = final_steps(config, root);
            let checksum: int = if config.generate_checksum { 2 } else { 0 };
            &&& steps.len() == 4 + checksum
            &&& steps[0] == StepView::Note("Creating ISO with xorriso..."@)
            &&& steps[1] == (StepView::RunXorriso {
                root,
                output: config.output,
                label: config.label,
                boot_image: "efiboot.img"@,
                appended: appended_partitions_of(config),
            })
            &&& config.generate_checksum ==> {
                &&& steps[2] == StepView::Note("Generating checksum..."@)
                &&& steps[3] == (StepView::WriteChecksum { iso: config.output })
            }
            &&& steps[2 + checksum] == (StepView::RemoveTree { path: root })
            &&& steps[3 + checksum] == (StepView::Report { iso: config.output })
        }),
{
}

/// UEFI boot is set up in this order: the directory of the UKIs, the UKIs, systemd-boot with its
/// menu, the boot image. It ends with an error behind the UKIs exactly where one has no name.
pub proof fn law_uefi_boot_is_made_of_parts(
    config: IsoConfigView,
    distro: DistroSettingsView,
    root: Seq<u8>,
    dir: Seq<u8>,
)
    ensures
        ({
            let staged = staged_all(config, distro, inside(root, "EFI/Linux"@));
            let plan = uefi_boot_plan(config, distro, root, dir);
            let ukis = boot_head_steps(root) + staged.steps;
            if staged.nameless {
                &&& plan.steps == ukis
                &&& plan.failure == Some(IsoErrorView::UkiWithoutFilename)
            } else {
                &&& plan.steps == ukis + systemd_boot_steps(root, staged.entries)
                    + efi_boot_image_steps(root, dir, staged.entries)
                &&& plan.failure is None
            }
        }),
{
}

/// An ISO is created in this order: its structure, the boot files and payloads, UEFI boot, the
/// extra files, the ISO itself. Where UEFI boot cannot be set up, nothing follows, and the
/// creation fails for that reason.
pub proof fn law_plan_is_made_of_parts(
    config: IsoConfigView,
    distro: DistroSettingsView,
    dir: Seq<u8>,
)
    ensures
        ({
            let root = inside(dir, "iso-root"@);
            let boot = uefi_boot_plan(config, distro, root, dir);
            let start = first_steps(root) + core_files_steps(config, distro, root) + boot.steps;
            let plan = iso_plan_in(config, distro, dir);
            &&& plan.failure == boot.failure
            &&& boot.failure is Some ==> plan.steps == start
            &&& boot.failure is None ==> plan.steps == start + extra_files_steps(
                root,
                config.extra_files,
            ) + final_steps(config, root)
        }),
{
}

} // verus!
