//! What holds of the creation of an ISO from the first step to the last.
use crate::boot::{boot_head_steps, efi_boot_image_steps, systemd_boot_steps, uefi_boot_plan};
use crate::config::{IsoConfigView, LivePayloadLayout, UkiSourceView};
use crate::distro::DistroSettingsView;
use crate::error::IsoErrorView;
use crate::iso::{
    appended_partitions_of, core_files_steps, extra_files_steps, final_steps, first_steps,
    iso_plan_in,
};
use crate::laws::menu::law_menu_is_written_entry_by_entry;
use crate::laws::parts::{
    inside, law_boot_files_and_payloads_are_copied, law_boot_image_is_filled,
    law_extra_files_are_copied_one_by_one, law_iso_is_finished, law_plan_is_made_of_parts,
    law_systemd_boot_is_set_up, law_uefi_boot_is_made_of_parts,
};
use crate::laws::ukis::{
    fallback, has_a_name, law_one_uki_is_staged, law_ukis_are_staged_in_order,
    law_without_ukis_there_is_a_fallback, presents, puts_in_place,
};
use crate::loader::{entry_id_of, loader_config_of, UkiMenuEntryView};
use crate::paths::{path_file_name, path_file_stem, path_joined, path_lossy};
use crate::step::StepView;
use crate::uki::{staged_all, staged_uki, staged_ukis};
use vstd::prelude::*;
use vstd::utf8::encode_utf8;

verus! {

/// The steps that do more than tell the user something on the way.
pub open spec fn work(steps: Seq<StepView>) -> Seq<StepView> {
    steps.filter(|step: StepView| !(step is Note))
}

/// The UKIs of an ISO: those that are asked for, or else the one that is built where none is.
pub open spec fn ukis_of(config: IsoConfigView) -> Seq<UkiSourceView> {
    if config.ukis.len() == 0 {
        seq![fallback(config)]
    } else {
        config.ukis
    }
}

/// Whether the first `count` UKIs of an ISO can be put into place.
pub open spec fn are_named(config: IsoConfigView, count: int) -> bool {
    &&& count <= ukis_of(config).len()
    &&& forall|i: int| 0 <= i < count ==> has_a_name(#[trigger] ukis_of(config)[i])
}

/// The root of the ISO tree where an ISO is created in `dir`.
pub open spec fn root_in(dir: Seq<u8>) -> Seq<u8> {
    inside(dir, "iso-root"@)
}

/// How many payloads are copied into the ISO tree.
pub open spec fn payload_count(config: IsoConfigView) -> int {
    match config.live_payload_layout {
        LivePayloadLayout::IsoFiles => if config.overlay_image is Some {
            2
        } else {
            1
        },
        LivePayloadLayout::AppendedPartitions => 0,
    }
}

/// The title of a UKI in the menu.
pub open spec fn title_of(uki: UkiSourceView) -> Seq<char> {
    match uki {
        UkiSourceView::Prebuilt(path) => path_lossy(path_file_stem(path)->0),
        UkiSourceView::Build { name, .. } => name,
    }
}

/// The file name of a UKI in the menu.
pub open spec fn name_of(uki: UkiSourceView) -> Seq<char> {
    match uki {
        UkiSourceView::Prebuilt(path) => path_lossy(path_file_name(path)->0),
        UkiSourceView::Build { filename, .. } => filename,
    }
}

/// Where a UKI is in the ISO tree.
pub open spec fn place_of(uki: UkiSourceView, root: Seq<u8>) -> Seq<u8> {
    path_joined(
        inside(root, "EFI/Linux"@),
        match uki {
            UkiSourceView::Prebuilt(path) => path_file_name(path)->0,
            UkiSourceView::Build { filename, .. } => encode_utf8(filename),
        },
    )
}

/// What is done is what is done of the one and then of the other.
proof fn lemma_work_add(a: Seq<StepView>, b: Seq<StepView>)
    ensures
        work(a + b) == work(a) + work(b),
{
    Seq::filter_distributes_over_add(a, b, |step: StepView| !(step is Note));
}

/// Telling the user something is no work.
proof fn lemma_work_one(step: StepView)
    ensures
        work(seq![step]) == if step is Note {
            Seq::empty()
        } else {
            seq![step]
        },
{
    reveal_with_fuel(Seq::filter, 2);
    assert(seq![step].drop_last() =~= Seq::empty());
    assert(seq![step].last() == step);
}

/// Where the user is told nothing, all steps are work.
proof fn lemma_work_all(steps: Seq<StepView>)
    requires
        forall|i: int| 0 <= i < steps.len() ==> !(#[trigger] steps[i] is Note),
    ensures
        work(steps) == steps,
    decreases steps.len(),
{
    reveal(Seq::filter);
    if steps.len() > 0 {
        lemma_work_all(steps.drop_last());
        assert(steps.last() == steps[steps.len() - 1]);
        assert(steps =~= steps.drop_last().push(steps.last()));
    } else {
        assert(steps =~= Seq::empty());
    }
}

/// Where the user is told something first and nothing behind that, the rest is work.
proof fn lemma_work_behind_note(steps: Seq<StepView>)
    requires
        steps.len() > 0,
        steps[0] is Note,
        forall|i: int| 1 <= i < steps.len() ==> !(#[trigger] steps[i] is Note),
    ensures
        work(steps) == steps.skip(1),
{
    assert(steps =~= seq![steps[0]] + steps.skip(1));
    lemma_work_add(seq![steps[0]], steps.skip(1));
    lemma_work_one(steps[0]);
    lemma_work_all(steps.skip(1));
    assert(work(steps) =~= steps.skip(1));
}

/// What is done about UKIs one behind the other: for each, up to the first without a name, one
/// thing, and there is one entry.
proof fn lemma_work_of_ukis(
    config: IsoConfigView,
    distro: DistroSettingsView,
    uki_dir: Seq<u8>,
    ukis: Seq<UkiSourceView>,
)
    ensures
        ({
            let staged = staged_ukis(config, distro, uki_dir, ukis);
            let count = staged.entries.len() as int;
            &&& work(staged.steps).len() == count
            &&& count <= ukis.len()
            &&& staged.nameless <==> count < ukis.len()
            &&& staged.nameless ==> !has_a_name(ukis[count])
            &&& forall|i: int|
                0 <= i < count ==> has_a_name(#[trigger] ukis[i]) && puts_in_place(
                    work(staged.steps)[i],
                    config,
                    distro,
                    uki_dir,
                    ukis[i],
                ) && presents(staged.entries[i], uki_dir, ukis[i])
        }),
    decreases ukis.len(),
{
    let staged = staged_ukis(config, distro, uki_dir, ukis);
    if ukis.len() == 0 {
        reveal(Seq::filter);
        law_ukis_are_staged_in_order(
            config,
            distro,
            uki_dir,
            ukis,
            UkiSourceView::Prebuilt(Seq::empty()),
        );
        assert(ukis =~= Seq::empty());
    } else {
        let before = ukis.drop_last();
        let uki = ukis.last();
        assert(ukis =~= before.push(uki));
        assert(forall|i: int| 0 <= i < before.len() ==> before[i] == #[trigger] ukis[i]);
        assert(ukis[ukis.len() - 1] == uki);
        lemma_work_of_ukis(config, distro, uki_dir, before);
        law_ukis_are_staged_in_order(config, distro, uki_dir, before, uki);
        law_one_uki_is_staged(config, distro, uki_dir, uki);
        let first = staged_ukis(config, distro, uki_dir, before);
        if !first.nameless && has_a_name(uki) {
            let one = staged_uki(config, distro, uki_dir, uki)->0;
            lemma_work_add(first.steps, one.steps);
            let last = one.steps.last();
            if one.steps.len() == 1 {
                assert(one.steps =~= seq![last]);
                lemma_work_one(last);
            } else {
                assert(one.steps =~= seq![one.steps[0]] + seq![last]);
                lemma_work_add(seq![one.steps[0]], seq![last]);
                lemma_work_one(one.steps[0]);
                lemma_work_one(last);
                assert(work(one.steps) =~= seq![last]);
            }
            assert(work(staged.steps) =~= work(first.steps).push(last));
        }
    }
}

/// What is done about the UKIs of an ISO.
proof fn lemma_work_of_all_ukis(
    config: IsoConfigView,
    distro: DistroSettingsView,
    uki_dir: Seq<u8>,
)
    ensures
        ({
            let staged = staged_all(config, distro, uki_dir);
            let ukis = ukis_of(config);
            let count = staged.entries.len() as int;
            &&& work(staged.steps).len() == count
            &&& count <= ukis.len()
            &&& staged.nameless <==> count < ukis.len()
            &&& staged.nameless ==> !has_a_name(ukis[count])
            &&& forall|i: int|
                0 <= i < count ==> has_a_name(#[trigger] ukis[i]) && puts_in_place(
                    work(staged.steps)[i],
                    config,
                    distro,
                    uki_dir,
                    ukis[i],
                ) && presents(staged.entries[i], uki_dir, ukis[i])
        }),
{
    law_without_ukis_there_is_a_fallback(config, distro, uki_dir);
    lemma_work_of_ukis(config, distro, uki_dir, ukis_of(config));
}

/// The payloads that are copied into the ISO tree, in their order.
pub open spec fn payload_copies(
    config: IsoConfigView,
    distro: DistroSettingsView,
    root: Seq<u8>,
) -> Seq<StepView> {
    let rootfs = StepView::Copy {
        from: config.rootfs,
        to: inside(root, distro.rootfs_iso_path),
        context: Some("Failed to copy rootfs"@),
    };
    match config.live_payload_layout {
        LivePayloadLayout::IsoFiles => match config.overlay_image {
            Some(overlay) => seq![
                rootfs,
                StepView::Copy {
                    from: overlay,
                    to: inside(root, distro.live_overlayfs_iso_path),
                    context: Some("Failed to copy live overlay image"@),
                },
            ],
            None => seq![rootfs],
        },
        LivePayloadLayout::AppendedPartitions => Seq::empty(),
    }
}

/// What is done about the boot files and the payloads.
proof fn lemma_work_of_core_files(
    config: IsoConfigView,
    distro: DistroSettingsView,
    root: Seq<u8>,
)
    ensures
        work(core_files_steps(config, distro, root)) == seq![
            StepView::Copy {
                from: config.kernel,
                to: inside(root, distro.kernel_iso_path),
                context: Some("Failed to copy kernel"@),
            },
            StepView::Copy {
                from: config.initrd,
                to: inside(root, distro.initramfs_live_iso_path),
                context: Some("Failed to copy initramfs"@),
            },
        ] + payload_copies(config, distro, root),
{
    let steps = core_files_steps(config, distro, root);
    law_boot_files_and_payloads_are_copied(config, distro, root);
    let head = steps.take(3);
    let rest = steps.skip(3);
    assert(steps =~= head + rest);
    lemma_work_add(head, rest);
    lemma_work_behind_note(head);
    if config.live_payload_layout == LivePayloadLayout::IsoFiles {
        if config.overlay_image is Some {
            assert(rest =~= rest.take(2) + rest.skip(2));
            lemma_work_add(rest.take(2), rest.skip(2));
            lemma_work_behind_note(rest.take(2));
            lemma_work_behind_note(rest.skip(2));
        } else {
            lemma_work_behind_note(rest);
        }
    } else {
        lemma_work_behind_note(rest);
    }
    assert(work(rest) =~= payload_copies(config, distro, root));
    assert(work(steps) =~= seq![steps[1], steps[2]] + payload_copies(config, distro, root));
}

/// The steps that copy extra files are all work.
proof fn lemma_extra_files_are_work(root: Seq<u8>, files: Seq<(Seq<u8>, Seq<char>)>)
    ensures
        forall|i: int|
            0 <= i < extra_files_steps(root, files).len() ==> !(
            #[trigger] extra_files_steps(root, files)[i] is Note),
    decreases files.len(),
{
    if files.len() > 0 {
        let (source, dst) = files.last();
        lemma_extra_files_are_work(root, files.drop_last());
        law_extra_files_are_copied_one_by_one(root, files.drop_last(), source, dst);
        assert(files =~= files.drop_last().push((source, dst)));
    } else {
        assert(files =~= Seq::empty());
        law_extra_files_are_copied_one_by_one(root, files, Seq::empty(), Seq::empty());
    }
}

/// What is done at the end: xorriso, the checksum where it is asked for, the removal of the tree
/// and the report.
pub open spec fn finishing(config: IsoConfigView, root: Seq<u8>) -> Seq<StepView> {
    let xorriso = StepView::RunXorriso {
        root,
        output: config.output,
        label: config.label,
        boot_image: "efiboot.img"@,
        appended: appended_partitions_of(config),
    };
    if config.generate_checksum {
        seq![
            xorriso,
            StepView::WriteChecksum { iso: config.output },
            StepView::RemoveTree { path: root },
            StepView::Report { iso: config.output },
        ]
    } else {
        seq![
            xorriso,
            StepView::RemoveTree { path: root },
            StepView::Report { iso: config.output },
        ]
    }
}

/// What is done to finish an ISO.
proof fn lemma_work_of_final_steps(config: IsoConfigView, root: Seq<u8>)
    ensures
        work(final_steps(config, root)) == finishing(config, root),
{
    let steps = final_steps(config, root);
    law_iso_is_finished(config, root);
    if config.generate_checksum {
        assert(steps =~= steps.take(2) + steps.skip(2));
        lemma_work_add(steps.take(2), steps.skip(2));
        lemma_work_behind_note(steps.take(2));
        lemma_work_behind_note(steps.skip(2));
    } else {
        lemma_work_behind_note(steps);
    }
    assert(work(steps) =~= finishing(config, root));
}

/// What is done before the UKIs are put into place.
pub open spec fn beginning(
    config: IsoConfigView,
    distro: DistroSettingsView,
    root: Seq<u8>,
) -> Seq<StepView> {
    seq![
        StepView::SetupStructure { root },
        StepView::Copy {
            from: config.kernel,
            to: inside(root, distro.kernel_iso_path),
            context: Some("Failed to copy kernel"@),
        },
        StepView::Copy {
            from: config.initrd,
            to: inside(root, distro.initramfs_live_iso_path),
            context: Some("Failed to copy initramfs"@),
        },
    ] + payload_copies(config, distro, root) + seq![
        StepView::CreateDir { path: inside(root, "EFI/Linux"@), context: None },
    ]
}

/// What is done before the UKIs are put into place, and about them.
#[verifier::rlimit(30)]
proof fn lemma_work_of_start(
    config: IsoConfigView,
    distro: DistroSettingsView,
    root: Seq<u8>,
    staged: Seq<StepView>,
)
    ensures
        work(first_steps(root) + core_files_steps(config, distro, root)) + work(
            boot_head_steps(root) + staged,
        ) == beginning(config, distro, root) + work(staged),
{
    let first = first_steps(root);
    let core = core_files_steps(config, distro, root);
    let head = boot_head_steps(root);
    lemma_work_behind_note(first);
    lemma_work_of_core_files(config, distro, root);
    lemma_work_behind_note(head);
    lemma_work_add(first, core);
    lemma_work_add(head, staged);
    assert(work(first + core) + work(head + staged) =~= beginning(config, distro, root) + work(
        staged,
    ));
}

/// What is done about systemd-boot: all steps are work.
proof fn lemma_work_of_systemd_boot(root: Seq<u8>, entries: Seq<UkiMenuEntryView>)
    ensures
        work(systemd_boot_steps(root, entries)) == systemd_boot_steps(root, entries),
{
    let sys = systemd_boot_steps(root, entries);
    law_systemd_boot_is_set_up(root, entries);
    assert forall|i: int| 0 <= i < sys.len() implies !(#[trigger] sys[i] is Note) by {
        if i >= 4 {
            law_menu_is_written_entry_by_entry(inside(root, "loader"@), entries, i - 4);
            assert(sys[i] == sys.skip(3)[i - 3]);
        }
    }
    lemma_work_all(sys);
}

/// What is done about the boot image: all but the first step is work.
proof fn lemma_work_of_boot_image(root: Seq<u8>, dir: Seq<u8>, entries: Seq<UkiMenuEntryView>)
    ensures
        work(efi_boot_image_steps(root, dir, entries)) == efi_boot_image_steps(
            root,
            dir,
            entries,
        ).skip(1),
{
    let img = efi_boot_image_steps(root, dir, entries);
    law_boot_image_is_filled(root, dir, entries);
    assert forall|i: int| 1 <= i < img.len() implies !(#[trigger] img[i] is Note) by {
        if 5 <= i < 5 + entries.len() {
            let entry = entries[i - 5];
            assert(img[5 + (i - 5)] == img[i]);
        }
    }
    lemma_work_behind_note(img);
}

/// Parts in their order are the same, however they are put together.
proof fn lemma_regroup<A>(a: Seq<A>, b: Seq<A>, c: Seq<A>, d: Seq<A>)
    ensures
        a + (b + c + d) == a + b + c + d,
{
    assert(a + (b + c + d) =~= a + b + c + d);
}

/// What is done up to the end of the UKIs, and what is done behind them where all have a name.
#[verifier::rlimit(30)]
proof fn lemma_work_of_plan(config: IsoConfigView, distro: DistroSettingsView, dir: Seq<u8>)
    ensures
        ({
            let root = root_in(dir);
            let staged = staged_all(config, distro, inside(root, "EFI/Linux"@));
            let plan = iso_plan_in(config, distro, dir);
            let start = beginning(config, distro, root) + work(staged.steps);
            &&& staged.nameless ==> work(plan.steps) == start && plan.failure == Some(
                IsoErrorView::UkiWithoutFilename,
            )
            &&& !staged.nameless ==> plan.failure is None && work(plan.steps) == start
                + systemd_boot_steps(root, staged.entries) + efi_boot_image_steps(
                root,
                dir,
                staged.entries,
            ).skip(1) + extra_files_steps(root, config.extra_files) + finishing(config, root)
        }),
{
    let root = root_in(dir);
    let staged = staged_all(config, distro, inside(root, "EFI/Linux"@));
    let plan = iso_plan_in(config, distro, dir);
    let boot = uefi_boot_plan(config, distro, root, dir);
    law_plan_is_made_of_parts(config, distro, dir);
    law_uefi_boot_is_made_of_parts(config, distro, root, dir);
    let front = first_steps(root) + core_files_steps(config, distro, root);
    let ukis = boot_head_steps(root) + staged.steps;
    let sys = systemd_boot_steps(root, staged.entries);
    let img = efi_boot_image_steps(root, dir, staged.entries);
    let extra = extra_files_steps(root, config.extra_files);
    lemma_work_of_start(config, distro, root, staged.steps);
    lemma_work_add(front, boot.steps);
    if !staged.nameless {
        lemma_work_of_systemd_boot(root, staged.entries);
        lemma_work_of_boot_image(root, dir, staged.entries);
        lemma_extra_files_are_work(root, config.extra_files);
        lemma_work_all(extra);
        lemma_work_of_final_steps(config, root);
        lemma_work_add(ukis, sys);
        lemma_work_add(ukis + sys, img);
        lemma_work_add(front + boot.steps, extra);
        lemma_work_add(front + boot.steps + extra, final_steps(config, root));
        lemma_regroup(work(front), work(ukis), work(sys), work(img));
    }
}

/// The creation of an ISO begins with its structure; then kernel and initramfs are copied to
/// their places, and so are the payloads where the layout is one of files; then comes the
/// directory of the UKIs. That much is done whatever follows.
pub proof fn law_work_begins_with_the_boot_files(
    config: IsoConfigView,
    distro: DistroSettingsView,
    dir: Seq<u8>,
)
    ensures
        beginning(config, distro, root_in(dir)).is_prefix_of(
            work(iso_plan_in(config, distro, dir).steps),
        ),
        beginning(config, distro, root_in(dir)).len() == 4 + payload_count(config),
{
    lemma_work_of_plan(config, distro, dir);
    let w = work(iso_plan_in(config, distro, dir).steps);
    let start = beginning(config, distro, root_in(dir));
    assert(start =~= w.subrange(0, start.len() as int));
}

/// Then each UKI is put into place in its turn, up to the first one without a name: every
/// prebuilt one is copied, every one that is asked for is built, or the one that is built where
/// none is asked for.
pub proof fn law_each_uki_is_put_in_place(
    config: IsoConfigView,
    distro: DistroSettingsView,
    dir: Seq<u8>,
    i: int,
)
    requires
        0 <= i,
        are_named(config, i + 1),
    ensures
        ({
            let w = work(iso_plan_in(config, distro, dir).steps);
            let at = 4 + payload_count(config) + i;
            &&& at < w.len()
            &&& puts_in_place(
                w[at],
                config,
                distro,
                inside(root_in(dir), "EFI/Linux"@),
                ukis_of(config)[i],
            )
        }),
{
    let uki_dir = inside(root_in(dir), "EFI/Linux"@);
    let staged = staged_all(config, distro, uki_dir);
    lemma_work_of_plan(config, distro, dir);
    lemma_work_of_all_ukis(config, distro, uki_dir);
    let w = work(iso_plan_in(config, distro, dir).steps);
    let start = beginning(config, distro, root_in(dir));
    if staged.nameless && staged.entries.len() <= i {
        assert(has_a_name(ukis_of(config)[staged.entries.len() as int]));
    }
    assert(w[start.len() + i] == work(staged.steps)[i]);
}

/// The first UKI without a name is the end: nothing is done about it or behind it, and the
/// creation fails for want of a name.
pub proof fn law_nameless_uki_is_the_end(
    config: IsoConfigView,
    distro: DistroSettingsView,
    dir: Seq<u8>,
    i: int,
)
    requires
        0 <= i < ukis_of(config).len(),
        are_named(config, i),
        !has_a_name(ukis_of(config)[i]),
    ensures
        iso_plan_in(config, distro, dir).failure == Some(IsoErrorView::UkiWithoutFilename),
        work(iso_plan_in(config, distro, dir).steps).len() == 4 + payload_count(config) + i,
{
    let uki_dir = inside(root_in(dir), "EFI/Linux"@);
    let staged = staged_all(config, distro, uki_dir);
    lemma_work_of_plan(config, distro, dir);
    lemma_work_of_all_ukis(config, distro, uki_dir);
    let count = staged.entries.len() as int;
    if i < count {
        assert(has_a_name(ukis_of(config)[i]));
    }
    if count < i {
        assert(has_a_name(ukis_of(config)[count]));
    }
}

/// Where every UKI has a name, the creation does not fail. When all of them are in place, the
/// steps for systemd-boot follow, then those for the boot image, then the extra files, and then
/// the ISO is finished.
#[verifier::rlimit(30)]
proof fn lemma_work_behind_ukis(config: IsoConfigView, distro: DistroSettingsView, dir: Seq<u8>)
    requires
        are_named(config, ukis_of(config).len() as int),
    ensures
        ({
            let root = root_in(dir);
            let entries = staged_all(config, distro, inside(root, "EFI/Linux"@)).entries;
            let plan = iso_plan_in(config, distro, dir);
            let w = work(plan.steps);
            let sys = systemd_boot_steps(root, entries);
            let img = efi_boot_image_steps(root, dir, entries);
            let n = ukis_of(config).len() as int;
            let menu = 4 + payload_count(config) + n;
            let fat = menu + 4 + n;
            let tail = fat + 4 + n;
            &&& plan.failure is None
            &&& forall|i: int| 0 <= i < 4 + n ==> w[menu + i] == #[trigger] sys[i]
            &&& forall|i: int| 0 <= i < 9 + n ==> w[fat + i] == #[trigger] img.skip(1)[i]
            &&& w.skip(tail + 5) == extra_files_steps(root, config.extra_files) + finishing(
                config,
                root,
            )
        }),
{
    let root = root_in(dir);
    let uki_dir = inside(root, "EFI/Linux"@);
    let staged = staged_all(config, distro, uki_dir);
    lemma_all_staged(config, distro, uki_dir);
    lemma_work_of_plan(config, distro, dir);
    law_systemd_boot_is_set_up(root, staged.entries);
    law_boot_image_is_filled(root, dir, staged.entries);
    let front = beginning(config, distro, root);
    assert(front.len() == 4 + payload_count(config));
    let w = work(iso_plan_in(config, distro, dir).steps);
    lemma_index_in(
        w,
        front + work(staged.steps),
        systemd_boot_steps(root, staged.entries),
        efi_boot_image_steps(root, dir, staged.entries).skip(1),
        extra_files_steps(root, config.extra_files),
        finishing(config, root),
    );
}

/// When all UKIs are in place, systemd-boot is put where a computer looks for it, told to boot
/// the first UKI, and the directory of its menu is made.
#[verifier::rlimit(30)]
pub proof fn law_systemd_boot_follows_the_ukis(
    config: IsoConfigView,
    distro: DistroSettingsView,
    dir: Seq<u8>,
)
    requires
        are_named(config, ukis_of(config).len() as int),
    ensures
        ({
            let root = root_in(dir);
            let loader = inside(root, "loader"@);
            let w = work(iso_plan_in(config, distro, dir).steps);
            let menu = 4 + payload_count(config) + ukis_of(config).len() as int;
            &&& w[menu] == (StepView::Copy {
                from: encode_utf8("/usr/lib/systemd/boot/efi/systemd-bootx64.efi"@),
                to: inside(root, "EFI/BOOT/BOOTX64.EFI"@),
                context: None,
            })
            &&& w[menu + 1] == (StepView::CreateDir { path: loader, context: None })
            &&& w[menu + 2] matches StepView::WriteLoaderConf { path, config: said }
            &&& path == inside(loader, "loader.conf"@)
            &&& exists|first: UkiMenuEntryView|
                first.filename == name_of(ukis_of(config)[0]) && said == loader_config_of(
                    #[trigger] seq![first],
                )
            &&& w[menu + 3] matches StepView::CreateDir { path, .. }
            &&& path == inside(loader, "entries"@)
        }),
{
    let root = root_in(dir);
    let uki_dir = inside(root, "EFI/Linux"@);
    let entries = staged_all(config, distro, uki_dir).entries;
    let sys = systemd_boot_steps(root, entries);
    lemma_all_staged(config, distro, uki_dir);
    lemma_work_behind_ukis(config, distro, dir);
    law_systemd_boot_is_set_up(root, entries);
    law_menu_is_written_entry_by_entry(inside(root, "loader"@), entries, 0);
    assert(sys[3] == sys.skip(3)[0]);
    let w = work(iso_plan_in(config, distro, dir).steps);
    let menu = 4 + payload_count(config) + ukis_of(config).len() as int;
    assert(w[menu + 0] == sys[0]);
    assert(presents(entries[0], uki_dir, ukis_of(config)[0]));
    assert(seq![entries[0]][0] == entries[0]);
    assert(loader_config_of(entries) == loader_config_of(seq![entries[0]]));
}

/// When the menu is written, a fresh boot image of 200 MB is made and gets systemd-boot.
#[verifier::rlimit(30)]
pub proof fn law_boot_image_follows_the_menu(
    config: IsoConfigView,
    distro: DistroSettingsView,
    dir: Seq<u8>,
)
    requires
        are_named(config, ukis_of(config).len() as int),
    ensures
        ({
            let image = inside(dir, "efiboot.img"@);
            let w = work(iso_plan_in(config, distro, dir).steps);
            let n = ukis_of(config).len() as int;
            let fat = 4 + payload_count(config) + n + 4 + n;
            &&& w[fat] == (StepView::CreateFatImage { image, size_mb: 200 })
            &&& w[fat + 1] == (StepView::CreateEfiDirs { image })
            &&& w[fat + 2] == (StepView::MakeFatDir {
                name: path_lossy(image),
                dir: "::EFI/Linux"@,
                context: Some("mmd failed to create "@ + "::EFI/Linux"@),
            })
            &&& w[fat + 3] == (StepView::CopyToFat {
                image,
                from: inside(root_in(dir), "EFI/BOOT/BOOTX64.EFI"@),
                dir: "::EFI/BOOT/"@,
            })
        }),
{
    let root = root_in(dir);
    let uki_dir = inside(root, "EFI/Linux"@);
    let entries = staged_all(config, distro, uki_dir).entries;
    let img = efi_boot_image_steps(root, dir, entries);
    lemma_all_staged(config, distro, uki_dir);
    lemma_work_behind_ukis(config, distro, dir);
    law_boot_image_is_filled(root, dir, entries);
    let w = work(iso_plan_in(config, distro, dir).steps);
    let n = ukis_of(config).len() as int;
    let fat = 4 + payload_count(config) + n + 4 + n;
    assert(w[fat + 0] == img.skip(1)[0]);
    assert(w[fat + 1] == img.skip(1)[1]);
    assert(w[fat + 2] == img.skip(1)[2]);
    assert(w[fat + 3] == img.skip(1)[3]);
}

/// When the UKIs are in the boot image, it gets `loader.conf` and the menu; it is copied into the
/// ISO tree before it is removed where it was made. Behind that come the extra files and the ISO
/// itself.
#[verifier::rlimit(30)]
pub proof fn law_iso_follows_the_boot_image(
    config: IsoConfigView,
    distro: DistroSettingsView,
    dir: Seq<u8>,
)
    requires
        are_named(config, ukis_of(config).len() as int),
    ensures
        ({
            let root = root_in(dir);
            let image = inside(dir, "efiboot.img"@);
            let w = work(iso_plan_in(config, distro, dir).steps);
            let n = ukis_of(config).len() as int;
            let tail = 4 + payload_count(config) + n + 4 + n + 4 + n;
            &&& w[tail] == (StepView::MakeFatDir {
                name: path_lossy(image),
                dir: "::loader"@,
                context: Some("mmd failed to create "@ + "::loader"@),
            })
            &&& w[tail + 1] == (StepView::CopyToFat {
                image,
                from: inside(root, "loader/loader.conf"@),
                dir: "::loader/"@,
            })
            &&& w[tail + 2] == (StepView::CopyEntriesToFat {
                image,
                name: path_lossy(image),
                entries: inside(root, "loader/entries"@),
            })
            &&& w[tail + 3] == (StepView::Copy {
                from: image,
                to: inside(root, "efiboot.img"@),
                context: None,
            })
            &&& w[tail + 4] == (StepView::RemoveFile { path: image })
            &&& w.skip(tail + 5) == extra_files_steps(root, config.extra_files) + finishing(
                config,
                root,
            )
        }),
{
    let root = root_in(dir);
    let uki_dir = inside(root, "EFI/Linux"@);
    let entries = staged_all(config, distro, uki_dir).entries;
    let img = efi_boot_image_steps(root, dir, entries);
    lemma_all_staged(config, distro, uki_dir);
    lemma_work_behind_ukis(config, distro, dir);
    law_boot_image_is_filled(root, dir, entries);
    let w = work(iso_plan_in(config, distro, dir).steps);
    let n = ukis_of(config).len() as int;
    let fat = 4 + payload_count(config) + n + 4 + n;
    assert(w[fat + (4 + n)] == img.skip(1)[4 + n]);
    assert(w[fat + (5 + n)] == img.skip(1)[5 + n]);
    assert(w[fat + (6 + n)] == img.skip(1)[6 + n]);
    assert(w[fat + (7 + n)] == img.skip(1)[7 + n]);
    assert(w[fat + (8 + n)] == img.skip(1)[8 + n]);
}

/// Where the items of some sequences are when these are put together.
proof fn lemma_index_in<A>(
    all: Seq<A>,
    a: Seq<A>,
    b: Seq<A>,
    c: Seq<A>,
    d: Seq<A>,
    e: Seq<A>,
)
    requires
        all == a + b + c + d + e,
    ensures
        forall|i: int| 0 <= i < b.len() ==> all[a.len() + i] == #[trigger] b[i],
        forall|i: int|
            0 <= i < c.len() ==> all[a.len() + b.len() + i] == #[trigger] c[i],
        all.skip((a.len() + b.len() + c.len()) as int) == d + e,
{
    assert(all.skip((a.len() + b.len() + c.len()) as int) =~= d + e);
}

/// Where every UKI has a name, each of them is staged.
proof fn lemma_all_staged(config: IsoConfigView, distro: DistroSettingsView, uki_dir: Seq<u8>)
    requires
        are_named(config, ukis_of(config).len() as int),
    ensures
        ({
            let staged = staged_all(config, distro, uki_dir);
            let ukis = ukis_of(config);
            &&& !staged.nameless
            &&& staged.entries.len() == ukis.len()
            &&& ukis.len() > 0
            &&& work(staged.steps).len() == ukis.len()
            &&& forall|i: int|
                0 <= i < ukis.len() ==> presents(
                    staged.entries[i],
                    uki_dir,
                    #[trigger] ukis[i],
                )
        }),
{
    let staged = staged_all(config, distro, uki_dir);
    lemma_work_of_all_ukis(config, distro, uki_dir);
    if staged.nameless {
        assert(has_a_name(ukis_of(config)[staged.entries.len() as int]));
    }
}

/// Each UKI is in the menu, in the order of the UKIs: it has a file of its own there, named
/// after it, with its title, and with a `linux` line that names the file of the UKI in full.
#[verifier::rlimit(30)]
pub proof fn law_each_uki_is_in_the_menu(
    config: IsoConfigView,
    distro: DistroSettingsView,
    dir: Seq<u8>,
    i: int,
)
    requires
        are_named(config, ukis_of(config).len() as int),
        0 <= i < ukis_of(config).len(),
    ensures
        ({
            let w = work(iso_plan_in(config, distro, dir).steps);
            let uki = ukis_of(config)[i];
            let menu = 4 + payload_count(config) + ukis_of(config).len() as int;
            &&& w[menu + 4 + i] matches StepView::WriteFile { path, content, .. }
            &&& path == inside(
                inside(inside(root_in(dir), "loader"@), "entries"@),
                entry_id_of(name_of(uki)),
            )
            &&& content == "title "@ + title_of(uki) + "\nlinux /EFI/Linux/"@ + name_of(uki)
                + "\n"@
        }),
{
    let root = root_in(dir);
    let uki_dir = inside(root, "EFI/Linux"@);
    let entries = staged_all(config, distro, uki_dir).entries;
    lemma_all_staged(config, distro, uki_dir);
    lemma_work_behind_ukis(config, distro, dir);
    law_systemd_boot_is_set_up(root, entries);
    law_menu_is_written_entry_by_entry(inside(root, "loader"@), entries, i);
    let w = work(iso_plan_in(config, distro, dir).steps);
    let sys = systemd_boot_steps(root, entries);
    let menu = 4 + payload_count(config) + ukis_of(config).len() as int;
    assert(w[menu + (4 + i)] == sys[4 + i]);
    assert(sys[4 + i] == sys.skip(3)[1 + i]);
    assert(presents(entries[i], uki_dir, ukis_of(config)[i]));
}

/// Each UKI is in the boot image, copied there from where it is put into place, in the order of
/// the UKIs.
#[verifier::rlimit(30)]
pub proof fn law_each_uki_is_in_the_boot_image(
    config: IsoConfigView,
    distro: DistroSettingsView,
    dir: Seq<u8>,
    i: int,
)
    requires
        are_named(config, ukis_of(config).len() as int),
        0 <= i < ukis_of(config).len(),
    ensures
        ({
            let n = ukis_of(config).len() as int;
            let fat = 4 + payload_count(config) + n + 4 + n;
            work(iso_plan_in(config, distro, dir).steps)[fat + 4 + i] == (StepView::CopyToFat {
                image: inside(dir, "efiboot.img"@),
                from: place_of(ukis_of(config)[i], root_in(dir)),
                dir: "::EFI/Linux/"@,
            })
        }),
{
    let root = root_in(dir);
    let uki_dir = inside(root, "EFI/Linux"@);
    let entries = staged_all(config, distro, uki_dir).entries;
    lemma_all_staged(config, distro, uki_dir);
    lemma_work_behind_ukis(config, distro, dir);
    law_boot_image_is_filled(root, dir, entries);
    let w = work(iso_plan_in(config, distro, dir).steps);
    let img = efi_boot_image_steps(root, dir, entries);
    let n = ukis_of(config).len() as int;
    let fat = 4 + payload_count(config) + n + 4 + n;
    assert(w[fat + (4 + i)] == img.skip(1)[4 + i]);
    assert(img.skip(1)[4 + i] == img[5 + i]);
    assert(entries[i].path == place_of(ukis_of(config)[i], root)) by {
        assert(presents(entries[i], uki_dir, ukis_of(config)[i]));
    }
}

/// Every UKI that is asked for gets onto the ISO: in a creation that does not fail, the steps
/// hold the copy of each prebuilt one to its file name, and the build of each one to build, with
/// its own command line, to the file name that is asked for.
pub proof fn law_every_uki_gets_onto_the_iso(
    config: IsoConfigView,
    distro: DistroSettingsView,
    dir: Seq<u8>,
    i: int,
)
    requires
        iso_plan_in(config, distro, dir).failure is None,
        0 <= i < config.ukis.len(),
    ensures
        exists|step: StepView|
            iso_plan_in(config, distro, dir).steps.contains(step) && #[trigger] puts_in_place(
                step,
                config,
                distro,
                inside(root_in(dir), "EFI/Linux"@),
                config.ukis[i],
            ),
        config.ukis[i] matches UkiSourceView::Prebuilt(path) ==> {
            &&& path_file_name(path) matches Some(name)
            &&& iso_plan_in(config, distro, dir).steps.contains(
                StepView::Copy {
                    from: path,
                    to: path_joined(inside(root_in(dir), "EFI/Linux"@), name),
                    context: None,
                },
            )
        },
{
    let uki_dir = inside(root_in(dir), "EFI/Linux"@);
    let steps = iso_plan_in(config, distro, dir).steps;
    lemma_work_of_plan(config, distro, dir);
    lemma_work_of_all_ukis(config, distro, uki_dir);
    assert(ukis_of(config) == config.ukis);
    assert(are_named(config, i + 1));
    law_each_uki_is_put_in_place(config, distro, dir, i);
    let w = work(steps);
    let at = 4 + payload_count(config) + i;
    assert(w.contains(w[at]));
    steps.lemma_filter_contains_rev(|step: StepView| !(step is Note), w[at]);
}

/// A creation fails exactly where a UKI has no name.
pub proof fn law_creation_fails_iff_a_uki_is_nameless(
    config: IsoConfigView,
    distro: DistroSettingsView,
    dir: Seq<u8>,
)
    ensures
        iso_plan_in(config, distro, dir).failure is None <==> are_named(
            config,
            ukis_of(config).len() as int,
        ),
        iso_plan_in(config, distro, dir).failure matches Some(error) ==> error
            == IsoErrorView::UkiWithoutFilename,
{
    let uki_dir = inside(root_in(dir), "EFI/Linux"@);
    lemma_work_of_plan(config, distro, dir);
    lemma_work_of_all_ukis(config, distro, uki_dir);
    let staged = staged_all(config, distro, uki_dir);
    if staged.nameless {
        assert(!has_a_name(ukis_of(config)[staged.entries.len() as int]));
    }
}

/// Where no UKI is asked for, an ISO is created as if the one were asked for that is named after
/// the OS or the label.
pub proof fn law_no_uki_means_the_fallback(
    config: IsoConfigView,
    distro: DistroSettingsView,
    dir: Seq<u8>,
)
    requires
        config.ukis.len() == 0,
    ensures
        iso_plan_in(config, distro, dir) == iso_plan_in(
            (IsoConfigView { ukis: seq![fallback(config)], ..config }),
            distro,
            dir,
        ),
{
    let root = root_in(dir);
    let uki_dir = inside(root, "EFI/Linux"@);
    let asked = IsoConfigView { ukis: seq![fallback(config)], ..config };
    law_without_ukis_there_is_a_fallback(config, distro, uki_dir);
    law_without_ukis_there_is_a_fallback(asked, distro, uki_dir);
    let uki = fallback(config);
    assert(seq![uki] =~= Seq::empty().push(uki));
    law_ukis_are_staged_in_order(config, distro, uki_dir, Seq::empty(), uki);
    law_ukis_are_staged_in_order(asked, distro, uki_dir, Seq::empty(), uki);
    assert(staged_ukis(config, distro, uki_dir, seq![uki]) =~= staged_ukis(
        asked,
        distro,
        uki_dir,
        seq![uki],
    ));
}

} // verus!
