//! What holds of the library as a whole.
pub mod inputs;
pub mod menu;
pub mod models;
pub mod options;
pub mod parts;
pub mod plan;
pub mod steps;
pub mod texts;
pub mod ukis;

use crate::boot::{
    boot_head_steps, efi_boot_image_steps, entries_to_fat_steps, fat_uki_step, image_head_steps,
    image_tail_steps, is_found_entry, spelled_out, systemd_boot_steps, uefi_boot_plan, uki_dir_of,
};
use crate::checks::{
    exists_check, input_checks_view, overlay_checks, uki_checks, verdict, InputCheckView, Probe,
    ValidationView, SYSTEMD_BOOT,
};
use crate::cli::{
    branding_of, build_uki_of, build_ukis_of, config_of, extra_file_of, extra_files_of, is_partial_branding,
    CliOptionsView,
};
use crate::config::{IsoConfigView, LivePayloadLayout, UkiSourceView};
use crate::distro::DistroSettingsView;
use crate::error::IsoErrorView;
use crate::iso::{
    appended_partitions_of, core_copy, core_files_steps, extra_file_steps, extra_files_steps,
    final_steps, first_steps, in_tree, iso_plan, iso_progress, iso_root_in, output_dir_of,
    payload_steps,
};
use crate::loader::{
    entry_copy_step, entry_id_of, entry_step, is_entry_extension, is_entry_path, loader_config_of,
    UkiMenuEntryView,
};
use crate::paths::{below, dot, extension_of, path_file_name, path_joined, path_lossy, path_shown};
use crate::step::{first_end, next_of, NextView, StepView};
use crate::text::{split_once_at, trimmed_end};
use crate::uki::{cmdline_with, iso_cmdline, staged_all, staged_default, staged_uki, staged_ukis};
use vstd::prelude::*;
use vstd::utf8::{encode_utf8, is_ascii_chars_encode_utf8};

verus! {

/// A text without the copies of a suffix at its end does not end with the suffix, and is a
/// prefix of the text.
pub proof fn law_trimmed_is_bare(text: Seq<char>, suffix: Seq<char>)
    requires
        suffix.len() > 0,
    ensures
        !suffix.is_suffix_of(trimmed_end(text, suffix)),
        trimmed_end(text, suffix).is_prefix_of(text),
    decreases text.len(),
{
    if suffix.is_suffix_of(text) {
        let rest = text.take(text.len() - suffix.len());
        law_trimmed_is_bare(rest, suffix);
        assert(trimmed_end(text, suffix) =~= text.subrange(
            0,
            trimmed_end(text, suffix).len() as int,
        ));
    } else {
        assert(text =~= text.subrange(0, text.len() as int));
    }
}

/// One more suffix at the end of a text is trimmed like the others.
pub proof fn law_trimming_takes_suffix(text: Seq<char>, suffix: Seq<char>)
    requires
        suffix.len() > 0,
    ensures
        trimmed_end(text + suffix, suffix) == trimmed_end(text, suffix),
{
    assert((text + suffix).subrange(text.len() as int, (text + suffix).len() as int) =~= suffix);
    assert((text + suffix).take(text.len() as int) =~= text);
}

/// The file of a menu entry has the name of its UKI with `.conf` in place of `.efi`.
pub proof fn law_entry_id_swaps_extension(stem: Seq<char>)
    requires
        !".efi"@.is_suffix_of(stem),
    ensures
        entry_id_of(stem + ".efi"@) == stem + ".conf"@,
{
    reveal_strlit(".efi");
    law_trimming_takes_suffix(stem, ".efi"@);
}

/// The default entry in `loader.conf` is the file of the first menu entry: with `.conf` behind
/// it, it is the name of that file, unless that name had `.conf` more than once at its end.
pub proof fn law_default_entry_is_first(entries: Seq<UkiMenuEntryView>)
    requires
        entries.len() > 0,
        !".conf"@.is_suffix_of(trimmed_end(entries[0].filename, ".efi"@)),
    ensures
        loader_config_of(entries).default_entry + ".conf"@ == entry_id_of(entries[0].filename),
{
    reveal_strlit(".conf");
    law_trimming_takes_suffix(trimmed_end(entries[0].filename, ".efi"@), ".conf"@);
}

/// Text in UTF-8 is put together like the text.
proof fn lemma_encode_concat(a: Seq<char>, b: Seq<char>)
    ensures
        encode_utf8(a + b) == encode_utf8(a) + encode_utf8(b),
    decreases a.len(),
{
    if a.len() == 0 {
        assert(a + b =~= b);
        assert(encode_utf8(a) + encode_utf8(b) =~= encode_utf8(b));
    } else {
        assert((a + b).drop_first() =~= a.drop_first() + b);
        lemma_encode_concat(a.drop_first(), b);
        assert((a + b)[0] == a[0]);
        assert(encode_utf8(a + b) =~= encode_utf8(a) + encode_utf8(b));
    }
}

/// Text that is not empty has bytes.
proof fn lemma_encode_nonempty(a: Seq<char>)
    requires
        a.len() > 0,
    ensures
        encode_utf8(a).len() > 0,
{
    vstd::utf8::encode_utf8_decode_utf8(a);
    if encode_utf8(a).len() == 0 {
        assert(vstd::utf8::decode_utf8(encode_utf8(a)).len() == 0);
    }
}

/// The file of every menu entry is known by its extension as a menu entry, but for that of a
/// UKI whose name is nothing but `.efi`, once, repeated or not at all.
pub proof fn law_entry_files_are_entries(filename: Seq<char>)
    requires
        trimmed_end(filename, ".efi"@).len() > 0,
    ensures
        is_entry_extension(extension_of(encode_utf8(entry_id_of(filename)))),
{
    let stem = trimmed_end(filename, ".efi"@);
    let name = encode_utf8(entry_id_of(filename));
    reveal_strlit(".conf");
    reveal_strlit("conf");
    lemma_encode_concat(stem, ".conf"@);
    lemma_encode_nonempty(stem);
    is_ascii_chars_encode_utf8(".conf"@);
    is_ascii_chars_encode_utf8("conf"@);
    let at = encode_utf8(stem).len() as int;
    assert(name.len() == at + 5);
    assert(name[at] == dot());
    assert(name.skip(at + 1) =~= encode_utf8("conf"@));
    name.index_of_last_ensures(dot());
    assert(name.contains(name[at]));
    let last = name.index_of_last(dot())->0;
    assert(name[at + 1] == 'c' as u8);
    assert(name[at + 2] == 'o' as u8);
    assert(name[at + 3] == 'n' as u8);
    assert(name[at + 4] == 'f' as u8);
    assert(last == at);
}

/// A no to a question is answered with the error of that question.
pub proof fn law_no_rejects(checks: Seq<InputCheckView>, answers: Seq<bool>)
    requires
        verdict(checks, answers) is Ask,
    ensures
        verdict(checks, answers.push(false)) == ValidationView::Rejected(
            verdict(checks, answers)->Ask_0.failure,
        ),
{
    let more = answers.push(false);
    answers.index_of_first_ensures(false);
    more.index_of_first_ensures(false);
    assert(more[answers.len() as int] == false);
    let first = more.index_of_first(false)->0;
    assert(first == answers.len()) by {
        if first < answers.len() {
            assert(answers[first] == false);
            assert(answers.contains(false));
        }
    }
}

/// A yes to a question leads to the next question, or to acceptance after the last one.
pub proof fn law_yes_goes_on(checks: Seq<InputCheckView>, answers: Seq<bool>)
    requires
        verdict(checks, answers) is Ask,
    ensures
        verdict(checks, answers.push(true)) == if answers.len() + 1 < checks.len() {
            ValidationView::Ask(checks[(answers.len() + 1) as int])
        } else {
            ValidationView::Accepted
        },
{
    let more = answers.push(true);
    answers.index_of_first_ensures(false);
    more.index_of_first_ensures(false);
    if more.contains(false) {
        let at = choose|i: int| 0 <= i < more.len() && more[i] == false;
        assert(answers[at] == false);
        assert(answers.contains(false));
    }
}

/// Something is done only when every input was found to be there.
pub proof fn law_ready_iff_all_found(
    config: IsoConfigView,
    distro: DistroSettingsView,
    answers: Seq<bool>,
)
    ensures
        iso_progress(config, distro, answers) is Ready <==> {
            &&& answers.len() >= input_checks_view(config).len()
            &&& forall|i: int| 0 <= i < input_checks_view(config).len() ==> #[trigger] answers[i]
        },
{
    let checks = input_checks_view(config);
    answers.index_of_first_ensures(false);
    if verdict(checks, answers) is Accepted {
        assert forall|i: int| 0 <= i < checks.len() implies #[trigger] answers[i] by {
            if answers.index_of_first(false) is None && !answers[i] {
                assert(answers.contains(answers[i]));
            }
        }
    }
}

/// One check of a prebuilt UKI is among the checks of all UKIs.
proof fn lemma_uki_checked(ukis: Seq<UkiSourceView>, i: int)
    requires
        0 <= i < ukis.len(),
        ukis[i] is Prebuilt,
    ensures
        uki_checks(ukis).contains(
            exists_check(ukis[i]->Prebuilt_0, IsoErrorView::UkiNotFound(ukis[i]->Prebuilt_0)),
        ),
    decreases ukis.len(),
{
    let check = exists_check(
        ukis[i]->Prebuilt_0,
        IsoErrorView::UkiNotFound(ukis[i]->Prebuilt_0),
    );
    let before = uki_checks(ukis.drop_last());
    if i == ukis.len() - 1 {
        assert(uki_checks(ukis)[before.len() as int] == check);
    } else {
        lemma_uki_checked(ukis.drop_last(), i);
        let at = choose|j: int| 0 <= j < before.len() && before[j] == check;
        assert(uki_checks(ukis)[at] == check);
    }
}

/// What one of two sequences contains, both together contain.
proof fn lemma_contains_add<A>(a: Seq<A>, b: Seq<A>, x: A)
    ensures
        (a + b).contains(x) <==> a.contains(x) || b.contains(x),
{
    if a.contains(x) {
        let i = choose|i: int| 0 <= i < a.len() && a[i] == x;
        assert((a + b)[i] == x);
    }
    if b.contains(x) {
        let i = choose|i: int| 0 <= i < b.len() && b[i] == x;
        assert((a + b)[a.len() + i] == x);
    }
    if (a + b).contains(x) {
        let i = choose|i: int| 0 <= i < (a + b).len() && (a + b)[i] == x;
        if i < a.len() {
            assert(a[i] == x);
        } else {
            assert(b[i - a.len()] == x);
        }
    }
}

/// Every input that an ISO is made from is asked for: kernel, initramfs, rootfs, overlay image,
/// systemd-boot.
pub proof fn law_inputs_are_checked(config: IsoConfigView)
    ensures
        ({
            let checks = input_checks_view(config);
            let boot = encode_utf8(SYSTEMD_BOOT@);
            &&& checks[0] == exists_check(
                config.kernel,
                IsoErrorView::KernelNotFound(config.kernel),
            )
            &&& checks[1] == exists_check(
                config.initrd,
                IsoErrorView::InitrdNotFound(config.initrd),
            )
            &&& checks[2] == exists_check(
                config.rootfs,
                IsoErrorView::RootfsNotFound(config.rootfs),
            )
            &&& config.overlay_image matches Some(overlay) ==> checks[3] == exists_check(
                overlay,
                IsoErrorView::OverlayNotFound(overlay),
            ) && checks[4] == (InputCheckView {
                path: overlay,
                probe: Probe::IsFile,
                failure: IsoErrorView::OverlayNotAFile(overlay),
            })
            &&& checks.last() == exists_check(boot, IsoErrorView::SystemdBootNotFound(boot))
        }),
{
}

/// Every prebuilt UKI is asked for.
pub proof fn law_prebuilt_ukis_are_checked(config: IsoConfigView, i: int)
    requires
        0 <= i < config.ukis.len(),
        config.ukis[i] is Prebuilt,
    ensures
        input_checks_view(config).contains(
            exists_check(
                config.ukis[i]->Prebuilt_0,
                IsoErrorView::UkiNotFound(config.ukis[i]->Prebuilt_0),
            ),
        ),
{
    let check = exists_check(
        config.ukis[i]->Prebuilt_0,
        IsoErrorView::UkiNotFound(config.ukis[i]->Prebuilt_0),
    );
    let boot = encode_utf8(SYSTEMD_BOOT@);
    let first = seq![
        exists_check(config.kernel, IsoErrorView::KernelNotFound(config.kernel)),
        exists_check(config.initrd, IsoErrorView::InitrdNotFound(config.initrd)),
        exists_check(config.rootfs, IsoErrorView::RootfsNotFound(config.rootfs)),
    ] + overlay_checks(config.overlay_image);
    let last = seq![exists_check(boot, IsoErrorView::SystemdBootNotFound(boot))];
    lemma_uki_checked(config.ukis, i);
    lemma_contains_add(first, uki_checks(config.ukis), check);
    lemma_contains_add(first + uki_checks(config.ukis), last, check);
}

/// A text that is put together from two parts and a delimiter, which the first part does not
/// have in it, is split into these parts.
pub proof fn law_split_undoes_join(first: Seq<char>, delimiter: char, second: Seq<char>)
    requires
        !first.contains(delimiter),
    ensures
        split_once_at(first.push(delimiter) + second, delimiter) == Some((first, second)),
{
    let text = first.push(delimiter) + second;
    text.index_of_first_ensures(delimiter);
    assert(text[first.len() as int] == delimiter);
    assert(text.contains(delimiter));
    let at = text.index_of_first(delimiter)->0;
    if at < first.len() {
        assert(first[at] == delimiter);
    }
    assert(at == first.len());
    assert(text.take(at) =~= first);
    assert(text.skip(at + 1) =~= second);
}

/// A text that is split is put together again from the parts and the delimiter, and the first
/// part does not have the delimiter in it.
pub proof fn law_join_undoes_split(text: Seq<char>, delimiter: char)
    requires
        split_once_at(text, delimiter) is Some,
    ensures
        ({
            let (first, second) = split_once_at(text, delimiter)->0;
            &&& first.push(delimiter) + second == text
            &&& !first.contains(delimiter)
        }),
{
    text.index_of_first_ensures(delimiter);
    let (first, second) = split_once_at(text, delimiter)->0;
    assert(first.push(delimiter) + second =~= text);
    if first.contains(delimiter) {
        let i = choose|i: int| 0 <= i < first.len() && first[i] == delimiter;
        assert(text[i] == delimiter);
    }
}

/// A UKI to build that is written as "name:extra_cmdline:filename" is read back as it is, where
/// neither the name nor the parameters have a colon in them.
pub proof fn law_build_uki_round_trip(
    name: Seq<char>,
    extra_cmdline: Seq<char>,
    filename: Seq<char>,
)
    requires
        !name.contains(':'),
        !extra_cmdline.contains(':'),
    ensures
        build_uki_of(name.push(':') + (extra_cmdline.push(':') + filename)) == Some(
            UkiSourceView::Build { name, extra_cmdline, filename },
        ),
{
    law_split_undoes_join(name, ':', extra_cmdline.push(':') + filename);
    law_split_undoes_join(extra_cmdline, ':', filename);
}

/// A text that asks for a UKI to build is the UKI, written as "name:extra_cmdline:filename".
pub proof fn law_build_uki_written_back(text: Seq<char>)
    requires
        build_uki_of(text) is Some,
    ensures
        build_uki_of(text) matches Some(UkiSourceView::Build { name, extra_cmdline, filename })
            && text == name.push(':') + (extra_cmdline.push(':') + filename),
{
    law_join_undoes_split(text, ':');
    let (_, rest) = split_once_at(text, ':')->0;
    law_join_undoes_split(rest, ':');
}

/// An extra file that is written as "src:dst" is read back as it is, where the source has no
/// colon in it and neither of them is empty.
pub proof fn law_extra_file_round_trip(source: Seq<char>, dst: Seq<char>)
    requires
        !source.contains(':'),
        source.len() > 0,
        dst.len() > 0,
    ensures
        extra_file_of(source.push(':') + dst) == Some((encode_utf8(source), dst)),
{
    law_split_undoes_join(source, ':', dst);
}

/// Branding is partial, which the user is warned of, exactly where it is given and then not used.
pub proof fn law_partial_branding_is_dropped(options: CliOptionsView)
    ensures
        is_partial_branding(options) <==> {
            &&& options.os_name is Some || options.os_id is Some || options.os_version is Some
            &&& branding_of(options.os_name, options.os_id, options.os_version) is None
        },
{
}

/// With nothing but the five options that are required, the configuration is the basic one.
pub proof fn law_required_options_suffice(options: CliOptionsView)
    requires
        options.ukis.len() == 0,
        options.build_ukis.len() == 0,
        options.extra_files.len() == 0,
        options.overlay_image is None,
        options.os_name is None,
        options.os_id is None,
        options.os_version is None,
        !options.no_checksum,
        options.live_payload_layout == LivePayloadLayout::AppendedPartitions,
    ensures
        config_of(options) == Ok::<IsoConfigView, IsoErrorView>(
            IsoConfigView::basic(
                options.kernel,
                options.initrd,
                options.rootfs,
                options.label,
                options.output,
            ),
        ),
{
    assert(config_of(options)->Ok_0 =~= IsoConfigView::basic(
        options.kernel,
        options.initrd,
        options.rootfs,
        options.label,
        options.output,
    ));
}

/// Either every text asks for a UKI, and they are built in that order, or one does not.
pub proof fn law_build_ukis_in_order(texts: Seq<Seq<char>>)
    ensures
        match build_ukis_of(texts) {
            Ok(ukis) => ukis.len() == texts.len() && forall|i: int|
                0 <= i < texts.len() ==> build_uki_of(#[trigger] texts[i]) == Some(ukis[i]),
            Err(text) => exists|i: int|
                0 <= i < texts.len() && #[trigger] texts[i] == text && build_uki_of(text) is None
                    && forall|j: int| 0 <= j < i ==> build_uki_of(#[trigger] texts[j]) is Some,
        },
    decreases texts.len(),
{
    if texts.len() > 0 {
        let before = texts.drop_last();
        law_build_ukis_in_order(before);
        match build_ukis_of(before) {
            Ok(ukis) => {
                assert forall|j: int| 0 <= j < before.len() implies build_uki_of(
                    #[trigger] texts[j],
                ) == Some(ukis[j]) by {
                    assert(before[j] == texts[j]);
                }
                if build_uki_of(texts.last()) is None {
                    assert(texts[texts.len() - 1] == texts.last());
                }
            },
            Err(text) => {
                let i = choose|i: int|
                    0 <= i < before.len() && #[trigger] before[i] == text && build_uki_of(
                        text,
                    ) is None && forall|j: int|
                        0 <= j < i ==> build_uki_of(#[trigger] before[j]) is Some;
                assert(texts[i] == text);
                assert forall|j: int| 0 <= j < i implies build_uki_of(
                    #[trigger] texts[j],
                ) is Some by {
                    assert(before[j] == texts[j]);
                }
            },
        }
    }
}

/// Either every text asks for an extra file, and they are copied in that order, or one does not.
pub proof fn law_extra_files_in_order(texts: Seq<Seq<char>>)
    ensures
        match extra_files_of(texts) {
            Ok(files) => files.len() == texts.len() && forall|i: int|
                0 <= i < texts.len() ==> extra_file_of(#[trigger] texts[i]) == Some(files[i]),
            Err(text) => exists|i: int|
                0 <= i < texts.len() && #[trigger] texts[i] == text && extra_file_of(text) is None
                    && forall|j: int| 0 <= j < i ==> extra_file_of(#[trigger] texts[j]) is Some,
        },
    decreases texts.len(),
{
    if texts.len() > 0 {
        let before = texts.drop_last();
        law_extra_files_in_order(before);
        match extra_files_of(before) {
            Ok(files) => {
                assert forall|j: int| 0 <= j < before.len() implies extra_file_of(
                    #[trigger] texts[j],
                ) == Some(files[j]) by {
                    assert(before[j] == texts[j]);
                }
                if extra_file_of(texts.last()) is None {
                    assert(texts[texts.len() - 1] == texts.last());
                }
            },
            Err(text) => {
                let i = choose|i: int|
                    0 <= i < before.len() && #[trigger] before[i] == text && extra_file_of(
                        text,
                    ) is None && forall|j: int|
                        0 <= j < i ==> extra_file_of(#[trigger] before[j]) is Some;
                assert(texts[i] == text);
                assert forall|j: int| 0 <= j < i implies extra_file_of(
                    #[trigger] texts[j],
                ) is Some by {
                    assert(before[j] == texts[j]);
                }
            },
        }
    }
}

/// Whether a UKI is prebuilt and its path names no file.
pub open spec fn is_nameless(uki: UkiSourceView) -> bool {
    uki matches UkiSourceView::Prebuilt(path) && path_file_name(path) is None
}

/// What staging UKIs one after the other comes to.
proof fn lemma_staged_ukis(
    config: IsoConfigView,
    distro: DistroSettingsView,
    uki_dir: Seq<u8>,
    ukis: Seq<UkiSourceView>,
)
    ensures
        ({
            let staged = staged_ukis(config, distro, uki_dir, ukis);
            &&& staged.nameless <==> exists|i: int|
                0 <= i < ukis.len() && is_nameless(#[trigger] ukis[i])
            &&& !staged.nameless ==> staged.entries.len() == ukis.len() && forall|i: int|
                0 <= i < ukis.len() ==> staged_uki(config, distro, uki_dir, #[trigger] ukis[i])
                    is Some && staged_uki(config, distro, uki_dir, ukis[i])->0.entry
                    == staged.entries[i]
            &&& forall|i: int|
                0 <= i < staged.steps.len() ==> is_uki_step(
                    config,
                    distro,
                    uki_dir,
                    #[trigger] staged.steps[i],
                )
        }),
    decreases ukis.len(),
{
    if ukis.len() > 0 {
        let before = ukis.drop_last();
        lemma_staged_ukis(config, distro, uki_dir, before);
        let staged_before = staged_ukis(config, distro, uki_dir, before);
        let staged = staged_ukis(config, distro, uki_dir, ukis);
        assert(forall|i: int| 0 <= i < before.len() ==> before[i] == #[trigger] ukis[i]);
        if staged_before.nameless {
            let i = choose|i: int| 0 <= i < before.len() && is_nameless(#[trigger] before[i]);
            assert(is_nameless(ukis[i]));
        } else {
            assert(ukis[ukis.len() - 1] == ukis.last());
            match staged_uki(config, distro, uki_dir, ukis.last()) {
                Some(last) => {
                    assert(!is_nameless(ukis.last()));
                    if exists|i: int| 0 <= i < ukis.len() && is_nameless(#[trigger] ukis[i]) {
                        let i = choose|i: int| 0 <= i < ukis.len() && is_nameless(#[trigger] ukis[i]);
                        assert(is_nameless(before[i]));
                    }
                    match ukis.last() {
                        UkiSourceView::Prebuilt(path) => {},
                        UkiSourceView::Build { name, extra_cmdline, filename } => {
                            lemma_cmdline_prefix(iso_cmdline(config, distro), extra_cmdline);
                        },
                    }
                },
                None => {
                    assert(is_nameless(ukis[ukis.len() - 1]));
                },
            }
        }
    }
}

/// A command line starts with what it was put behind.
proof fn lemma_cmdline_prefix(base: Seq<char>, extra: Seq<char>)
    ensures
        base.is_prefix_of(cmdline_with(base, extra)),
{
    assert(base =~= cmdline_with(base, extra).subrange(0, base.len() as int));
}

/// A step that puts a UKI into `uki_dir`: it copies a prebuilt one, or builds one from the kernel
/// and the initramfs of the ISO, with its branding, and a command line that starts with that of
/// the ISO, or tells the user of it.
pub open spec fn is_uki_step(
    config: IsoConfigView,
    distro: DistroSettingsView,
    uki_dir: Seq<u8>,
    step: StepView,
) -> bool {
    match step {
        StepView::Note(_) => true,
        StepView::Copy { to, context, .. } => {
            &&& exists|name: Seq<u8>| to == #[trigger] path_joined(uki_dir, name)
            &&& context is None
        },
        StepView::BuildUki(uki) => {
            &&& exists|name: Seq<u8>| uki.output == #[trigger] path_joined(uki_dir, name)
            &&& uki.kernel == config.kernel
            &&& uki.initrd == config.initrd
            &&& uki.os_release == config.os_release
            &&& iso_cmdline(config, distro).is_prefix_of(uki.cmdline)
        },
        _ => false,
    }
}

/// UKIs get into the ISO tree by steps for UKIs only; in particular, each one that is built boots
/// the kernel and the initramfs of the ISO with a command line that starts with that of the ISO.
pub proof fn law_ukis_boot_the_iso(
    config: IsoConfigView,
    distro: DistroSettingsView,
    uki_dir: Seq<u8>,
    i: int,
)
    requires
        0 <= i < staged_all(config, distro, uki_dir).steps.len(),
    ensures
        is_uki_step(config, distro, uki_dir, staged_all(config, distro, uki_dir).steps[i]),
{
    lemma_staged_ukis(config, distro, uki_dir, config.ukis);
    let base = iso_cmdline(config, distro);
    assert(base =~= base.subrange(0, base.len() as int));
}

/// The boot menu has the UKIs that are asked for, in their order, or else the default one: it is
/// never empty.
pub proof fn law_menu_follows_ukis(
    config: IsoConfigView,
    distro: DistroSettingsView,
    uki_dir: Seq<u8>,
)
    requires
        forall|i: int| 0 <= i < config.ukis.len() ==> !is_nameless(#[trigger] config.ukis[i]),
    ensures
        ({
            let staged = staged_all(config, distro, uki_dir);
            &&& !staged.nameless
            &&& config.ukis.len() == 0 ==> staged.entries == seq![
                staged_default(config, distro, uki_dir).entry,
            ]
            &&& config.ukis.len() > 0 ==> staged.entries.len() == config.ukis.len()
            &&& forall|i: int|
                0 <= i < config.ukis.len() ==> staged_uki(
                    config,
                    distro,
                    uki_dir,
                    #[trigger] config.ukis[i],
                ) is Some && staged_uki(config, distro, uki_dir, config.ukis[i])->0.entry
                    == staged.entries[i]
        }),
{
    lemma_staged_ukis(config, distro, uki_dir, config.ukis);
}

/// The creation of an ISO is given up exactly where a prebuilt UKI has no file name, and then
/// for that reason.
pub proof fn law_fails_iff_nameless(config: IsoConfigView, distro: DistroSettingsView)
    ensures
        iso_plan(config, distro).failure is Some <==> exists|i: int|
            0 <= i < config.ukis.len() && is_nameless(#[trigger] config.ukis[i]),
        iso_plan(config, distro).failure matches Some(error) ==> error
            == IsoErrorView::UkiWithoutFilename,
{
    lemma_staged_ukis(
        config,
        distro,
        uki_dir_of(iso_root_in(output_dir_of(config))),
        config.ukis,
    );
}

/// The live payloads are placed once: as files in the ISO filesystem, and then no partition is
/// appended, or as partitions, and then no file is copied for them.
pub proof fn law_payloads_placed_once(
    config: IsoConfigView,
    distro: DistroSettingsView,
    iso_root: Seq<u8>,
)
    ensures
        ({
            let steps = payload_steps(config, distro, iso_root);
            let appended = appended_partitions_of(config);
            match config.live_payload_layout {
                LivePayloadLayout::IsoFiles => {
                    &&& appended.len() == 0
                    &&& steps[1] == core_copy(
                        config.rootfs,
                        below(iso_root, distro.rootfs_iso_path),
                        "Failed to copy rootfs"@,
                    )
                    &&& match config.overlay_image {
                        Some(overlay_image) => steps.len() == 4 && steps[3] == core_copy(
                            overlay_image,
                            below(iso_root, distro.live_overlayfs_iso_path),
                            "Failed to copy live overlay image"@,
                        ),
                        None => steps.len() == 2,
                    }
                },
                LivePayloadLayout::AppendedPartitions => {
                    &&& forall|i: int| 0 <= i < steps.len() ==> #[trigger] steps[i] is Note
                    &&& appended[0].path == config.rootfs && appended[0].index == 2
                    &&& match config.overlay_image {
                        Some(overlay_image) => appended.len() == 2 && appended[1].path
                            == overlay_image && appended[1].index == 3,
                        None => appended.len() == 1,
                    }
                },
            }
        }),
{
}

/// What one element is mapped to is contained in what all are mapped to.
proof fn lemma_map_contains<A, B>(s: Seq<A>, f: spec_fn(A) -> B, i: int)
    requires
        0 <= i < s.len(),
    ensures
        s.map_values(f).contains(f(s[i])),
{
    assert(s.map_values(f)[i] == f(s[i]));
}

/// A step of the parts of a plan that succeeds is a step of the plan.
proof fn lemma_in_plan(config: IsoConfigView, distro: DistroSettingsView, step: StepView)
    requires
        iso_plan(config, distro).failure is None,
    ensures
        ({
            let output_dir = output_dir_of(config);
            let iso_root = iso_root_in(output_dir);
            let staged = staged_all(config, distro, uki_dir_of(iso_root));
            iso_plan(config, distro).steps.contains(step) <==> {
                ||| first_steps(iso_root).contains(step)
                ||| core_files_steps(config, distro, iso_root).contains(step)
                ||| boot_head_steps(iso_root).contains(step)
                ||| staged.steps.contains(step)
                ||| systemd_boot_steps(iso_root, staged.entries).contains(step)
                ||| efi_boot_image_steps(iso_root, output_dir, staged.entries).contains(step)
                ||| extra_files_steps(iso_root, config.extra_files).contains(step)
                ||| final_steps(config, iso_root).contains(step)
            }
        }),
{
    let output_dir = output_dir_of(config);
    let iso_root = iso_root_in(output_dir);
    let staged = staged_all(config, distro, uki_dir_of(iso_root));
    let a = first_steps(iso_root);
    let b = core_files_steps(config, distro, iso_root);
    let c = boot_head_steps(iso_root);
    let d = staged.steps;
    let e = systemd_boot_steps(iso_root, staged.entries);
    let f = efi_boot_image_steps(iso_root, output_dir, staged.entries);
    let g = extra_files_steps(iso_root, config.extra_files);
    let h = final_steps(config, iso_root);
    lemma_contains_add(c, d, step);
    lemma_contains_add(c + d, e, step);
    lemma_contains_add(c + d + e, f, step);
    lemma_contains_add(a, b, step);
    lemma_contains_add(a + b, c + d + e + f, step);
    lemma_contains_add(a + b + (c + d + e + f), g, step);
    lemma_contains_add(a + b + (c + d + e + f) + g, h, step);
}

/// Every UKI of the boot menu can be booted: it is described by a file of its own, which names
/// it, and it is in the boot image.
pub proof fn law_menu_entries_are_bootable(
    config: IsoConfigView,
    distro: DistroSettingsView,
    i: int,
)
    requires
        iso_plan(config, distro).failure is None,
        0 <= i < staged_all(
            config,
            distro,
            uki_dir_of(iso_root_in(output_dir_of(config))),
        ).entries.len(),
    ensures
        ({
            let output_dir = output_dir_of(config);
            let iso_root = iso_root_in(output_dir);
            let entry = staged_all(config, distro, uki_dir_of(iso_root)).entries[i];
            let steps = iso_plan(config, distro).steps;
            &&& steps.contains(entry_step(below(below(iso_root, "loader"@), "entries"@), entry))
            &&& steps.contains(fat_uki_step(below(output_dir, "efiboot.img"@), entry))
        }),
{
    let output_dir = output_dir_of(config);
    let iso_root = iso_root_in(output_dir);
    let entries = staged_all(config, distro, uki_dir_of(iso_root)).entries;
    let entry = entries[i];
    let loader_dir = below(iso_root, "loader"@);
    let entries_dir = below(loader_dir, "entries"@);
    let image = below(output_dir, "efiboot.img"@);
    let file_step = entry_step(entries_dir, entry);
    let fat_step = fat_uki_step(image, entry);
    assert(systemd_boot_steps(iso_root, entries)[3 + 1 + i] == file_step);
    let f = |entry: UkiMenuEntryView| fat_uki_step(image, entry);
    lemma_map_contains(entries, f, i);
    assert(f(entry) == fat_step);
    lemma_contains_add(image_head_steps(iso_root, image), entries.map_values(f), fat_step);
    lemma_contains_add(
        image_head_steps(iso_root, image) + entries.map_values(f),
        image_tail_steps(iso_root, image),
        fat_step,
    );
    lemma_in_plan(config, distro, file_step);
    lemma_in_plan(config, distro, fat_step);
}

/// The ISO is booted by systemd-boot, which is put into the ISO tree and into the boot image
/// with its configuration; and the boot image is put into the ISO tree, where xorriso is told to
/// find it.
pub proof fn law_systemd_boot_is_installed(config: IsoConfigView, distro: DistroSettingsView)
    requires
        iso_plan(config, distro).failure is None,
    ensures
        ({
            let output_dir = output_dir_of(config);
            let iso_root = iso_root_in(output_dir);
            let image = below(output_dir, "efiboot.img"@);
            let installed = below(iso_root, "EFI/BOOT/BOOTX64.EFI"@);
            let steps = iso_plan(config, distro).steps;
            &&& steps.contains(
                StepView::Copy {
                    from: encode_utf8(SYSTEMD_BOOT@),
                    to: installed,
                    context: None,
                },
            )
            &&& steps.contains(
                StepView::CopyToFat { image, from: installed, dir: "::EFI/BOOT/"@ },
            )
            &&& steps.contains(
                StepView::CopyToFat {
                    image,
                    from: below(iso_root, "loader/loader.conf"@),
                    dir: "::loader/"@,
                },
            )
            &&& steps.contains(
                StepView::Copy { from: image, to: below(iso_root, "efiboot.img"@), context: None },
            )
            &&& steps.contains(
                StepView::RunXorriso {
                    root: iso_root,
                    output: config.output,
                    label: config.label,
                    boot_image: "efiboot.img"@,
                    appended: appended_partitions_of(config),
                },
            )
        }),
{
    let output_dir = output_dir_of(config);
    let iso_root = iso_root_in(output_dir);
    let image = below(output_dir, "efiboot.img"@);
    let installed = below(iso_root, "EFI/BOOT/BOOTX64.EFI"@);
    let entries = staged_all(config, distro, uki_dir_of(iso_root)).entries;
    let f = |entry: UkiMenuEntryView| fat_uki_step(image, entry);
    let head = image_head_steps(iso_root, image);
    let ukis = entries.map_values(f);
    let tail = image_tail_steps(iso_root, image);
    assert(efi_boot_image_steps(iso_root, output_dir, entries) == head + ukis + tail);

    let copied = StepView::Copy {
        from: encode_utf8(SYSTEMD_BOOT@),
        to: installed,
        context: None,
    };
    assert(systemd_boot_steps(iso_root, entries)[0] == copied);
    lemma_in_plan(config, distro, copied);

    assert((head + ukis + tail)[4] == head[4]);
    lemma_in_plan(config, distro, head[4]);

    assert((head + ukis + tail)[((head + ukis).len() + 1) as int] == tail[1]);
    lemma_in_plan(config, distro, tail[1]);

    assert((head + ukis + tail)[((head + ukis).len() + 3) as int] == tail[3]);
    lemma_in_plan(config, distro, tail[3]);

    let xorriso = final_steps(config, iso_root)[1];
    assert(final_steps(config, iso_root).contains(xorriso));
    lemma_in_plan(config, distro, xorriso);
}

/// What the command line of a UKI starts with for its kernel to look for its root by `label`.
pub open spec fn root_parameter(label: Seq<char>) -> Seq<char> {
    "root=LABEL="@ + label + " "@
}

/// Whether every UKI that these steps build looks for its root by `label`.
pub open spec fn look_for_root(label: Seq<char>, steps: Seq<StepView>) -> bool {
    forall|i: int|
        0 <= i < steps.len() ==> (#[trigger] steps[i] matches StepView::BuildUki(uki)
            ==> root_parameter(label).is_prefix_of(uki.cmdline))
}

/// The command line of an ISO starts with its label as the root.
proof fn lemma_cmdline_has_root(config: IsoConfigView, distro: DistroSettingsView)
    ensures
        root_parameter(config.label).is_prefix_of(iso_cmdline(config, distro)),
{
    reveal_strlit(" ");
    reveal_strlit(" console=ttyS0,115200n8 console=tty0 ");
    let root = root_parameter(config.label);
    assert(root =~= iso_cmdline(config, distro).subrange(0, root.len() as int));
}

/// The steps that copy extra files build no UKI.
proof fn lemma_extra_files_build_nothing(
    iso_root: Seq<u8>,
    files: Seq<(Seq<u8>, Seq<char>)>,
    i: int,
)
    requires
        0 <= i < extra_files_steps(iso_root, files).len(),
    ensures
        !(extra_files_steps(iso_root, files)[i] is BuildUki),
    decreases files.len(),
{
    let before = extra_files_steps(iso_root, files.drop_last());
    if i < before.len() {
        lemma_extra_files_build_nothing(iso_root, files.drop_last(), i);
    }
}

/// The UKIs that are built when UEFI boot is set up look for their root by the label of the ISO.
proof fn lemma_boot_looks_for_root(
    config: IsoConfigView,
    distro: DistroSettingsView,
    iso_root: Seq<u8>,
    output_dir: Seq<u8>,
)
    ensures
        look_for_root(
            config.label,
            uefi_boot_plan(config, distro, iso_root, output_dir).steps,
        ),
{
    let root = root_parameter(config.label);
    let staged = staged_all(config, distro, uki_dir_of(iso_root));
    lemma_cmdline_has_root(config, distro);
    assert forall|i: int| 0 <= i < staged.steps.len() implies (#[trigger] staged.steps[i] matches
        StepView::BuildUki(uki) ==> root.is_prefix_of(uki.cmdline)) by {
        law_ukis_boot_the_iso(config, distro, uki_dir_of(iso_root), i);
        if let StepView::BuildUki(uki) = staged.steps[i] {
            let base = iso_cmdline(config, distro);
            assert(base == uki.cmdline.subrange(0, base.len() as int));
            assert(root =~= uki.cmdline.subrange(0, root.len() as int)) by {
                assert(root =~= base.subrange(0, root.len() as int));
            }
        }
    }
    assert(look_for_root(config.label, staged.steps));
    assert(look_for_root(config.label, boot_head_steps(iso_root)));
    assert(look_for_root(config.label, systemd_boot_steps(iso_root, staged.entries)));
    assert(look_for_root(
        config.label,
        efi_boot_image_steps(iso_root, output_dir, staged.entries),
    ));
}

/// Every UKI that is built looks for its root by the label that the ISO is created with: its
/// command line starts with `root=LABEL=`, that label and a space.
pub proof fn law_root_is_the_iso_label(config: IsoConfigView, distro: DistroSettingsView)
    ensures
        root_parameter(config.label).is_prefix_of(iso_cmdline(config, distro)),
        look_for_root(config.label, iso_plan(config, distro).steps),
        forall|i: int|
            0 <= i < iso_plan(config, distro).steps.len() ==> (
            #[trigger] iso_plan(config, distro).steps[i] matches StepView::RunXorriso { label, .. }
                ==> label == config.label),
{
    let output_dir = output_dir_of(config);
    let iso_root = iso_root_in(output_dir);
    lemma_cmdline_has_root(config, distro);
    lemma_boot_looks_for_root(config, distro, iso_root, output_dir);
    assert(look_for_root(config.label, first_steps(iso_root)));
    assert(look_for_root(config.label, core_files_steps(config, distro, iso_root)));
    assert(look_for_root(config.label, final_steps(config, iso_root)));
    assert forall|i: int|
        0 <= i < extra_files_steps(iso_root, config.extra_files).len() implies !(
        #[trigger] extra_files_steps(iso_root, config.extra_files)[i] is BuildUki) by {
        lemma_extra_files_build_nothing(iso_root, config.extra_files, i);
    }
    assert(look_for_root(config.label, extra_files_steps(iso_root, config.extra_files)));
    law_one_iso(config, distro);
    let plan = iso_plan(config, distro);
    let last = final_steps(config, iso_root);
    if plan.failure is None {
        let tree = plan.steps.len() - last.len();
        assert(plan.steps[tree + 1] == plan.steps.skip(tree)[1]);
    }
}

/// Kernel and initramfs are copied to where the distribution looks for them.
pub proof fn law_boot_files_are_copied(config: IsoConfigView, distro: DistroSettingsView)
    requires
        iso_plan(config, distro).failure is None,
    ensures
        ({
            let iso_root = iso_root_in(output_dir_of(config));
            let steps = iso_plan(config, distro).steps;
            &&& steps.contains(
                core_copy(
                    config.kernel,
                    below(iso_root, distro.kernel_iso_path),
                    "Failed to copy kernel"@,
                ),
            )
            &&& steps.contains(
                core_copy(
                    config.initrd,
                    below(iso_root, distro.initramfs_live_iso_path),
                    "Failed to copy initramfs"@,
                ),
            )
        }),
{
    let core = core_files_steps(config, distro, iso_root_in(output_dir_of(config)));
    assert(core.contains(core[1]));
    assert(core.contains(core[2]));
    lemma_in_plan(config, distro, core[1]);
    lemma_in_plan(config, distro, core[2]);
}

/// The live payloads get onto the medium: they are copied into the ISO tree, or handed to xorriso
/// as partitions.
pub proof fn law_payloads_get_onto_the_iso(config: IsoConfigView, distro: DistroSettingsView)
    requires
        iso_plan(config, distro).failure is None,
    ensures
        ({
            let iso_root = iso_root_in(output_dir_of(config));
            let steps = iso_plan(config, distro).steps;
            match config.live_payload_layout {
                LivePayloadLayout::IsoFiles => {
                    &&& steps.contains(
                        core_copy(
                            config.rootfs,
                            below(iso_root, distro.rootfs_iso_path),
                            "Failed to copy rootfs"@,
                        ),
                    )
                    &&& config.overlay_image matches Some(overlay_image) ==> steps.contains(
                        core_copy(
                            overlay_image,
                            below(iso_root, distro.live_overlayfs_iso_path),
                            "Failed to copy live overlay image"@,
                        ),
                    )
                },
                LivePayloadLayout::AppendedPartitions => exists|i: int| {
                    &&& 0 <= i < steps.len()
                    &&& #[trigger] steps[i] matches StepView::RunXorriso { appended, .. }
                    &&& appended[0].path == config.rootfs
                    &&& config.overlay_image matches Some(overlay_image) ==> appended[1].path
                        == overlay_image
                },
            }
        }),
{
    let iso_root = iso_root_in(output_dir_of(config));
    let steps = iso_plan(config, distro).steps;
    let core = core_files_steps(config, distro, iso_root);
    match config.live_payload_layout {
        LivePayloadLayout::IsoFiles => {
            assert(core.contains(core[4]));
            lemma_in_plan(config, distro, core[4]);
            if config.overlay_image is Some {
                assert(core.contains(core[6]));
                lemma_in_plan(config, distro, core[6]);
            }
        },
        LivePayloadLayout::AppendedPartitions => {
            law_systemd_boot_is_installed(config, distro);
            let xorriso = final_steps(config, iso_root)[1];
            let i = choose|i: int| 0 <= i < steps.len() && steps[i] == xorriso;
            assert(steps[i] == xorriso);
        },
    }
}

/// The steps for one extra file are among those for all.
proof fn lemma_extra_file_in_steps(
    iso_root: Seq<u8>,
    files: Seq<(Seq<u8>, Seq<char>)>,
    i: int,
    step: StepView,
)
    requires
        0 <= i < files.len(),
        extra_file_steps(iso_root, files[i]).contains(step),
    ensures
        extra_files_steps(iso_root, files).contains(step),
    decreases files.len(),
{
    let before = files.drop_last();
    lemma_contains_add(
        extra_files_steps(iso_root, before),
        extra_file_steps(iso_root, files.last()),
        step,
    );
    if i < before.len() {
        assert(before[i] == files[i]);
        lemma_extra_file_in_steps(iso_root, before, i, step);
    }
}

/// A destination on the ISO is taken from the ISO root: what is left of it does not begin with a
/// slash, and nothing but slashes was taken from its front.
pub proof fn law_destinations_are_relative(dst: Seq<char>)
    ensures
        in_tree(dst).len() > 0 ==> in_tree(dst)[0] != '/',
        in_tree(dst).is_suffix_of(dst),
        forall|i: int| 0 <= i < dst.len() - in_tree(dst).len() ==> #[trigger] dst[i] == '/',
    decreases dst.len(),
{
    if dst.len() > 0 && dst[0] == '/' {
        let rest = dst.drop_first();
        law_destinations_are_relative(rest);
        assert(in_tree(dst) =~= dst.subrange(
            dst.len() - in_tree(dst).len(),
            dst.len() as int,
        )) by {
            assert(in_tree(rest) =~= rest.subrange(
                rest.len() - in_tree(rest).len(),
                rest.len() as int,
            ));
        }
        assert forall|i: int| 0 <= i < dst.len() - in_tree(dst).len() implies #[trigger] dst[i]
            == '/' by {
            if i > 0 {
                assert(rest[i - 1] == dst[i]);
            }
        }
    } else {
        assert(dst =~= dst.subrange(0, dst.len() as int));
    }
}

/// Every extra file is copied to its destination, which is taken from the ISO root also where it
/// begins with a slash.
pub proof fn law_extra_files_are_copied(
    config: IsoConfigView,
    distro: DistroSettingsView,
    i: int,
)
    requires
        iso_plan(config, distro).failure is None,
        0 <= i < config.extra_files.len(),
    ensures
        ({
            let iso_root = iso_root_in(output_dir_of(config));
            let (source, dst) = config.extra_files[i];
            iso_plan(config, distro).steps.contains(
                core_copy(
                    source,
                    below(iso_root, in_tree(dst)),
                    "Failed to copy "@ + path_shown(source) + " to "@ + dst,
                ),
            )
        }),
{
    let iso_root = iso_root_in(output_dir_of(config));
    let (source, dst) = config.extra_files[i];
    let context = "Failed to copy "@ + path_shown(source) + " to "@ + dst;
    let step = core_copy(source, below(iso_root, in_tree(dst)), context);
    let steps = extra_file_steps(iso_root, config.extra_files[i]);
    assert(steps[steps.len() - 1] == step);
    lemma_extra_file_in_steps(iso_root, config.extra_files, i, step);
    lemma_in_plan(config, distro, step);
}

/// A step on the way to the complete ISO tree.
pub open spec fn is_tree_step(step: StepView) -> bool {
    &&& !(step is RunXorriso)
    &&& !(step is WriteChecksum)
    &&& !(step is RemoveTree)
    &&& !(step is Report)
}

/// Whether all steps are on the way to the complete ISO tree.
pub open spec fn are_tree_steps(steps: Seq<StepView>) -> bool {
    forall|i: int| 0 <= i < steps.len() ==> is_tree_step(#[trigger] steps[i])
}

/// The steps that copy extra files are on the way to the complete ISO tree.
proof fn lemma_extra_files_tree_steps(iso_root: Seq<u8>, files: Seq<(Seq<u8>, Seq<char>)>)
    ensures
        are_tree_steps(extra_files_steps(iso_root, files)),
    decreases files.len(),
{
    if files.len() > 0 {
        lemma_extra_files_tree_steps(iso_root, files.drop_last());
    }
}

/// The steps that set up UEFI boot are on the way to the complete ISO tree.
proof fn lemma_boot_tree_steps(
    config: IsoConfigView,
    distro: DistroSettingsView,
    iso_root: Seq<u8>,
    output_dir: Seq<u8>,
)
    ensures
        are_tree_steps(uefi_boot_plan(config, distro, iso_root, output_dir).steps),
{
    let staged = staged_all(config, distro, uki_dir_of(iso_root));
    assert forall|i: int| 0 <= i < staged.steps.len() implies is_tree_step(
        #[trigger] staged.steps[i],
    ) by {
        law_ukis_boot_the_iso(config, distro, uki_dir_of(iso_root), i);
    }
    assert(are_tree_steps(boot_head_steps(iso_root)));
    assert(are_tree_steps(systemd_boot_steps(iso_root, staged.entries)));
    assert(are_tree_steps(efi_boot_image_steps(iso_root, output_dir, staged.entries)));
}

/// Steps are spelled out part by part.
proof fn lemma_spelled_out_add(a: Seq<StepView>, b: Seq<StepView>, found: Option<Seq<Seq<u8>>>)
    ensures
        spelled_out(a + b, found) == spelled_out(a, found) + spelled_out(b, found),
    decreases b.len(),
{
    if b.len() == 0 {
        assert(a + b =~= a);
        assert(spelled_out(a, found) + spelled_out(b, found) =~= spelled_out(a, found));
    } else {
        lemma_spelled_out_add(a, b.drop_last(), found);
        assert((a + b).drop_last() =~= a + b.drop_last());
        assert(spelled_out(a + b, found) =~= spelled_out(a, found) + spelled_out(b, found));
    }
}

/// Steps that stand for themselves are spelled out as they are.
proof fn lemma_spelled_out_plain(steps: Seq<StepView>, found: Option<Seq<Seq<u8>>>)
    requires
        forall|i: int| 0 <= i < steps.len() ==> !(#[trigger] steps[i] is CopyEntriesToFat),
    ensures
        spelled_out(steps, found) == steps,
    decreases steps.len(),
{
    if steps.len() > 0 {
        lemma_spelled_out_plain(steps.drop_last(), found);
        assert(steps.last() == steps[steps.len() - 1]);
        assert(spelled_out(steps, found) =~= steps);
    }
}

/// What is chosen from items that are all different is all different.
proof fn lemma_chosen_are_distinct<A>(s: Seq<A>, chosen: spec_fn(A) -> bool)
    requires
        s.no_duplicates(),
    ensures
        s.filter(chosen).no_duplicates(),
    decreases s.len(),
{
    reveal(Seq::filter);
    if s.len() > 0 {
        let front = s.drop_last();
        lemma_chosen_are_distinct(front, chosen);
        assert forall|i: int| 0 <= i < front.filter(chosen).len() implies #[trigger] front.filter(
            chosen,
        )[i] != s.last() by {
            front.lemma_filter_contains_rev(chosen, front.filter(chosen)[i]);
        }
    }
}

/// Whether a step copies something to the menu entries of a FAT image.
pub open spec fn goes_to_entries(step: StepView) -> bool {
    step matches StepView::CopyToFat { dir, .. } && dir == "::loader/entries/"@
}

/// What goes to the menu entries of a FAT image when the entries that were found are copied.
proof fn lemma_entries_to_fat(image: Seq<u8>, name: Seq<char>, found: Option<Seq<Seq<u8>>>)
    ensures
        ({
            let steps = entries_to_fat_steps(image, name, found);
            &&& forall|i: int|
                0 <= i < steps.len() && goes_to_entries(#[trigger] steps[i]) ==> exists|path|
                    steps[i] == #[trigger] entry_copy_step(image, path)
                        && is_found_entry(found, path)
            &&& forall|path: Seq<u8>| #[trigger]
                is_found_entry(found, path) ==> steps.contains(entry_copy_step(image, path))
            &&& (found matches Some(found) ==> found.no_duplicates()) ==> forall|i: int, j: int|
                0 <= i < j < steps.len() && goes_to_entries(#[trigger] steps[i]) ==> steps[i]
                    != #[trigger] steps[j]
        }),
{
    let steps = entries_to_fat_steps(image, name, found);
    if let Some(listed) = found {
        let is_entry = |path: Seq<u8>| is_entry_path(path);
        let copy = |path: Seq<u8>| entry_copy_step(image, path);
        let chosen = listed.filter(is_entry);
        assert(steps.len() == chosen.len() + 1);
        assert(forall|i: int| 0 < i < steps.len() ==> #[trigger] steps[i] == copy(chosen[i - 1]));
        assert forall|i: int|
            0 <= i < steps.len() && goes_to_entries(#[trigger] steps[i]) implies exists|path|
            steps[i] == #[trigger] entry_copy_step(image, path) && is_found_entry(found, path) by {
            listed.lemma_filter_pred(is_entry, i - 1);
            listed.lemma_filter_contains_rev(is_entry, chosen[i - 1]);
            assert(steps[i] == entry_copy_step(image, chosen[i - 1]));
        }
        assert forall|path: Seq<u8>| #[trigger] is_found_entry(found, path) implies steps.contains(
            entry_copy_step(image, path),
        ) by {
            let at = choose|at: int| 0 <= at < listed.len() && listed[at] == path;
            listed.lemma_filter_contains(is_entry, at);
            let i = choose|i: int| 0 <= i < chosen.len() && chosen[i] == path;
            assert(steps[i + 1] == entry_copy_step(image, path));
        }
        if listed.no_duplicates() {
            lemma_chosen_are_distinct(listed, is_entry);
        }
    }
}

/// The EFI boot image gets the menu entries that were found, and no other file among them: once
/// there is a directory for them in the image, each file of the directory with the extension of
/// an entry is copied, where no file is listed twice each of them once, and no other file is.
/// Without a directory nothing is done.
pub proof fn law_entries_go_into_the_boot_image(
    iso_root: Seq<u8>,
    output_dir: Seq<u8>,
    entries: Seq<UkiMenuEntryView>,
    found: Option<Seq<Seq<u8>>>,
)
    ensures
        ({
            let image = below(output_dir, "efiboot.img"@);
            let steps = efi_boot_image_steps(iso_root, output_dir, entries);
            let all = spelled_out(steps, found);
            &&& all == steps.take(steps.len() - 3) + entries_to_fat_steps(
                image,
                path_lossy(image),
                found,
            ) + steps.skip(steps.len() - 2)
            &&& forall|i: int|
                0 <= i < all.len() && goes_to_entries(#[trigger] all[i]) ==> exists|path|
                    all[i] == #[trigger] entry_copy_step(image, path) && is_found_entry(found, path)
            &&& forall|path: Seq<u8>| #[trigger]
                is_found_entry(found, path) ==> all.contains(entry_copy_step(image, path))
            &&& (found matches Some(found) ==> found.no_duplicates()) ==> forall|i: int, j: int|
                0 <= i < j < all.len() && goes_to_entries(#[trigger] all[i]) ==> all[i]
                    != #[trigger] all[j]
        }),
{
    let image = below(output_dir, "efiboot.img"@);
    let name = path_lossy(image);
    let steps = efi_boot_image_steps(iso_root, output_dir, entries);
    let head = image_head_steps(iso_root, image);
    let tail = image_tail_steps(iso_root, image);
    let front = steps.take(steps.len() - 3);
    let middle = seq![tail[2]];
    let back = steps.skip(steps.len() - 2);
    let copies = entries_to_fat_steps(image, name, found);
    let all = spelled_out(steps, found);
    reveal_strlit("::loader/entries/");
    reveal_strlit("::loader/");
    reveal_strlit("::EFI/Linux/");
    reveal_strlit("::EFI/BOOT/");
    assert("::loader/"@.len() < "::loader/entries/"@.len());
    assert("::EFI/Linux/"@.len() < "::loader/entries/"@.len());
    assert("::EFI/BOOT/"@.len() < "::loader/entries/"@.len());
    let ukis = entries.map_values(|entry: UkiMenuEntryView| fat_uki_step(image, entry));
    assert(front =~= head + ukis + seq![tail[0], tail[1]]);
    assert(back =~= seq![tail[3], tail[4]]);
    assert(steps =~= front + middle + back);
    assert forall|i: int| 0 <= i < front.len() implies !(#[trigger] front[i] is CopyEntriesToFat)
        && !goes_to_entries(front[i]) by {
        if i < head.len() {
            assert(front[i] == head[i]);
        } else if i < head.len() + ukis.len() {
            assert(front[i] == fat_uki_step(image, entries[i - head.len()]));
        } else {
            assert(front[i] == tail[i - head.len() - ukis.len()]);
        }
    }
    lemma_spelled_out_plain(front, found);
    lemma_spelled_out_plain(back, found);
    assert(spelled_out(middle, found) =~= copies) by {
        assert(middle.drop_last() =~= seq![]);
        assert(spelled_out(middle.drop_last(), found) =~= seq![]);
    }
    lemma_spelled_out_add(front, middle, found);
    lemma_spelled_out_add(front + middle, back, found);
    assert(all == front + copies + back);
    lemma_entries_to_fat(image, name, found);
    assert forall|i: int|
        0 <= i < all.len() && goes_to_entries(#[trigger] all[i]) implies front.len() <= i
        < front.len() + copies.len() && all[i] == copies[i - front.len()] by {
        if i < front.len() {
            assert(all[i] == front[i]);
        } else if i >= front.len() + copies.len() {
            assert(all[i] == back[i - front.len() - copies.len()]);
        }
    }
    assert forall|path: Seq<u8>| #[trigger] is_found_entry(found, path) implies all.contains(
        entry_copy_step(image, path),
    ) by {
        lemma_contains_add(front, copies, entry_copy_step(image, path));
        lemma_contains_add(front + copies, back, entry_copy_step(image, path));
    }
    if found matches Some(found) ==> found.no_duplicates() {
        assert forall|i: int, j: int|
            0 <= i < j < all.len() && goes_to_entries(#[trigger] all[i]) implies all[i]
            != #[trigger] all[j] by {
            if all[i] == all[j] {
                assert(goes_to_entries(all[j]));
                assert(copies[i - front.len()] == copies[j - front.len()]);
            }
        }
    }
}

/// Where the creation of an ISO is given up, no ISO is written. Else xorriso runs once, when the
/// ISO tree is complete; behind that come the checksum, exactly where it is asked for, and the
/// removal of the tree.
pub proof fn law_one_iso(config: IsoConfigView, distro: DistroSettingsView)
    ensures
        ({
            let plan = iso_plan(config, distro);
            let last = final_steps(config, iso_root_in(output_dir_of(config)));
            let tree = plan.steps.len() - last.len();
            &&& plan.failure is Some ==> are_tree_steps(plan.steps)
            &&& plan.failure is None ==> {
                &&& tree >= 0
                &&& are_tree_steps(plan.steps.take(tree))
                &&& plan.steps.skip(tree) == last
                &&& forall|i: int|
                    0 <= i < plan.steps.len() ==> (#[trigger] plan.steps[i] is RunXorriso <==> i
                        == tree + 1)
                &&& plan.steps.contains(StepView::WriteChecksum { iso: config.output })
                    <==> config.generate_checksum
                &&& plan.steps.last() == (StepView::Report { iso: config.output })
            }
        }),
{
    let output_dir = output_dir_of(config);
    let iso_root = iso_root_in(output_dir);
    let plan = iso_plan(config, distro);
    let last = final_steps(config, iso_root);
    lemma_boot_tree_steps(config, distro, iso_root, output_dir);
    lemma_extra_files_tree_steps(iso_root, config.extra_files);
    let start = first_steps(iso_root) + core_files_steps(config, distro, iso_root)
        + uefi_boot_plan(config, distro, iso_root, output_dir).steps;
    assert(are_tree_steps(start));
    if plan.failure is None {
        let tree = start + extra_files_steps(iso_root, config.extra_files);
        assert(are_tree_steps(tree));
        assert(plan.steps == tree + last);
        assert(plan.steps.take(tree.len() as int) =~= tree);
        assert(plan.steps.skip(tree.len() as int) =~= last);
        assert forall|i: int| 0 <= i < plan.steps.len() implies (#[trigger] plan.steps[i]
            is RunXorriso <==> i == tree.len() + 1) by {
            if i < tree.len() {
                assert(plan.steps[i] == tree[i]);
            } else {
                assert(plan.steps[i] == last[i - tree.len()]);
            }
        }
        let checksum = StepView::WriteChecksum { iso: config.output };
        lemma_contains_add(tree, last, checksum);
        if tree.contains(checksum) {
            let i = choose|i: int| 0 <= i < tree.len() && tree[i] == checksum;
            assert(is_tree_step(tree[i]));
        }
        if config.generate_checksum {
            assert(last[3] == checksum);
        }
    }
}

/// The creation of an ISO begins with the ISO structure.
pub proof fn law_structure_comes_first(config: IsoConfigView, distro: DistroSettingsView)
    ensures
        iso_plan(config, distro).steps[1] == (StepView::SetupStructure {
            root: iso_root_in(output_dir_of(config)),
        }),
        iso_plan(config, distro).steps[0] is Note,
{
}

/// A plan is followed step by step: the step that was to be performed is the last one where the
/// creation ends with it, and else the one behind it comes next, until every step is done.
pub proof fn law_plan_is_followed(steps: Seq<StepView>, failed: Seq<bool>, last: bool)
    requires
        next_of(steps, failed) is Perform,
    ensures
        ({
            let at = failed.len() as int;
            &&& next_of(steps, failed) == NextView::Perform(at)
            &&& at < steps.len()
            &&& next_of(steps, failed.push(last)) == if steps[at].ends_creation(last) {
                NextView::Stop(at)
            } else if at + 1 < steps.len() {
                NextView::Perform(at + 1)
            } else {
                NextView::Done
            }
        }),
{
    let at = failed.len() as int;
    lemma_first_end_of_prefix(steps, failed, failed.push(last), at);
}

/// The first step that the creation ends with goes by the outcomes of the steps up to it.
proof fn lemma_first_end_of_prefix(
    steps: Seq<StepView>,
    failed: Seq<bool>,
    more: Seq<bool>,
    count: int,
)
    requires
        forall|i: int| 0 <= i < count ==> failed[i] == #[trigger] more[i],
    ensures
        first_end(steps, failed, count) == first_end(steps, more, count),
    decreases count,
{
    if count > 0 {
        lemma_first_end_of_prefix(steps, failed, more, count - 1);
        assert(failed[count - 1] == more[count - 1]);
    }
}

/// The first step that the creation ends with is one, and none before it is.
pub(crate) proof fn lemma_first_end_is_first(steps: Seq<StepView>, failed: Seq<bool>, count: int)
    ensures
        match first_end(steps, failed, count) {
            Some(at) => {
                &&& 0 <= at < count
                &&& steps[at].ends_creation(failed[at])
                &&& forall|i: int|
                    0 <= i < at ==> !(#[trigger] steps[i]).ends_creation(failed[i])
            },
            None => forall|i: int|
                0 <= i < count ==> !(#[trigger] steps[i]).ends_creation(failed[i]),
        },
    decreases count,
{
    if count > 0 {
        lemma_first_end_is_first(steps, failed, count - 1);
    }
}

/// The steps that are performed are the plan up to the first one that the creation ends with: a
/// step is performed exactly where no step before it was one to end with, whatever the outcomes
/// of the steps are.
pub proof fn law_performed_up_to_first_end(steps: Seq<StepView>, outcomes: Seq<bool>, at: int)
    requires
        outcomes.len() == steps.len(),
        0 <= at < steps.len(),
    ensures
        next_of(steps, outcomes.take(at)) == NextView::Perform(at) <==> forall|i: int|
            0 <= i < at ==> !(#[trigger] steps[i]).ends_creation(outcomes[i]),
{
    let failed = outcomes.take(at);
    lemma_first_end_is_first(steps, failed, at);
    if let Some(end) = first_end(steps, failed, at) {
        assert(steps[end].ends_creation(outcomes[end]));
    } else {
        assert forall|i: int| 0 <= i < at implies !(#[trigger] steps[i]).ends_creation(
            outcomes[i],
        ) by {
            assert(failed[i] == outcomes[i]);
        }
    }
}

/// Where xorriso fails, the creation ends with that failure, and no checksum is generated.
pub proof fn law_failed_xorriso_is_the_end(
    config: IsoConfigView,
    distro: DistroSettingsView,
    failed: Seq<bool>,
)
    requires
        next_of(iso_plan(config, distro).steps, failed) matches NextView::Perform(at)
            && iso_plan(config, distro).steps[at] is RunXorriso,
    ensures
        next_of(iso_plan(config, distro).steps, failed.push(true)) == NextView::Stop(
            failed.len() as int,
        ),
        forall|i: int|
            0 <= i < failed.len() ==> !(#[trigger] iso_plan(config, distro).steps[i]
                is WriteChecksum),
{
    let steps = iso_plan(config, distro).steps;
    let at = failed.len() as int;
    law_plan_is_followed(steps, failed, true);
    law_one_iso(config, distro);
    let last = final_steps(config, iso_root_in(output_dir_of(config)));
    let tree = steps.len() - last.len();
    if iso_plan(config, distro).failure is Some {
        assert(is_tree_step(steps[at]));
    } else {
        assert(at == tree + 1);
        assert forall|i: int| 0 <= i < at implies !(#[trigger] steps[i] is WriteChecksum) by {
            if i < tree {
                assert(steps.take(tree)[i] == steps[i]);
            } else {
                assert(steps.skip(tree)[0] == steps[i]);
            }
        }
    }
}

/// A removal that fails ends nothing: the plan goes on behind it.
pub proof fn law_failed_removal_is_ignored(steps: Seq<StepView>, failed: Seq<bool>)
    requires
        next_of(steps, failed) matches NextView::Perform(at) && (steps[at] is RemoveFile
            || steps[at] is RemoveTree),
    ensures
        next_of(steps, failed.push(true)) == next_of(steps, failed.push(false)),
{
    law_plan_is_followed(steps, failed, true);
    law_plan_is_followed(steps, failed, false);
}

} // verus!
