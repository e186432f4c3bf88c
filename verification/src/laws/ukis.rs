//! What holds of the UKIs of an ISO.
use crate::config::{IsoConfigView, OsReleaseView, UkiSourceView};
use crate::distro::DistroSettingsView;
use crate::loader::UkiMenuEntryView;
use crate::paths::{path_file_name, path_file_stem, path_joined, path_lossy};
use crate::step::StepView;
use crate::uki::{
    base_cmdline_of, cmdline_with, default_filename_of, default_title_of, iso_cmdline, lowercased,
    menu_title_of, staged_all, staged_build, staged_prebuilt, staged_uki, staged_ukis,
    StagedUkiView, StagedUkisView,
};
use vstd::prelude::*;
use vstd::utf8::encode_utf8;

verus! {

/// The parameters that every UKI of an ISO is booted with, parted by spaces: the root by its
/// label, both consoles and the switch for SELinux.
pub open spec fn common_parameters(label: Seq<char>, selinux: Seq<char>) -> Seq<char> {
    "root=LABEL="@ + label + seq![' '] + "console=ttyS0,115200n8"@ + seq![' '] + "console=tty0"@
        + seq![' '] + selinux
}

/// Whether a command line is that of a UKI with these extra parameters: it begins with what every
/// UKI is booted with; without extra parameters that is all, and else there is a space behind it,
/// and then come the extra parameters to the last character.
pub open spec fn is_cmdline(
    cmdline: Seq<char>,
    label: Seq<char>,
    selinux: Seq<char>,
    extra: Seq<char>,
) -> bool {
    let common = common_parameters(label, selinux);
    &&& common.is_prefix_of(cmdline)
    &&& extra.len() == 0 ==> cmdline.len() == common.len()
    &&& extra.len() > 0 ==> {
        &&& cmdline.len() == common.len() + 1 + extra.len()
        &&& cmdline[common.len() as int] == ' '
        &&& extra.is_suffix_of(cmdline)
    }
}

/// Every UKI of an ISO is booted with its label as the root, with both consoles and with SELinux
/// switched off.
pub proof fn law_common_parameters(
    config: IsoConfigView,
    distro: DistroSettingsView,
    label: Seq<char>,
    selinux: Seq<char>,
)
    ensures
        base_cmdline_of(label, selinux) == common_parameters(label, selinux),
        iso_cmdline(config, distro) == common_parameters(config.label, distro.selinux_disable),
{
    reveal_strlit(" console=ttyS0,115200n8 console=tty0 ");
    reveal_strlit("console=ttyS0,115200n8");
    reveal_strlit("console=tty0");
    assert(" console=ttyS0,115200n8 console=tty0 "@ =~= seq![' '] + "console=ttyS0,115200n8"@
        + seq![' '] + "console=tty0"@ + seq![' ']);
    assert(base_cmdline_of(label, selinux) =~= common_parameters(label, selinux));
    assert(iso_cmdline(config, distro) =~= common_parameters(
        config.label,
        distro.selinux_disable,
    ));
}

/// Extra parameters are put behind the base in full, with a space between; where there are none
/// the base stays as it is.
pub proof fn law_extra_parameters_are_kept(base: Seq<char>, extra: Seq<char>)
    ensures
        ({
            let cmdline = cmdline_with(base, extra);
            &&& base.is_prefix_of(cmdline)
            &&& extra.is_suffix_of(cmdline)
            &&& extra.len() == 0 ==> cmdline.len() == base.len()
            &&& extra.len() > 0 ==> {
                &&& cmdline.len() == base.len() + 1 + extra.len()
                &&& cmdline[base.len() as int] == ' '
            }
        }),
{
    reveal_strlit(" ");
    let cmdline = cmdline_with(base, extra);
    assert(base =~= cmdline.subrange(0, base.len() as int));
    assert(extra =~= cmdline.subrange(cmdline.len() - extra.len(), cmdline.len() as int));
}

/// The command line of an ISO with extra parameters behind it is that of a UKI with these.
proof fn lemma_cmdline(config: IsoConfigView, distro: DistroSettingsView, extra: Seq<char>)
    ensures
        is_cmdline(
            cmdline_with(iso_cmdline(config, distro), extra),
            config.label,
            distro.selinux_disable,
            extra,
        ),
{
    law_common_parameters(config, distro, config.label, distro.selinux_disable);
    law_extra_parameters_are_kept(iso_cmdline(config, distro), extra);
}

/// Whether a step puts a UKI into `uki_dir`: a prebuilt one is copied there under its own file
/// name, one to build is built there under the file name that is asked for, from the kernel and
/// the initramfs of the ISO, with its branding and the command line that is asked for.
pub open spec fn puts_in_place(
    step: StepView,
    config: IsoConfigView,
    distro: DistroSettingsView,
    uki_dir: Seq<u8>,
    uki: UkiSourceView,
) -> bool {
    match uki {
        UkiSourceView::Prebuilt(path) => {
            &&& path_file_name(path) matches Some(name)
            &&& step == (StepView::Copy {
                from: path,
                to: path_joined(uki_dir, name),
                context: None,
            })
        },
        UkiSourceView::Build { extra_cmdline, filename, .. } => {
            &&& step matches StepView::BuildUki(built)
            &&& built.kernel == config.kernel
            &&& built.initrd == config.initrd
            &&& built.os_release == config.os_release
            &&& built.output == path_joined(uki_dir, encode_utf8(filename))
            &&& is_cmdline(built.cmdline, config.label, distro.selinux_disable, extra_cmdline)
        },
    }
}

/// Whether a menu entry is that of a UKI in `uki_dir`: it has the title and the file name that
/// are asked for, or the stem and the name of the prebuilt file, and it is where the UKI is.
pub open spec fn presents(
    entry: UkiMenuEntryView,
    uki_dir: Seq<u8>,
    uki: UkiSourceView,
) -> bool {
    match uki {
        UkiSourceView::Prebuilt(path) => {
            &&& path_file_name(path) matches Some(file)
            &&& path_file_stem(path) matches Some(stem)
            &&& entry.title == path_lossy(stem)
            &&& entry.filename == path_lossy(file)
            &&& entry.path == path_joined(uki_dir, file)
        },
        UkiSourceView::Build { name, filename, .. } => {
            &&& entry.title == name
            &&& entry.filename == filename
            &&& entry.path == path_joined(uki_dir, encode_utf8(filename))
        },
    }
}

/// Whether a UKI can be put into place: not where it is prebuilt and its path names no file.
pub open spec fn has_a_name(uki: UkiSourceView) -> bool {
    uki matches UkiSourceView::Prebuilt(path) ==> path_file_name(path) is Some
}

/// A UKI with a name gets into `uki_dir` by one step, before which the user is told of it where
/// it is built, and gets its menu entry. One without a name does not.
pub proof fn law_one_uki_is_staged(
    config: IsoConfigView,
    distro: DistroSettingsView,
    uki_dir: Seq<u8>,
    uki: UkiSourceView,
)
    ensures
        staged_uki(config, distro, uki_dir, uki) is Some <==> has_a_name(uki),
        staged_uki(config, distro, uki_dir, uki) matches Some(staged) ==> {
            &&& puts_in_place(staged.steps.last(), config, distro, uki_dir, uki)
            &&& presents(staged.entry, uki_dir, uki)
            &&& match uki {
                UkiSourceView::Prebuilt(_) => staged.steps.len() == 1,
                UkiSourceView::Build { filename, .. } => staged.steps.len() == 2
                    && staged.steps[0] == StepView::Note("  Building UKI: "@ + filename),
            }
        },
{
    if let UkiSourceView::Build { name, extra_cmdline, filename } = uki {
        lemma_cmdline(config, distro, extra_cmdline);
    }
}

/// A prebuilt UKI is staged by one copy to its file name; its title is the stem of that name,
/// and the name where it has no stem.
pub proof fn law_prebuilt_uki_is_copied(
    uki_dir: Seq<u8>,
    path: Seq<u8>,
    name: Seq<u8>,
    stem: Option<Seq<u8>>,
)
    ensures
        ({
            let staged = staged_prebuilt(uki_dir, path, name, stem);
            &&& staged.steps.len() == 1
            &&& staged.steps[0] matches StepView::Copy { from, to, context }
            &&& from == path
            &&& to == path_joined(uki_dir, name)
            &&& context is None
            &&& staged.entry.path == to
            &&& staged.entry.filename == path_lossy(name)
            &&& staged.entry.title == match stem {
                Some(stem) => path_lossy(stem),
                None => path_lossy(name),
            }
        }),
{
}

/// A UKI to build is staged by one build, of which the user is told first.
pub proof fn law_built_uki_is_built(
    config: IsoConfigView,
    uki_dir: Seq<u8>,
    title: Seq<char>,
    cmdline: Seq<char>,
    filename: Seq<char>,
)
    ensures
        ({
            let staged = staged_build(config, uki_dir, title, cmdline, filename);
            &&& staged.steps.len() == 2
            &&& staged.steps[0] == StepView::Note("  Building UKI: "@ + filename)
            &&& staged.steps[1] matches StepView::BuildUki(built)
            &&& built.kernel == config.kernel
            &&& built.initrd == config.initrd
            &&& built.cmdline == cmdline
            &&& built.os_release == config.os_release
            &&& built.output == path_joined(uki_dir, encode_utf8(filename))
            &&& staged.entry.path == built.output
            &&& staged.entry.title == title
            &&& staged.entry.filename == filename
        }),
{
}

/// A UKI that is staged behind others leaves what they need as it is: its steps come behind
/// theirs, all of them, and its menu entry behind theirs.
pub proof fn law_staging_keeps_the_others(before: StagedUkisView, staged: StagedUkiView)
    ensures
        ({
            let after = before.plus(staged);
            &&& after.steps.len() == before.steps.len() + staged.steps.len()
            &&& before.steps.is_prefix_of(after.steps)
            &&& staged.steps.is_suffix_of(after.steps)
            &&& after.entries.len() == before.entries.len() + 1
            &&& before.entries.is_prefix_of(after.entries)
            &&& after.entries.last() == staged.entry
            &&& after.nameless == before.nameless
        }),
{
    let after = before.plus(staged);
    assert(before.steps =~= after.steps.subrange(0, before.steps.len() as int));
    assert(staged.steps =~= after.steps.subrange(
        after.steps.len() - staged.steps.len(),
        after.steps.len() as int,
    ));
    assert(before.entries =~= after.entries.subrange(0, before.entries.len() as int));
}

/// UKIs are staged one behind the other, up to the first one without a name, at which staging
/// ends with what was staged before it.
pub proof fn law_ukis_are_staged_in_order(
    config: IsoConfigView,
    distro: DistroSettingsView,
    uki_dir: Seq<u8>,
    ukis: Seq<UkiSourceView>,
    uki: UkiSourceView,
)
    ensures
        ({
            let before = staged_ukis(config, distro, uki_dir, ukis);
            let after = staged_ukis(config, distro, uki_dir, ukis.push(uki));
            if before.nameless {
                after == before
            } else if has_a_name(uki) {
                &&& staged_uki(config, distro, uki_dir, uki) matches Some(staged)
                &&& after.steps == before.steps + staged.steps
                &&& after.entries == before.entries.push(staged.entry)
                &&& !after.nameless
            } else {
                &&& after.steps == before.steps
                &&& after.entries == before.entries
                &&& after.nameless
            }
        }),
        ({
            let none = staged_ukis(config, distro, uki_dir, Seq::empty());
            &&& none.steps.len() == 0
            &&& none.entries.len() == 0
            &&& !none.nameless
        }),
{
    assert(ukis.push(uki).drop_last() =~= ukis);
    assert(ukis.push(uki).last() == uki);
}

/// The UKI that is built where none is asked for.
pub open spec fn fallback(config: IsoConfigView) -> UkiSourceView {
    UkiSourceView::Build {
        name: match config.os_release {
            Some(os) => os.name + seq![' '] + os.version,
            None => config.label,
        },
        extra_cmdline: Seq::empty(),
        filename: lowercased(config.label) + ".efi"@,
    }
}

/// Where no UKI is asked for, what is staged is what would be staged if one were asked for that
/// is named after the OS, or else after the label, has no extra parameters, and has the label in
/// lower case for its file name. Where one is, nothing but what is asked for is staged.
pub proof fn law_without_ukis_there_is_a_fallback(
    config: IsoConfigView,
    distro: DistroSettingsView,
    uki_dir: Seq<u8>,
)
    ensures
        config.ukis.len() == 0 ==> staged_all(config, distro, uki_dir) == staged_ukis(
            config,
            distro,
            uki_dir,
            seq![fallback(config)],
        ),
        config.ukis.len() > 0 ==> staged_all(config, distro, uki_dir) == staged_ukis(
            config,
            distro,
            uki_dir,
            config.ukis,
        ),
{
    reveal_strlit(" ");
    if config.ukis.len() == 0 {
        let uki = fallback(config);
        assert(seq![uki] =~= Seq::empty().push(uki));
        law_ukis_are_staged_in_order(config, distro, uki_dir, Seq::empty(), uki);
        let all = staged_all(config, distro, uki_dir);
        let one = staged_ukis(config, distro, uki_dir, seq![uki]);
        assert(config.ukis =~= Seq::empty());
        if let Some(os) = config.os_release {
            assert(os.name + " "@ + os.version =~= os.name + seq![' '] + os.version);
        }
        assert(all.steps =~= one.steps);
        assert(all.entries =~= one.entries);
        assert(all =~= one);
    } else {
        lemma_entries_or_nameless(config, distro, uki_dir, config.ukis);
    }
}

/// Where UKIs are staged, there is an entry or a UKI without a name.
proof fn lemma_entries_or_nameless(
    config: IsoConfigView,
    distro: DistroSettingsView,
    uki_dir: Seq<u8>,
    ukis: Seq<UkiSourceView>,
)
    requires
        ukis.len() > 0,
    ensures
        ({
            let staged = staged_ukis(config, distro, uki_dir, ukis);
            staged.nameless || staged.entries.len() > 0
        }),
{
}

/// The title of a prebuilt UKI is the stem of its file name, or the file name; the default UKI
/// is named after the OS and its version, or else after the label.
pub proof fn law_titles(
    stem: Seq<char>,
    filename: Seq<char>,
    os: OsReleaseView,
    label: Seq<char>,
)
    ensures
        menu_title_of(Some(stem), filename) == stem,
        menu_title_of(None, filename) == filename,
        default_title_of(None, label) == label,
        ({
            let title = default_title_of(Some(os), label);
            &&& title.len() == os.name.len() + 1 + os.version.len()
            &&& os.name.is_prefix_of(title)
            &&& title[os.name.len() as int] == ' '
            &&& os.version.is_suffix_of(title)
        }),
        ({
            let name = default_filename_of(label);
            &&& name.len() == label.len() + 4
            &&& label.is_prefix_of(name)
            &&& ".efi"@.is_suffix_of(name)
        }),
{
    reveal_strlit(" ");
    reveal_strlit(".efi");
    let title = default_title_of(Some(os), label);
    assert(os.name =~= title.subrange(0, os.name.len() as int));
    assert(os.version =~= title.subrange(title.len() - os.version.len(), title.len() as int));
    let name = default_filename_of(label);
    assert(label =~= name.subrange(0, label.len() as int));
    assert(".efi"@ =~= name.subrange(name.len() - 4, name.len() as int));
}

} // verus!
