//! What holds of the inputs that have to exist.
use crate::checks::{
    input_checks_view, uki_checks, verdict, InputCheckView, Probe, ValidationView,
};
use crate::config::{IsoConfigView, UkiSourceView};
use crate::distro::DistroSettingsView;
use crate::error::IsoErrorView;
use crate::iso::{iso_plan, iso_plan_in, iso_progress, work_dir_of, ProgressView};
use crate::paths::path_parent;
use vstd::prelude::*;
use vstd::utf8::encode_utf8;

verus! {

/// The paths of the UKIs that are prebuilt, in their order.
pub open spec fn prebuilt_paths(ukis: Seq<UkiSourceView>) -> Seq<Seq<u8>>
    decreases ukis.len(),
{
    if ukis.len() == 0 {
        Seq::empty()
    } else {
        match ukis.last() {
            UkiSourceView::Prebuilt(path) => prebuilt_paths(ukis.drop_last()).push(path),
            UkiSourceView::Build { .. } => prebuilt_paths(ukis.drop_last()),
        }
    }
}

/// A path is among those of the prebuilt UKIs exactly where such a UKI is asked for.
pub proof fn law_prebuilt_paths_are_those_asked_for(ukis: Seq<UkiSourceView>, path: Seq<u8>)
    ensures
        prebuilt_paths(ukis).contains(path) <==> ukis.contains(UkiSourceView::Prebuilt(path)),
        prebuilt_paths(ukis).len() <= ukis.len(),
    decreases ukis.len(),
{
    if ukis.len() > 0 {
        let before = ukis.drop_last();
        law_prebuilt_paths_are_those_asked_for(before, path);
        let paths = prebuilt_paths(ukis);
        let wanted = UkiSourceView::Prebuilt(path);
        assert(ukis =~= before.push(ukis.last()));
        if before.contains(wanted) {
            let i = choose|i: int| 0 <= i < before.len() && before[i] == wanted;
            assert(ukis[i] == wanted);
            let j = choose|j: int|
                0 <= j < prebuilt_paths(before).len() && prebuilt_paths(before)[j] == path;
            assert(paths[j] == path);
        }
        if ukis.last() == wanted {
            assert(ukis[ukis.len() - 1] == wanted);
            assert(paths[paths.len() - 1] == path);
        }
        if paths.contains(path) && !before.contains(wanted) {
            let j = choose|j: int| 0 <= j < paths.len() && paths[j] == path;
            if j < prebuilt_paths(before).len() {
                assert(prebuilt_paths(before)[j] == path);
            }
            assert(ukis.last() == wanted);
        }
        if ukis.contains(wanted) && !before.contains(wanted) {
            let i = choose|i: int| 0 <= i < ukis.len() && ukis[i] == wanted;
            if i < before.len() {
                assert(before[i] == wanted);
            }
        }
    }
}

/// There is one check for each prebuilt UKI, in their order.
proof fn lemma_uki_checks(ukis: Seq<UkiSourceView>)
    ensures
        uki_checks(ukis).len() == prebuilt_paths(ukis).len(),
        forall|i: int|
            0 <= i < prebuilt_paths(ukis).len() ==> #[trigger] uki_checks(ukis)[i] == (
            InputCheckView {
                path: prebuilt_paths(ukis)[i],
                probe: Probe::Exists,
                failure: IsoErrorView::UkiNotFound(prebuilt_paths(ukis)[i]),
            }),
    decreases ukis.len(),
{
    if ukis.len() > 0 {
        lemma_uki_checks(ukis.drop_last());
    }
}

/// Nothing but the inputs is asked for, and each of them: kernel, initramfs and rootfs; the
/// overlay image, if there is one, twice; each prebuilt UKI in its turn; and last systemd-boot.
/// A UKI that is to be built does not have to exist. Where an input is missing, the error says
/// which.
pub proof fn law_nothing_but_the_inputs_is_asked_for(config: IsoConfigView)
    ensures
        ({
            let checks = input_checks_view(config);
            let overlay: int = if config.overlay_image is Some {
                2
            } else {
                0
            };
            let paths = prebuilt_paths(config.ukis);
            let boot = encode_utf8("/usr/lib/systemd/boot/efi/systemd-bootx64.efi"@);
            &&& checks.len() == 4 + overlay + paths.len()
            &&& checks[0] == (InputCheckView {
                path: config.kernel,
                probe: Probe::Exists,
                failure: IsoErrorView::KernelNotFound(config.kernel),
            })
            &&& checks[1] == (InputCheckView {
                path: config.initrd,
                probe: Probe::Exists,
                failure: IsoErrorView::InitrdNotFound(config.initrd),
            })
            &&& checks[2] == (InputCheckView {
                path: config.rootfs,
                probe: Probe::Exists,
                failure: IsoErrorView::RootfsNotFound(config.rootfs),
            })
            &&& config.overlay_image matches Some(image) ==> {
                &&& checks[3] == (InputCheckView {
                    path: image,
                    probe: Probe::Exists,
                    failure: IsoErrorView::OverlayNotFound(image),
                })
                &&& checks[4] == (InputCheckView {
                    path: image,
                    probe: Probe::IsFile,
                    failure: IsoErrorView::OverlayNotAFile(image),
                })
            }
            &&& forall|i: int|
                0 <= i < paths.len() ==> checks[3 + overlay + i] == (InputCheckView {
                    path: #[trigger] paths[i],
                    probe: Probe::Exists,
                    failure: IsoErrorView::UkiNotFound(paths[i]),
                })
            &&& checks[checks.len() - 1] == (InputCheckView {
                path: boot,
                probe: Probe::Exists,
                failure: IsoErrorView::SystemdBootNotFound(boot),
            })
        }),
{
    lemma_uki_checks(config.ukis);
    let paths = prebuilt_paths(config.ukis);
    assert(forall|i: int|
        0 <= i < paths.len() ==> uki_checks(config.ukis)[i].path == #[trigger] paths[i]);
}

/// UKIs that are to be built change nothing about what has to exist.
pub proof fn law_built_ukis_need_not_exist(
    config: IsoConfigView,
    name: Seq<char>,
    extra_cmdline: Seq<char>,
    filename: Seq<char>,
)
    ensures
        input_checks_view(
            (IsoConfigView {
                ukis: config.ukis.push(UkiSourceView::Build { name, extra_cmdline, filename }),
                ..config
            }),
        ) == input_checks_view(config),
{
    let uki = UkiSourceView::Build { name, extra_cmdline, filename };
    assert(config.ukis.push(uki).drop_last() =~= config.ukis);
    assert(config.ukis.push(uki).last() == uki);
}

/// Whether the first `count` questions were answered, and all of them with yes.
pub open spec fn all_yes(answers: Seq<bool>, count: int) -> bool {
    count <= answers.len() && forall|i: int| 0 <= i < count ==> #[trigger] answers[i]
}

/// The inputs are accepted exactly when every question was answered with yes; rejected when one
/// was answered with no and those before it with yes, and then with the error of that one; and
/// else the first question without an answer is asked.
pub proof fn law_verdict_goes_by_the_first_no(
    checks: Seq<InputCheckView>,
    answers: Seq<bool>,
    at: int,
)
    requires
        0 <= at < checks.len(),
        all_yes(answers, at),
    ensures
        verdict(checks, answers) == ValidationView::Accepted <==> all_yes(
            answers,
            checks.len() as int,
        ),
        at < answers.len() && !answers[at] ==> verdict(checks, answers)
            == ValidationView::Rejected(checks[at].failure),
        at == answers.len() ==> verdict(checks, answers) == ValidationView::Ask(checks[at]),
        verdict(Seq::empty(), answers) == ValidationView::Accepted,
{
    answers.index_of_first_ensures(false);
    if answers.index_of_first(false) is None {
        assert forall|i: int| 0 <= i < answers.len() implies #[trigger] answers[i] by {
            if !answers[i] {
                assert(answers.contains(answers[i]));
            }
        }
    } else {
        let first = answers.index_of_first(false)->0;
        assert(!answers[first]);
    }
}

/// The creation of an ISO asks what the validation of its inputs asks, and is rejected for the
/// same reason. Once the inputs are accepted, the plan is made for the directory that the ISO
/// goes to, or for the current one where its path names none.
pub proof fn law_creation_follows_the_validation(
    config: IsoConfigView,
    distro: DistroSettingsView,
    answers: Seq<bool>,
)
    ensures
        match verdict(input_checks_view(config), answers) {
            ValidationView::Ask(check) => iso_progress(config, distro, answers)
                == ProgressView::Ask(check),
            ValidationView::Rejected(error) => iso_progress(config, distro, answers)
                == ProgressView::Rejected(error),
            ValidationView::Accepted => iso_progress(config, distro, answers)
                == ProgressView::Ready(
                iso_plan_in(
                    config,
                    distro,
                    match path_parent(config.output) {
                        Some(dir) => dir,
                        None => encode_utf8("."@),
                    },
                ),
            ),
        },
        iso_plan(config, distro) == iso_plan_in(
            config,
            distro,
            match path_parent(config.output) {
                Some(dir) => dir,
                None => encode_utf8("."@),
            },
        ),
        forall|dir: Seq<u8>| #[trigger] work_dir_of(Some(dir)) == dir,
        work_dir_of(None) == encode_utf8("."@),
{
}

} // verus!
