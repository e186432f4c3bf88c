//! The inputs that have to exist before an ISO is created.
use crate::config::{IsoConfig, IsoConfigView, UkiSource, UkiSourceView};
use crate::error::{IsoError, IsoErrorView};
use crate::paths::{path_bytes, path_from};
use std::path::PathBuf;
use vstd::prelude::*;
use vstd::utf8::encode_utf8;

verus! {

/// Where systemd-boot is installed.
pub const SYSTEMD_BOOT: &'static str = "/usr/lib/systemd/boot/efi/systemd-bootx64.efi";

/// A question about the file system.
#[derive(Debug, Clone, Copy, PartialEq, Eq, Structural)]
pub enum Probe {
    /// Whether there is anything at a path.
    Exists,
    /// Whether there is a file at a path.
    IsFile,
}

/// A question about one input, and the error that is due where the answer is no.
#[derive(Debug)]
pub struct InputCheck {
    /// The path in question.
    pub path: PathBuf,
    /// What is asked of it.
    pub probe: Probe,
    /// The error where the answer is no.
    pub failure: IsoError,
}

/// The model of an [`InputCheck`].
pub struct InputCheckView {
    pub path: Seq<u8>,
    pub probe: Probe,
    pub failure: IsoErrorView,
}

impl View for InputCheck {
    type V = InputCheckView;

    open spec fn view(&self) -> InputCheckView {
        InputCheckView {
            path: path_bytes(self.path),
            probe: self.probe,
            failure: self.failure@,
        }
    }
}

/// How far the validation of the inputs has come.
#[derive(Debug)]
pub enum Validation {
    /// This question has to be answered next.
    Ask(InputCheck),
    /// An input is missing.
    Rejected(IsoError),
    /// Every input is there.
    Accepted,
}

/// The model of a [`Validation`].
pub enum ValidationView {
    Ask(InputCheckView),
    Rejected(IsoErrorView),
    Accepted,
}

impl View for Validation {
    type V = ValidationView;

    open spec fn view(&self) -> ValidationView {
        match *self {
            Validation::Ask(check) => ValidationView::Ask(check@),
            Validation::Rejected(error) => ValidationView::Rejected(error@),
            Validation::Accepted => ValidationView::Accepted,
        }
    }
}

/// The models of checks, in their order.
pub open spec fn checks_view(checks: Seq<InputCheck>) -> Seq<InputCheckView> {
    Seq::new(checks.len(), |i: int| checks[i]@)
}

/// The check that there is something at `path`.
pub open spec fn exists_check(path: Seq<u8>, failure: IsoErrorView) -> InputCheckView {
    InputCheckView { path, probe: Probe::Exists, failure }
}

/// The checks of an overlay image: that it exists, then that it is a file.
pub open spec fn overlay_checks(overlay_image: Option<Seq<u8>>) -> Seq<InputCheckView> {
    match overlay_image {
        Some(path) => seq![
            exists_check(path, IsoErrorView::OverlayNotFound(path)),
            InputCheckView {
                path,
                probe: Probe::IsFile,
                failure: IsoErrorView::OverlayNotAFile(path),
            },
        ],
        None => seq![],
    }
}

/// The checks of the UKI sources: one for each prebuilt UKI, in their order.
pub open spec fn uki_checks(ukis: Seq<UkiSourceView>) -> Seq<InputCheckView>
    decreases ukis.len(),
{
    if ukis.len() == 0 {
        seq![]
    } else {
        match ukis.last() {
            UkiSourceView::Prebuilt(path) => uki_checks(ukis.drop_last()).push(
                exists_check(path, IsoErrorView::UkiNotFound(path)),
            ),
            UkiSourceView::Build { .. } => uki_checks(ukis.drop_last()),
        }
    }
}

/// Every check of the inputs, in the order in which they are made: kernel, initramfs, rootfs,
/// overlay image, prebuilt UKIs, systemd-boot.
pub open spec fn input_checks_view(config: IsoConfigView) -> Seq<InputCheckView> {
    let systemd_boot = encode_utf8(SYSTEMD_BOOT@);
    seq![
        exists_check(config.kernel, IsoErrorView::KernelNotFound(config.kernel)),
        exists_check(config.initrd, IsoErrorView::InitrdNotFound(config.initrd)),
        exists_check(config.rootfs, IsoErrorView::RootfsNotFound(config.rootfs)),
    ] + overlay_checks(config.overlay_image) + uki_checks(config.ukis) + seq![
        exists_check(systemd_boot, IsoErrorView::SystemdBootNotFound(systemd_boot)),
    ]
}

/// What follows from the answers to the first of some checks: the error of the first one that
/// was answered with no; else the first check without an answer; else acceptance.
pub open spec fn verdict(checks: Seq<InputCheckView>, answers: Seq<bool>) -> ValidationView {
    match answers.index_of_first(false) {
        Some(at) => if at < checks.len() {
            ValidationView::Rejected(checks[at].failure)
        } else {
            ValidationView::Accepted
        },
        None => if answers.len() < checks.len() {
            ValidationView::Ask(checks[answers.len() as int])
        } else {
            ValidationView::Accepted
        },
    }
}

/// Every check of the inputs, in the order in which they are made.
pub fn input_checks(config: &IsoConfig) -> (checks: Vec<InputCheck>)
    ensures
        checks_view(checks@) == input_checks_view(config@),
{
    let mut checks: Vec<InputCheck> = Vec::new();
    checks.push(
        InputCheck {
            path: config.kernel.clone(),
            probe: Probe::Exists,
            failure: IsoError::KernelNotFound(config.kernel.clone()),
        },
    );
    checks.push(
        InputCheck {
            path: config.initrd.clone(),
            probe: Probe::Exists,
            failure: IsoError::InitrdNotFound(config.initrd.clone()),
        },
    );
    checks.push(
        InputCheck {
            path: config.rootfs.clone(),
            probe: Probe::Exists,
            failure: IsoError::RootfsNotFound(config.rootfs.clone()),
        },
    );
    if let Some(overlay_image) = &config.overlay_image {
        checks.push(
            InputCheck {
                path: overlay_image.clone(),
                probe: Probe::Exists,
                failure: IsoError::OverlayNotFound(overlay_image.clone()),
            },
        );
        checks.push(
            InputCheck {
                path: overlay_image.clone(),
                probe: Probe::IsFile,
                failure: IsoError::OverlayNotAFile(overlay_image.clone()),
            },
        );
    }
    let ghost fixed = checks_view(checks@);
    proof {
        let first_three = seq![
            exists_check(config@.kernel, IsoErrorView::KernelNotFound(config@.kernel)),
            exists_check(config@.initrd, IsoErrorView::InitrdNotFound(config@.initrd)),
            exists_check(config@.rootfs, IsoErrorView::RootfsNotFound(config@.rootfs)),
        ];
        assert(fixed =~= first_three + overlay_checks(config@.overlay_image));
        assert(config@.ukis.take(0) =~= seq![]);
        assert(fixed =~= fixed + uki_checks(config@.ukis.take(0)));
    }
    let mut at: usize = 0;
    while at < config.ukis.len()
        invariant
            at <= config.ukis@.len(),
            checks_view(checks@) == fixed + uki_checks(config@.ukis.take(at as int)),
        decreases config.ukis@.len() - at,
    {
        let ghost before = checks@;
        if let UkiSource::Prebuilt(path) = &config.ukis[at] {
            checks.push(
                InputCheck {
                    path: path.clone(),
                    probe: Probe::Exists,
                    failure: IsoError::UkiNotFound(path.clone()),
                },
            );
        }
        proof {
            let taken = config@.ukis.take(at + 1);
            assert(taken.drop_last() =~= config@.ukis.take(at as int));
            assert(taken.last() == config.ukis@[at as int]@);
            if taken.last() is Prebuilt {
                assert(checks_view(checks@) =~= checks_view(before).push(checks@.last()@));
                assert(checks_view(checks@) =~= fixed + uki_checks(taken));
            }
        }
        at = at + 1;
    }
    assert(config@.ukis.take(config.ukis@.len() as int) =~= config@.ukis);
    let ghost before = checks@;
    let systemd_boot = path_from(SYSTEMD_BOOT);
    checks.push(
        InputCheck {
            path: systemd_boot.clone(),
            probe: Probe::Exists,
            failure: IsoError::SystemdBootNotFound(systemd_boot),
        },
    );
    assert(checks_view(checks@) =~= checks_view(before) + seq![checks@.last()@]);
    checks
}

/// Validate that required input files exist.
///
/// `answers` holds the answers to the questions that were asked so far: the first call takes
/// none, and each [`Validation::Ask`] wants the next one.
pub fn validate_inputs(config: &IsoConfig, answers: &Vec<bool>) -> (validation: Validation)
    ensures
        validation@ == verdict(input_checks_view(config@), answers@),
{
    let mut checks = input_checks(config);
    let mut at: usize = 0;
    proof {
        answers@.index_of_first_ensures(false);
    }
    while at < answers.len() && at < checks.len()
        invariant
            at <= answers@.len(),
            at <= checks@.len(),
            forall|i: int| 0 <= i < at ==> answers@[i],
            checks_view(checks@) == input_checks_view(config@),
            answers@.index_of_first(false) matches Some(first) ==> 0 <= first < answers@.len()
                && !answers@[first] && (forall|j: int| 0 <= j < first ==> answers@[j]),
            answers@.index_of_first(false) is None ==> !answers@.contains(false),
        decreases checks@.len() - at,
    {
        if !answers[at] {
            assert(answers@[at as int] == false);
            assert(checks_view(checks@)[at as int] == checks@[at as int]@);
            let failed = checks.remove(at);
            return Validation::Rejected(failed.failure);
        }
        at = at + 1;
    }
    if at < checks.len() {
        assert(checks_view(checks@)[at as int] == checks@[at as int]@);
        Validation::Ask(checks.remove(at))
    } else {
        Validation::Accepted
    }
}

} // verus!
