//! What holds of the options of the command line and of the configuration they ask for.
use crate::cli::{
    branding_of, build_uki_of, build_ukis_of, config_of, extra_file_of, extra_files_of,
    is_partial_branding, summary_of, CliOptionsView,
};
use crate::config::{IsoConfigView, LivePayloadLayout, OsReleaseView, UkiSourceView};
use crate::error::IsoErrorView;
use crate::laws::{
    law_build_uki_round_trip, law_build_uki_written_back, law_build_ukis_in_order,
    law_extra_file_round_trip, law_extra_files_in_order, law_join_undoes_split,
};
use crate::paths::path_shown;
use crate::text::{decimal_digits, split_once_at};
use vstd::prelude::*;
use vstd::utf8::encode_utf8;

verus! {

/// Whether a text is "name:extra_cmdline:filename" for these three, of which the first two have
/// no colon in them.
pub open spec fn asks_to_build(
    text: Seq<char>,
    name: Seq<char>,
    extra_cmdline: Seq<char>,
    filename: Seq<char>,
) -> bool {
    &&& text == name + seq![':'] + extra_cmdline + seq![':'] + filename
    &&& !name.contains(':')
    &&& !extra_cmdline.contains(':')
}

/// Whether a text is "src:dst" for these two, of which neither is empty and the first has no
/// colon in it.
pub open spec fn asks_to_copy(text: Seq<char>, source: Seq<char>, dst: Seq<char>) -> bool {
    &&& text == source + seq![':'] + dst
    &&& source.len() > 0
    &&& dst.len() > 0
    &&& !source.contains(':')
}

/// Whether a text asks for a UKI to build.
pub open spec fn is_build_request(text: Seq<char>) -> bool {
    exists|name: Seq<char>, extra_cmdline: Seq<char>, filename: Seq<char>|
        asks_to_build(text, name, extra_cmdline, filename)
}

/// Whether a text asks for an extra file.
pub open spec fn is_copy_request(text: Seq<char>) -> bool {
    exists|source: Seq<char>, dst: Seq<char>| asks_to_copy(text, source, dst)
}

/// Whether a UKI is the one to build that a text asks for.
pub open spec fn is_asked_for(uki: UkiSourceView, text: Seq<char>) -> bool {
    uki matches UkiSourceView::Build { name, extra_cmdline, filename } && asks_to_build(
        text,
        name,
        extra_cmdline,
        filename,
    )
}

/// Whether an extra file is the one that a text asks for.
pub open spec fn is_file_asked_for(file: (Seq<u8>, Seq<char>), text: Seq<char>) -> bool {
    exists|source: Seq<char>| #[trigger]
        asks_to_copy(text, source, file.1) && file.0 == encode_utf8(source)
}

/// A text asks for a UKI to build exactly where it has the three parts, and then for the UKI
/// with these parts.
pub proof fn law_build_request_is_read(text: Seq<char>)
    ensures
        build_uki_of(text) is Some <==> is_build_request(text),
        build_uki_of(text) matches Some(uki) ==> {
            &&& uki matches UkiSourceView::Build { name, extra_cmdline, filename }
            &&& asks_to_build(text, name, extra_cmdline, filename)
        },
        forall|name: Seq<char>, extra_cmdline: Seq<char>, filename: Seq<char>| #[trigger]
            asks_to_build(text, name, extra_cmdline, filename) ==> build_uki_of(text) == Some(
                UkiSourceView::Build { name, extra_cmdline, filename },
            ),
{
    assert forall|name: Seq<char>, extra_cmdline: Seq<char>, filename: Seq<char>| #[trigger]
        asks_to_build(text, name, extra_cmdline, filename) implies build_uki_of(text) == Some(
        UkiSourceView::Build { name, extra_cmdline, filename },
    ) by {
        assert(text =~= name.push(':') + (extra_cmdline.push(':') + filename));
        law_build_uki_round_trip(name, extra_cmdline, filename);
    }
    if build_uki_of(text) is Some {
        law_build_uki_written_back(text);
        law_join_undoes_split(text, ':');
        let (first, rest) = split_once_at(text, ':')->0;
        law_join_undoes_split(rest, ':');
        if let Some(UkiSourceView::Build { name, extra_cmdline, filename }) = build_uki_of(text) {
            assert(text =~= name + seq![':'] + extra_cmdline + seq![':'] + filename);
            assert(asks_to_build(text, name, extra_cmdline, filename));
        }
    }
}

/// A text asks for an extra file exactly where it has the two parts, and then for the file with
/// these parts.
pub proof fn law_copy_request_is_read(text: Seq<char>)
    ensures
        extra_file_of(text) is Some <==> is_copy_request(text),
        forall|source: Seq<char>, dst: Seq<char>| #[trigger]
            asks_to_copy(text, source, dst) ==> extra_file_of(text) == Some(
                (encode_utf8(source), dst),
            ),
{
    assert forall|source: Seq<char>, dst: Seq<char>| #[trigger]
        asks_to_copy(text, source, dst) implies extra_file_of(text) == Some(
        (encode_utf8(source), dst),
    ) by {
        assert(text =~= source.push(':') + dst);
        law_extra_file_round_trip(source, dst);
    }
    if extra_file_of(text) is Some {
        law_join_undoes_split(text, ':');
        let (source, dst) = split_once_at(text, ':')->0;
        assert(text =~= source + seq![':'] + dst);
        assert(asks_to_copy(text, source, dst));
    }
}

/// The options ask for a configuration exactly where every UKI to build and every extra file is
/// written as it should be.
pub proof fn law_options_are_accepted_iff_readable(options: CliOptionsView)
    ensures
        config_of(options) is Ok <==> {
            &&& forall|i: int|
                0 <= i < options.build_ukis.len() ==> is_build_request(
                    #[trigger] options.build_ukis[i],
                )
            &&& forall|i: int|
                0 <= i < options.extra_files.len() ==> is_copy_request(
                    #[trigger] options.extra_files[i],
                )
        },
{
    law_build_ukis_in_order(options.build_ukis);
    law_extra_files_in_order(options.extra_files);
    assert forall|i: int| 0 <= i < options.build_ukis.len() implies (build_uki_of(
        #[trigger] options.build_ukis[i],
    ) is Some <==> is_build_request(options.build_ukis[i])) by {
        law_build_request_is_read(options.build_ukis[i]);
    }
    assert forall|i: int| 0 <= i < options.extra_files.len() implies (extra_file_of(
        #[trigger] options.extra_files[i],
    ) is Some <==> is_copy_request(options.extra_files[i])) by {
        law_copy_request_is_read(options.extra_files[i]);
    }
}

/// Where options are refused, the error quotes the first UKI to build that is not written as it
/// should be, or else the first such extra file.
pub proof fn law_refusal_quotes_the_first_culprit(options: CliOptionsView)
    ensures
        config_of(options) matches Err(error) ==> {
            ||| exists|i: int| {
                &&& 0 <= i < options.build_ukis.len()
                &&& error == IsoErrorView::InvalidBuildUki(#[trigger] options.build_ukis[i])
                &&& !is_build_request(options.build_ukis[i])
                &&& forall|j: int|
                    0 <= j < i ==> is_build_request(#[trigger] options.build_ukis[j])
            }
            ||| exists|i: int| {
                &&& 0 <= i < options.extra_files.len()
                &&& error == IsoErrorView::InvalidExtraFile(#[trigger] options.extra_files[i])
                &&& !is_copy_request(options.extra_files[i])
                &&& forall|j: int|
                    0 <= j < i ==> is_copy_request(#[trigger] options.extra_files[j])
                &&& forall|j: int|
                    0 <= j < options.build_ukis.len() ==> is_build_request(
                        #[trigger] options.build_ukis[j],
                    )
            }
        },
{
    law_build_ukis_in_order(options.build_ukis);
    law_extra_files_in_order(options.extra_files);
    assert forall|i: int| 0 <= i < options.build_ukis.len() implies (build_uki_of(
        #[trigger] options.build_ukis[i],
    ) is Some <==> is_build_request(options.build_ukis[i])) by {
        law_build_request_is_read(options.build_ukis[i]);
    }
    assert forall|i: int| 0 <= i < options.extra_files.len() implies (extra_file_of(
        #[trigger] options.extra_files[i],
    ) is Some <==> is_copy_request(options.extra_files[i])) by {
        law_copy_request_is_read(options.extra_files[i]);
    }
    let texts = options.build_ukis;
    let files = options.extra_files;
    if let Err(text) = build_ukis_of(texts) {
        let i = choose|i: int|
            0 <= i < texts.len() && #[trigger] texts[i] == text && build_uki_of(text) is None
                && forall|j: int| 0 <= j < i ==> build_uki_of(#[trigger] texts[j]) is Some;
        assert(texts[i] == text);
        assert(!is_build_request(texts[i]));
    } else if let Err(text) = extra_files_of(files) {
        let i = choose|i: int|
            0 <= i < files.len() && #[trigger] files[i] == text && extra_file_of(text) is None
                && forall|j: int| 0 <= j < i ==> extra_file_of(#[trigger] files[j]) is Some;
        assert(files[i] == text);
        assert(!is_copy_request(files[i]));
    }
}

/// Each option is carried over into the configuration, whatever the others are: the prebuilt
/// UKIs in their order, and behind them those to build in theirs; the extra files in theirs; and
/// the OS release where all three parts of it are given.
pub proof fn law_every_option_is_carried_over(options: CliOptionsView, config: IsoConfigView)
    requires
        config_of(options) == Ok::<IsoConfigView, IsoErrorView>(config),
    ensures
        config.kernel == options.kernel,
        config.initrd == options.initrd,
        config.rootfs == options.rootfs,
        config.label == options.label,
        config.output == options.output,
        config.overlay_image == options.overlay_image,
        config.live_payload_layout == options.live_payload_layout,
        config.generate_checksum == !options.no_checksum,
        config.ukis.len() == options.ukis.len() + options.build_ukis.len(),
        forall|i: int|
            0 <= i < options.ukis.len() ==> #[trigger] config.ukis[i] == UkiSourceView::Prebuilt(
                options.ukis[i],
            ),
        forall|i: int|
            0 <= i < options.build_ukis.len() ==> is_asked_for(
                config.ukis[options.ukis.len() + i],
                #[trigger] options.build_ukis[i],
            ),
        config.extra_files.len() == options.extra_files.len(),
        forall|i: int|
            0 <= i < options.extra_files.len() ==> is_file_asked_for(
                config.extra_files[i],
                #[trigger] options.extra_files[i],
            ),
        match (options.os_name, options.os_id, options.os_version) {
            (Some(name), Some(id), Some(version)) => config.os_release == Some(
                OsReleaseView { name, id, version },
            ),
            _ => config.os_release is None,
        },
{
    law_build_ukis_in_order(options.build_ukis);
    law_extra_files_in_order(options.extra_files);
    let built = build_ukis_of(options.build_ukis)->Ok_0;
    let files = extra_files_of(options.extra_files)->Ok_0;
    assert forall|i: int| 0 <= i < options.build_ukis.len() implies is_asked_for(
        config.ukis[options.ukis.len() + i],
        #[trigger] options.build_ukis[i],
    ) by {
        law_build_request_is_read(options.build_ukis[i]);
        assert(config.ukis[options.ukis.len() + i] == built[i]);
    }
    assert forall|i: int| 0 <= i < options.extra_files.len() implies is_file_asked_for(
        config.extra_files[i],
        #[trigger] options.extra_files[i],
    ) by {
        let text = options.extra_files[i];
        law_copy_request_is_read(text);
        assert(config.extra_files[i] == files[i]);
        assert(extra_file_of(text) == Some(files[i]));
        let (source, dst) = choose|source: Seq<char>, dst: Seq<char>|
            asks_to_copy(text, source, dst);
        assert(asks_to_copy(text, source, files[i].1));
    }
}

/// The user is warned of a branding that is not used exactly where one or two of its three parts
/// are given.
pub proof fn law_branding_takes_all_three(
    name: Option<Seq<char>>,
    id: Option<Seq<char>>,
    version: Option<Seq<char>>,
    options: CliOptionsView,
)
    requires
        options.os_name == name,
        options.os_id == id,
        options.os_version == version,
    ensures
        ({
            let given: int = (if name is Some { 1int } else { 0 }) + (if id is Some {
                1int
            } else {
                0
            }) + (if version is Some { 1int } else { 0 });
            &&& is_partial_branding(options) <==> 1 <= given <= 2
            &&& branding_of(name, id, version) is Some <==> given == 3
            &&& branding_of(name, id, version) matches Some(os) ==> {
                &&& Some(os.name) == name
                &&& Some(os.id) == id
                &&& Some(os.version) == version
            }
        }),
{
}

/// A new configuration has what every ISO needs, has a checksum made and the payloads appended as
/// partitions, and has nothing else in it.
pub proof fn law_new_configuration_is_bare(
    kernel: Seq<u8>,
    initrd: Seq<u8>,
    rootfs: Seq<u8>,
    label: Seq<char>,
    output: Seq<u8>,
)
    ensures
        ({
            let config = IsoConfigView::basic(kernel, initrd, rootfs, label, output);
            &&& config.kernel == kernel
            &&& config.initrd == initrd
            &&& config.rootfs == rootfs
            &&& config.label == label
            &&& config.output == output
            &&& config.ukis.len() == 0
            &&& config.extra_files.len() == 0
            &&& config.overlay_image is None
            &&& config.os_release is None
            &&& config.generate_checksum
            &&& config.live_payload_layout == LivePayloadLayout::AppendedPartitions
        }),
{
}

/// One more UKI or extra file comes behind those that are there, and changes nothing else.
pub proof fn law_additions_come_last(
    config: IsoConfigView,
    uki: UkiSourceView,
    source: Seq<u8>,
    dst: Seq<char>,
)
    ensures
        config.plus_uki(uki).ukis.len() == config.ukis.len() + 1,
        config.plus_uki(uki).ukis.last() == uki,
        config.plus_uki(uki).ukis.drop_last() == config.ukis,
        config.plus_uki(uki) == (IsoConfigView { ukis: config.plus_uki(uki).ukis, ..config }),
        config.plus_extra_file(source, dst).extra_files.len() == config.extra_files.len() + 1,
        config.plus_extra_file(source, dst).extra_files.last() == (source, dst),
        config.plus_extra_file(source, dst).extra_files.drop_last() == config.extra_files,
        config.plus_extra_file(source, dst) == (IsoConfigView {
            extra_files: config.plus_extra_file(source, dst).extra_files,
            ..config
        }),
{
    assert(config.plus_uki(uki).ukis.drop_last() =~= config.ukis);
    assert(config.plus_extra_file(source, dst).extra_files.drop_last() =~= config.extra_files);
}

/// The user is told of the ISO and of what goes into it, a line for each thing, and of nothing
/// that does not.
pub proof fn law_summary_tells_what_goes_in(config: IsoConfigView)
    ensures
        ({
            let lines = summary_of(config);
            let overlay: int = if config.overlay_image is Some { 1 } else { 0 };
            let files: int = if config.extra_files.len() > 0 { 1 } else { 0 };
            let ukis: int = if config.ukis.len() > 0 { 1 } else { 0 };
            let os: int = if config.os_release is Some { 1 } else { 0 };
            &&& lines.len() == 6 + overlay + files + ukis + os
            &&& lines[0] == "Creating ISO: "@ + path_shown(config.output)
            &&& lines[1] == "  Kernel: "@ + path_shown(config.kernel)
            &&& lines[2] == "  Initrd: "@ + path_shown(config.initrd)
            &&& lines[3] == "  Rootfs: "@ + path_shown(config.rootfs)
            &&& lines[4] == "  Label: "@ + config.label
            &&& config.overlay_image matches Some(image) ==> lines[5] == "  Overlay image: "@
                + path_shown(image)
            &&& config.extra_files.len() > 0 ==> lines[5 + overlay] == "  Extra files: "@
                + decimal_digits(config.extra_files.len())
            &&& config.ukis.len() > 0 ==> lines[5 + overlay + files] == "  UKIs: "@
                + decimal_digits(config.ukis.len())
            &&& config.os_release matches Some(release) ==> lines[5 + overlay + files + ukis]
                == "  OS: "@ + release.name + " "@ + release.version + " ("@ + release.id + ")"@
            &&& lines.last() == ""@
        }),
{
}

} // verus!
