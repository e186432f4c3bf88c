//! What holds of texts: trimming, splitting, numbers, file names and messages.
use crate::error::IsoErrorView;
use crate::iso::report_of;
use crate::paths::{extension_of, path_file_name, path_file_stem, path_shown, stem_of};
use crate::text::{decimal_digits, split_once_at, trimmed_end};
use vstd::prelude::*;

verus! {

/// `text`, this many times.
pub open spec fn copies(text: Seq<char>, count: nat) -> Seq<char>
    decreases count,
{
    if count == 0 {
        Seq::empty()
    } else {
        copies(text, (count - 1) as nat) + text
    }
}

/// However often a suffix is put behind a text that does not end with it, trimming takes all of
/// it away again and nothing else.
pub proof fn law_trimming_undoes_copies(text: Seq<char>, suffix: Seq<char>, count: nat)
    requires
        suffix.len() > 0,
        !suffix.is_suffix_of(text),
    ensures
        trimmed_end(text + copies(suffix, count), suffix) == text,
    decreases count,
{
    let whole = text + copies(suffix, count);
    if count == 0 {
        assert(whole =~= text);
    } else {
        let rest = text + copies(suffix, (count - 1) as nat);
        assert(whole =~= rest + suffix);
        assert(whole.subrange(rest.len() as int, whole.len() as int) =~= suffix);
        assert(whole.take(whole.len() - suffix.len()) =~= rest);
        law_trimming_undoes_copies(text, suffix, (count - 1) as nat);
    }
}

/// What trimming takes away is nothing but copies of the suffix.
pub proof fn law_nothing_but_copies_is_trimmed(text: Seq<char>, suffix: Seq<char>)
    requires
        suffix.len() > 0,
    ensures
        exists|count: nat| text == trimmed_end(text, suffix) + #[trigger] copies(suffix, count),
    decreases text.len(),
{
    if suffix.is_suffix_of(text) {
        let rest = text.take(text.len() - suffix.len());
        law_nothing_but_copies_is_trimmed(rest, suffix);
        let count = choose|count: nat|
            rest == trimmed_end(rest, suffix) + #[trigger] copies(suffix, count);
        assert(text =~= rest + suffix);
        assert(text =~= trimmed_end(text, suffix) + copies(suffix, count + 1));
    } else {
        assert(text =~= text + copies(suffix, 0));
    }
}

/// A text is split exactly where the delimiter is in it.
pub proof fn law_split_needs_the_delimiter(text: Seq<char>, delimiter: char)
    ensures
        split_once_at(text, delimiter) is Some <==> text.contains(delimiter),
{
    text.index_of_first_ensures(delimiter);
}

/// The number that decimal digits stand for.
pub open spec fn number_of(digits: Seq<char>) -> int
    decreases digits.len(),
{
    if digits.len() == 0 {
        0
    } else {
        10 * number_of(digits.drop_last()) + (digits.last() as int - '0' as int)
    }
}

/// A number in decimal notation stands for that number, is made of digits, and begins with zero
/// only where it is zero.
pub proof fn law_decimal_stands_for_the_number(number: nat)
    ensures
        number_of(decimal_digits(number)) == number,
        decimal_digits(number).len() > 0,
        forall|i: int|
            0 <= i < decimal_digits(number).len() ==> '0' <= #[trigger] decimal_digits(number)[i]
                <= '9',
        number > 0 ==> decimal_digits(number)[0] != '0',
        number < 10 ==> decimal_digits(number).len() == 1,
    decreases number,
{
    let digits = decimal_digits(number);
    reveal_with_fuel(number_of, 2);
    if number >= 10 {
        law_decimal_stands_for_the_number(number / 10);
        assert(digits.drop_last() =~= decimal_digits(number / 10));
    }
}

/// A file name is its stem, or its stem, a dot and its extension. There is an extension exactly
/// where there is a dot behind the first character; the extension has no dot in it.
pub proof fn law_stem_and_extension_make_the_name(name: Seq<u8>)
    ensures
        extension_of(name) is Some <==> exists|i: int| 0 < i < name.len() && #[trigger] name[i] == 0x2e,
        match extension_of(name) {
            Some(extension) => {
                &&& name == stem_of(name) + seq![0x2eu8] + extension
                &&& stem_of(name).len() > 0
                &&& !extension.contains(0x2e)
            },
            None => stem_of(name) == name,
        },
{
    name.index_of_last_ensures(0x2e);
    if let Some(extension) = extension_of(name) {
        let at = name.index_of_last(0x2e)->0;
        assert(name[at] == 0x2e);
        assert(name =~= stem_of(name) + seq![0x2eu8] + extension);
        if extension.contains(0x2e) {
            let i = choose|i: int| 0 <= i < extension.len() && extension[i] == 0x2e;
            assert(name[at + 1 + i] == 0x2e);
        }
    } else if exists|i: int| 0 < i < name.len() && #[trigger] name[i] == 0x2e {
        let i = choose|i: int| 0 < i < name.len() && #[trigger] name[i] == 0x2e;
        assert(name.contains(name[i]));
    }
}

/// A path has a stem exactly where it names a file, and then it is the stem of that file name.
pub proof fn law_stem_is_of_the_file_name(path: Seq<u8>)
    ensures
        path_file_stem(path) is Some <==> path_file_name(path) is Some,
        path_file_name(path) matches Some(name) ==> path_file_stem(path) == Some(stem_of(name)),
{
}

/// The message of an error says what is wrong and shows the path or the text that is meant: a
/// path as it is shown, a text as it is.
pub proof fn law_messages_name_the_culprit(path: Seq<u8>, text: Seq<char>, shown: Seq<char>)
    ensures
        ({
            let error = IsoErrorView::KernelNotFound(path);
            &&& error.text(shown) == "Kernel not found: "@ + shown
            &&& error.message() == "Kernel not found: "@ + path_shown(path)
        }),
        ({
            let error = IsoErrorView::InitrdNotFound(path);
            &&& error.text(shown) == "Initrd not found: "@ + shown
            &&& error.message() == "Initrd not found: "@ + path_shown(path)
        }),
        ({
            let error = IsoErrorView::RootfsNotFound(path);
            &&& error.text(shown) == "Rootfs not found: "@ + shown
            &&& error.message() == "Rootfs not found: "@ + path_shown(path)
        }),
        ({
            let error = IsoErrorView::OverlayNotFound(path);
            &&& error.text(shown) == "Overlay image not found: "@ + shown
            &&& error.message() == "Overlay image not found: "@ + path_shown(path)
        }),
        ({
            let error = IsoErrorView::OverlayNotAFile(path);
            &&& error.text(shown) == "Overlay image path is not a file: "@ + shown
            &&& error.message() == "Overlay image path is not a file: "@ + path_shown(path)
        }),
        ({
            let error = IsoErrorView::UkiNotFound(path);
            &&& error.text(shown) == "UKI not found: "@ + shown
            &&& error.message() == "UKI not found: "@ + path_shown(path)
        }),
        ({
            let error = IsoErrorView::SystemdBootNotFound(path);
            let advice = ".\nInstall: sudo dnf install systemd-boot"@;
            &&& error.text(shown) == "systemd-boot not found at "@ + shown + advice
            &&& error.message() == "systemd-boot not found at "@ + path_shown(path) + advice
        }),
        ({
            let error = IsoErrorView::UkiWithoutFilename;
            &&& error.text(shown) == "UKI has no filename"@
            &&& error.message() == "UKI has no filename"@
        }),
        ({
            let error = IsoErrorView::InvalidBuildUki(text);
            let advice =
                "'\nExpected: 'name:extra_cmdline:filename'\nExample: 'Emergency:emergency:myos-emergency.efi'"@;
            &&& error.text(shown) == "Invalid --build-uki format: '"@ + text + advice
            &&& error.message() == "Invalid --build-uki format: '"@ + text + advice
        }),
        ({
            let error = IsoErrorView::InvalidExtraFile(text);
            let advice =
                "'\nExpected: 'src:dst'\nExample: '/tmp/initramfs-installed.img:boot/initramfs-installed.img'"@;
            &&& error.text(shown) == "Invalid --extra-file format: '"@ + text + advice
            &&& error.message() == "Invalid --extra-file format: '"@ + text + advice
        }),
{
}

/// The user is told where the ISO is, and how many whole megabytes it has where its size is
/// known: as many as there are times 1024 times 1024 bytes in it.
pub proof fn law_report_tells_the_megabytes(iso: Seq<u8>, size: u64, megabytes: nat)
    requires
        megabytes * 1048576 <= size < (megabytes + 1) * 1048576,
    ensures
        report_of(iso, None) == seq!["\nISO created: "@ + path_shown(iso)],
        report_of(iso, Some(size)).len() == 2,
        report_of(iso, Some(size))[0] == "\nISO created: "@ + path_shown(iso),
        ({
            let line = report_of(iso, Some(size))[1];
            let digits = line.subrange("  Size: "@.len() as int, line.len() - " MB"@.len());
            &&& "  Size: "@.is_prefix_of(line)
            &&& " MB"@.is_suffix_of(line)
            &&& digits == decimal_digits(megabytes)
            &&& number_of(digits) == megabytes
        }),
{
    assert(megabytes == size as nat / 1024 / 1024);
    let line = report_of(iso, Some(size))[1];
    let digits = decimal_digits(megabytes);
    assert(line == "  Size: "@ + digits + " MB"@);
    assert("  Size: "@ =~= line.subrange(0, "  Size: "@.len() as int));
    assert(" MB"@ =~= line.subrange(line.len() - " MB"@.len(), line.len() as int));
    assert(digits =~= line.subrange("  Size: "@.len() as int, line.len() - " MB"@.len()));
    law_decimal_stands_for_the_number(megabytes);
}

} // verus!
