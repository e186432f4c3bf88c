//! What holds of the boot menu.
use crate::boot::entries_to_fat_steps;
use crate::laws::texts::{copies, law_trimming_undoes_copies};
use crate::loader::{
    entry_content_of, entry_id_of, entry_step, is_entry_extension, is_entry_path, loader_config_of,
    loader_entries_steps, UkiMenuEntryView,
};
use crate::paths::{path_file_name, path_joined, path_shown};
use crate::step::StepView;
use vstd::prelude::*;
use vstd::utf8::{encode_utf8, is_ascii_chars_encode_utf8};

verus! {

/// The file of a menu entry has the name of its UKI with one `.conf` in place of every `.efi` at
/// its end, also where there is none.
pub proof fn law_entry_file_is_named_after_the_uki(stem: Seq<char>, count: nat)
    requires
        !".efi"@.is_suffix_of(stem),
    ensures
        entry_id_of(stem + copies(".efi"@, count)) == stem + ".conf"@,
{
    reveal_strlit(".efi");
    law_trimming_undoes_copies(stem, ".efi"@, count);
}

/// What a menu entry says: two lines, of which the first has the title and the second the UKI,
/// both in full.
pub proof fn law_entry_names_its_uki(title: Seq<char>, filename: Seq<char>)
    ensures
        ({
            let content = entry_content_of(title, filename);
            let second = ("title "@ + title + "\n"@).len() as int;
            &&& content.take(second) == "title "@ + title + "\n"@
            &&& content.skip(second) == "linux /EFI/Linux/"@ + filename + "\n"@
        }),
{
    reveal_strlit("\n");
    reveal_strlit("\nlinux /EFI/Linux/");
    reveal_strlit("linux /EFI/Linux/");
    let content = entry_content_of(title, filename);
    let second = ("title "@ + title + "\n"@).len() as int;
    assert("\nlinux /EFI/Linux/"@ =~= "\n"@ + "linux /EFI/Linux/"@);
    assert(content =~= ("title "@ + title + "\n"@) + ("linux /EFI/Linux/"@ + filename + "\n"@));
    assert(content.take(second) =~= "title "@ + title + "\n"@);
    assert(content.skip(second) =~= "linux /EFI/Linux/"@ + filename + "\n"@);
}

/// `loader.conf` has the menu shown for five seconds in the largest mode of the console, and then
/// boots the first entry. It names that entry after the UKI, without any `.efi` at the end and
/// then without any `.conf`.
pub proof fn law_loader_boots_the_first_entry(
    entries: Seq<UkiMenuEntryView>,
    stem: Seq<char>,
    confs: nat,
    efis: nat,
)
    requires
        entries.len() > 0,
        entries[0].filename == stem + copies(".conf"@, confs) + copies(".efi"@, efis),
        !".conf"@.is_suffix_of(stem),
        !".efi"@.is_suffix_of(stem + copies(".conf"@, confs)),
    ensures
        loader_config_of(entries).default_entry == stem,
        loader_config_of(entries).timeout == 5,
        loader_config_of(entries).console_mode == "max"@,
        loader_config_of(entries).defaults == "default"@,
{
    reveal_strlit(".conf");
    law_entry_file_is_named_after_the_uki(stem + copies(".conf"@, confs), efis);
    assert(stem + copies(".conf"@, confs) + ".conf"@ =~= stem + copies(".conf"@, confs + 1));
    law_trimming_undoes_copies(stem, ".conf"@, confs + 1);
}

/// Without a menu entry, `loader.conf` has an entry of the name `default` booted.
pub proof fn law_loader_without_entries()
    ensures
        loader_config_of(Seq::empty()).default_entry == "default"@,
        loader_config_of(Seq::empty()).timeout == 5,
        loader_config_of(Seq::empty()).console_mode == "max"@,
        loader_config_of(Seq::empty()).defaults == "default"@,
{
    reveal_strlit("default.conf");
    reveal_strlit("default");
    reveal_strlit(".conf");
    assert("default.conf"@ =~= "default"@ + copies(".conf"@, 1)) by {
        reveal_with_fuel(copies, 2);
    }
    assert(!".conf"@.is_suffix_of("default"@)) by {
        assert("default"@.subrange(2, 7)[0] == 'f');
        assert(".conf"@[0] == '.');
    }
    law_trimming_undoes_copies("default"@, ".conf"@, 1);
}

/// The boot menu is written entry by entry: first the directory of the entries is made, and then
/// each of them gets one file in it, which is named after its UKI and says what it boots.
pub proof fn law_menu_is_written_entry_by_entry(
    loader_dir: Seq<u8>,
    entries: Seq<UkiMenuEntryView>,
    i: int,
)
    requires
        0 <= i < entries.len(),
    ensures
        ({
            let dir = path_joined(loader_dir, encode_utf8("entries"@));
            let file = path_joined(dir, encode_utf8(entry_id_of(entries[i].filename)));
            let steps = loader_entries_steps(loader_dir, entries);
            &&& steps.len() == 1 + entries.len()
            &&& steps[0] == (StepView::CreateDir {
                path: dir,
                context: Some("creating loader entries dir '"@ + path_shown(dir) + "'"@),
            })
            &&& steps[1 + i] == (StepView::WriteFile {
                path: file,
                content: "title "@ + entries[i].title + "\nlinux /EFI/Linux/"@
                    + entries[i].filename + "\n"@,
                context: Some("writing loader entry '"@ + path_shown(file) + "'"@),
            })
            &&& entry_step(dir, entries[i]) == steps[1 + i]
        }),
{
}

/// Without a menu entry there is nothing to write but the directory.
pub proof fn law_empty_menu_is_a_directory(loader_dir: Seq<u8>)
    ensures
        ({
            let dir = path_joined(loader_dir, encode_utf8("entries"@));
            loader_entries_steps(loader_dir, Seq::empty()) == seq![
                StepView::CreateDir {
                    path: dir,
                    context: Some("creating loader entries dir '"@ + path_shown(dir) + "'"@),
                },
            ]
        }),
{
}

/// The bytes of `.conf`.
pub open spec fn dot_conf() -> Seq<u8> {
    seq![0x2e, 0x63, 0x6f, 0x6e, 0x66]
}

/// A path is that of a menu entry exactly where the file that it names has something before
/// `.conf` at the end of its name.
pub proof fn law_entries_are_known_by_their_names(path: Seq<u8>)
    ensures
        is_entry_path(path) <==> {
            &&& path_file_name(path) matches Some(name)
            &&& name.len() > 5
            &&& name.skip(name.len() - 5) == dot_conf()
        },
{
    reveal_strlit("conf");
    is_ascii_chars_encode_utf8("conf"@);
    let conf = encode_utf8("conf"@);
    assert(conf =~= seq![0x63u8, 0x6f, 0x6e, 0x66]);
    if let Some(name) = path_file_name(path) {
        name.index_of_last_ensures(0x2e);
        let at = name.index_of_last(0x2e);
        if is_entry_path(path) {
            let dot = at->0;
            assert(name.skip(dot + 1) == conf);
            assert(name.len() == dot + 5);
            assert(forall|i: int| 0 <= i < 4 ==> name[dot + 1 + i] == #[trigger] conf[i]);
            assert(name.skip(name.len() - 5) =~= dot_conf());
        } else if name.len() > 5 && name.skip(name.len() - 5) == dot_conf() {
            let end = name.skip(name.len() - 5);
            let dot = name.len() - 5;
            assert(name[dot] == end[0]);
            assert(name[dot + 1] == end[1]);
            assert(name[dot + 2] == end[2]);
            assert(name[dot + 3] == end[3]);
            assert(name[dot + 4] == end[4]);
            assert(name.contains(name[dot]));
            assert(at == Some(dot));
            assert(name.skip(dot + 1) =~= conf);
        }
    }
}

/// A found extension is that of a menu entry exactly where it is `conf`, in these letters.
pub proof fn law_entry_extension_is_conf(found: Option<Seq<u8>>)
    ensures
        is_entry_extension(found) <==> found == Some(dot_conf().skip(1)),
{
    reveal_strlit("conf");
    is_ascii_chars_encode_utf8("conf"@);
    assert(encode_utf8("conf"@) =~= dot_conf().skip(1));
}

/// One more file in the directory of the menu entries means one more copy into the boot image,
/// behind the others, where the file is a menu entry, and changes nothing where it is not. With
/// no file in the directory there is one step, which makes the directory in the image; without
/// the directory there is none.
pub proof fn law_found_entries_are_copied_one_by_one(
    image: Seq<u8>,
    name: Seq<char>,
    found: Seq<Seq<u8>>,
    path: Seq<u8>,
)
    ensures
        entries_to_fat_steps(image, name, None) == Seq::<StepView>::empty(),
        entries_to_fat_steps(image, name, Some(Seq::empty())) == seq![
            StepView::MakeFatDir {
                name,
                dir: "::loader/entries"@,
                context: Some("mmd failed to create ::loader/entries"@),
            },
        ],
        is_entry_path(path) ==> entries_to_fat_steps(image, name, Some(found.push(path)))
            == entries_to_fat_steps(image, name, Some(found)).push(
            StepView::CopyToFat { image, from: path, dir: "::loader/entries/"@ },
        ),
        !is_entry_path(path) ==> entries_to_fat_steps(image, name, Some(found.push(path)))
            == entries_to_fat_steps(image, name, Some(found)),
{
    reveal(Seq::filter);
    reveal_strlit("mmd failed to create ");
    reveal_strlit("::loader/entries");
    reveal_strlit("mmd failed to create ::loader/entries");
    assert("mmd failed to create "@ + "::loader/entries"@
        =~= "mmd failed to create ::loader/entries"@);
    assert(found.push(path).drop_last() =~= found);
    let steps = entries_to_fat_steps(image, name, Some(found));
    let more = entries_to_fat_steps(image, name, Some(found.push(path)));
    if is_entry_path(path) {
        assert(more =~= steps.push(
            StepView::CopyToFat { image, from: path, dir: "::loader/entries/"@ },
        ));
    } else {
        assert(more =~= steps);
    }
    let none = Seq::<Seq<u8>>::empty();
    let made = StepView::MakeFatDir {
        name,
        dir: "::loader/entries"@,
        context: Some("mmd failed to create ::loader/entries"@),
    };
    assert(entries_to_fat_steps(image, name, Some(none)) =~= seq![made]);
}

} // verus!
