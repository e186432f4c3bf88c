//! File system paths: what the standard library computes on them.
use std::path::PathBuf;
use vstd::prelude::*;
use vstd::utf8::{decode_utf8, encode_utf8, valid_utf8};

verus! {

/// `std::path::PathBuf`, whose inside is not looked at.
#[verifier::external_type_specification]
#[verifier::external_body]
pub struct ExPathBuf(PathBuf);

/// The contents of a path: its bytes in the encoding of the standard library, which is UTF-8
/// wherever the path is Unicode text.
pub uninterp spec fn path_bytes(path: PathBuf) -> Seq<u8>;

/// What `Path::join` makes of a base and the path that is put behind it.
pub uninterp spec fn path_joined(base: Seq<u8>, rest: Seq<u8>) -> Seq<u8>;

/// What `Path::parent` finds.
pub uninterp spec fn path_parent(path: Seq<u8>) -> Option<Seq<u8>>;

/// What `Path::file_name` finds.
pub uninterp spec fn path_file_name(path: Seq<u8>) -> Option<Seq<u8>>;

/// The text that `Path::to_string_lossy` makes of a path.
pub uninterp spec fn path_lossy(path: Seq<u8>) -> Seq<char>;

/// The text that `Path::display` shows for a path.
pub uninterp spec fn path_shown(path: Seq<u8>) -> Seq<char>;

/// The contents of a path that may be absent.
pub open spec fn option_path_bytes(path: Option<PathBuf>) -> Option<Seq<u8>> {
    match path {
        Some(path) => Some(path_bytes(path)),
        None => None,
    }
}

/// The contents of paths, in their order.
pub open spec fn paths_view(paths: Seq<PathBuf>) -> Seq<Seq<u8>> {
    Seq::new(paths.len(), |i: int| path_bytes(paths[i]))
}

/// The dot that parts a file name from its extension.
pub open spec fn dot() -> u8 {
    0x2e
}

/// Where the dot stands that parts the file name into stem and extension: the last dot, unless
/// the name has none or only the one it begins with.
pub open spec fn extension_dot(name: Seq<u8>) -> Option<int> {
    match name.index_of_last(dot()) {
        Some(at) => if at > 0 {
            Some(at)
        } else {
            None
        },
        None => None,
    }
}

/// The file name up to its extension.
pub open spec fn stem_of(name: Seq<u8>) -> Seq<u8> {
    match extension_dot(name) {
        Some(at) => name.take(at),
        None => name,
    }
}

/// The extension of a file name.
pub open spec fn extension_of(name: Seq<u8>) -> Option<Seq<u8>> {
    match extension_dot(name) {
        Some(at) => Some(name.skip(at + 1)),
        None => None,
    }
}

/// The stem of the file that a path names, where it names one.
pub open spec fn path_file_stem(path: Seq<u8>) -> Option<Seq<u8>> {
    match path_file_name(path) {
        Some(name) => Some(stem_of(name)),
        None => None,
    }
}

/// The extension of the file that a path names, where it names one and the name has one.
pub open spec fn path_extension(path: Seq<u8>) -> Option<Seq<u8>> {
    match path_file_name(path) {
        Some(name) => extension_of(name),
        None => None,
    }
}

/// What `Path::join` makes of `base` and a text: what lies at `rest` below `base`, as long as
/// `rest` is a relative path. An absolute one takes the place of `base`.
pub open spec fn below(base: Seq<u8>, rest: Seq<char>) -> Seq<u8> {
    path_joined(base, encode_utf8(rest))
}

/// A line that shows a path.
pub open spec fn path_line(head: Seq<char>, path: Seq<u8>) -> Seq<char> {
    head + path_shown(path)
}

/// `<PathBuf as Clone>::clone`: the copy has the contents of the path.
pub assume_specification[ <PathBuf as Clone>::clone ](path: &PathBuf) -> (copy: PathBuf)
    ensures
        path_bytes(copy) == path_bytes(*path),
;

/// `PathBuf::from` on a `str`: the contents of the path are the text in UTF-8.
#[verifier::external_body]
pub(crate) fn path_from(text: &str) -> (path: PathBuf)
    ensures
        path_bytes(path) == encode_utf8(text@),
{
    PathBuf::from(text)
}

/// `Path::join`: the outcome is a function of the contents of both paths, named `path_joined`.
#[verifier::external_body]
pub(crate) fn join(base: &PathBuf, rest: &PathBuf) -> (joined: PathBuf)
    ensures
        path_bytes(joined) == path_joined(path_bytes(*base), path_bytes(*rest)),
{
    base.join(rest)
}

/// `base` and a text, joined: what lies at `rest` below `base`, as long as `rest` is relative.
pub(crate) fn join_text(base: &PathBuf, rest: &str) -> (joined: PathBuf)
    ensures
        path_bytes(joined) == below(path_bytes(*base), rest@),
{
    join(base, &path_from(rest))
}

/// `Path::parent`: the outcome is a function of the contents of the path, named `path_parent`.
#[verifier::external_body]
pub(crate) fn parent(path: &PathBuf) -> (found: Option<PathBuf>)
    ensures
        option_path_bytes(found) == path_parent(path_bytes(*path)),
{
    match path.parent() {
        Some(found) => Some(found.to_path_buf()),
        None => None,
    }
}

/// `Path::file_name`: the outcome is a function of the contents of the path, named
/// `path_file_name`.
#[verifier::external_body]
pub(crate) fn file_name(path: &PathBuf) -> (name: Option<PathBuf>)
    ensures
        option_path_bytes(name) == path_file_name(path_bytes(*path)),
{
    match path.file_name() {
        Some(name) => Some(PathBuf::from(name)),
        None => None,
    }
}

/// `Path::file_stem`: absent without a file name; the whole file name where it has no dot, or
/// none but the one it begins with; else the part of it before the last dot.
#[verifier::external_body]
pub(crate) fn file_stem(path: &PathBuf) -> (stem: Option<PathBuf>)
    ensures
        option_path_bytes(stem) == path_file_stem(path_bytes(*path)),
{
    match path.file_stem() {
        Some(stem) => Some(PathBuf::from(stem)),
        None => None,
    }
}

/// `Path::extension`: absent without a file name, and where the file name has no dot, or none
/// but the one it begins with; else the part of it after the last dot.
#[verifier::external_body]
pub(crate) fn extension(path: &PathBuf) -> (found: Option<PathBuf>)
    ensures
        option_path_bytes(found) == path_extension(path_bytes(*path)),
{
    match path.extension() {
        Some(found) => Some(PathBuf::from(found)),
        None => None,
    }
}

/// `Path::to_str`: the text of the path where its contents are UTF-8, and nothing where they
/// are not.
#[verifier::external_body]
pub(crate) fn to_text(path: &PathBuf) -> (text: Option<String>)
    ensures
        text is Some == valid_utf8(path_bytes(*path)),
        text matches Some(text) ==> text@ == decode_utf8(path_bytes(*path)),
{
    match path.to_str() {
        Some(text) => Some(text.to_string()),
        None => None,
    }
}

/// `Path::to_string_lossy`: the outcome is a function of the contents of the path, named
/// `path_lossy`; it is the text itself where the contents are UTF-8.
#[verifier::external_body]
pub(crate) fn to_string_lossy(path: &PathBuf) -> (text: String)
    ensures
        text@ == path_lossy(path_bytes(*path)),
        valid_utf8(path_bytes(*path)) ==> text@ == decode_utf8(path_bytes(*path)),
{
    path.to_string_lossy().into_owned()
}

/// `Path::display`, turned into text: the outcome is a function of the contents of the path,
/// named `path_shown`; it is the text itself where the contents are UTF-8.
#[verifier::external_body]
pub(crate) fn display(path: &PathBuf) -> (text: String)
    ensures
        text@ == path_shown(path_bytes(*path)),
        valid_utf8(path_bytes(*path)) ==> text@ == decode_utf8(path_bytes(*path)),
{
    path.display().to_string()
}

/// A line that shows a path.
pub(crate) fn show_path(head: &str, path: &PathBuf) -> (line: String)
    ensures
        line@ == path_line(head@, path_bytes(*path)),
{
    head.to_owned().concat(display(path).as_str())
}

} // verus!
