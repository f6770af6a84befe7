//! Path arithmetic. A path is carried as the `PathBuf` it came as, whatever
//! bytes it holds; what a path means is left to the platform's own path
//! syntax, reached through `std::path`.

use std::path::PathBuf;
use vstd::prelude::*;

verus! {

/// `std::path::PathBuf`. Verus sees nothing inside it; `path_units` says
/// what it holds.
#[verifier::external_type_specification]
#[verifier::external_body]
pub struct ExPathBuf(std::path::PathBuf);

/// The bytes that a path holds, as `OsStr::as_encoded_bytes` gives them.
pub uninterp spec fn path_units(path: PathBuf) -> Seq<u8>;

/// The final component of a path as `Path::file_name` gives it: the name of
/// the file or directory the path ends in, or `None` where it ends in `..` or
/// has no component at all.
pub uninterp spec fn final_component(path: Seq<u8>) -> Option<Seq<u8>>;

/// The text of a path as `Path::to_string_lossy` gives it: the path's own
/// text where it is valid Unicode, and a replacement character for what is
/// not.
pub uninterp spec fn lossy_text(path: Seq<u8>) -> Seq<char>;

/// `path` made relative to `base` as `Path::strip_prefix` gives it, or `None`
/// where `base` is not a prefix of `path`.
pub uninterp spec fn relative_to(path: Seq<u8>, base: Seq<u8>) -> Option<Seq<u8>>;

/// `relative` adjoined to `base` as `Path::join` gives it.
pub uninterp spec fn joined(base: Seq<u8>, relative: Seq<u8>) -> Seq<u8>;

/// `path` after `PathBuf::set_extension` with `extension`.
pub uninterp spec fn with_extension(path: Seq<u8>, extension: Seq<char>) -> Seq<u8>;

/// Whether `text` holds a character that separates path components on some
/// platform.
pub open spec fn has_separator(text: Seq<char>) -> bool {
    text.contains('/') || text.contains('\\')
}

/// `PathBuf::clone`: the copy is the path itself.
pub assume_specification[ <std::path::PathBuf as Clone>::clone ](path: &std::path::PathBuf) -> (copy:
    std::path::PathBuf)
    ensures
        copy == *path,
;

/// Calls `PathBuf::new`, which gives the empty path.
#[verifier::external_body]
pub(crate) fn empty_path() -> (path: PathBuf)
    ensures
        path_units(path) == Seq::<u8>::empty(),
{
    PathBuf::new()
}

/// Calls `Path::file_name` on `path`. The final component comes back as a
/// path of its own; the contract gives it a name and claims no more.
#[verifier::external_body]
pub(crate) fn path_file_name(path: &PathBuf) -> (name: Option<PathBuf>)
    ensures
        name.is_some() == final_component(path_units(*path)).is_some(),
        name.is_some() ==> path_units(name.unwrap()) == final_component(
            path_units(*path),
        ).unwrap(),
{
    path.file_name().map(PathBuf::from)
}

/// Calls `Path::to_string_lossy` on `path`; the contract names the text.
#[verifier::external_body]
pub(crate) fn path_lossy_text(path: &PathBuf) -> (text: String)
    ensures
        text@ == lossy_text(path_units(*path)),
{
    path.to_string_lossy().into_owned()
}

/// Calls `Path::strip_prefix` on `path` with `base`. `Some` holds the
/// remainder, `None` stands for the `StripPrefixError` that std reports
/// where `base` is no prefix; the contract names the outcome.
#[verifier::external_body]
pub(crate) fn path_strip_prefix(path: &PathBuf, base: &PathBuf) -> (rest: Option<PathBuf>)
    ensures
        rest.is_some() == relative_to(path_units(*path), path_units(*base)).is_some(),
        rest.is_some() ==> path_units(rest.unwrap()) == relative_to(
            path_units(*path),
            path_units(*base),
        ).unwrap(),
{
    path.strip_prefix(base).ok().map(|rest| rest.to_path_buf())
}

/// Calls `Path::join` on `base` with `relative`; the contract names the
/// result.
#[verifier::external_body]
pub(crate) fn path_join(base: &PathBuf, relative: &PathBuf) -> (whole: PathBuf)
    ensures
        path_units(whole) == joined(path_units(*base), path_units(*relative)),
{
    base.join(relative)
}

/// Calls `PathBuf::set_extension` on a copy of `path`; the contract names
/// the path that results. std panics on an extension that holds a path
/// separator, so such an extension is not admitted.
#[verifier::external_body]
pub(crate) fn path_set_extension(path: &PathBuf, extension: &str) -> (changed: PathBuf)
    requires
        !has_separator(extension@),
    ensures
        path_units(changed) == with_extension(path_units(*path), extension@),
{
    let mut changed = path.clone();
    changed.set_extension(extension);
    changed
}

/// Where the entry at `path` under `input` lands under `output`: its path
/// relative to `input`, adjoined to `output`. `None` where `path` does not
/// lie under `input`.
pub open spec fn mirrored(path: Seq<u8>, input: Seq<u8>, output: Seq<u8>) -> Option<Seq<u8>> {
    match relative_to(path, input) {
        Some(rest) => Some(joined(output, rest)),
        None => None,
    }
}

/// Where the document rendered from the file at `path` lands: the mirrored
/// path with its extension replaced by `html`.
pub open spec fn rendered(path: Seq<u8>, input: Seq<u8>, output: Seq<u8>) -> Option<Seq<u8>> {
    match mirrored(path, input, output) {
        Some(target) => Some(with_extension(target, "html"@)),
        None => None,
    }
}

/// The display name of `path`: the text of its final component, or the empty
/// text where it has none.
pub open spec fn display_name(path: Seq<u8>) -> Seq<char> {
    match final_component(path) {
        Some(name) => lossy_text(name),
        None => Seq::empty(),
    }
}

/// Computes the output path that mirrors `path`.
pub fn mirror(path: &PathBuf, input: &PathBuf, output: &PathBuf) -> (target: Option<PathBuf>)
    ensures
        target.is_some() == mirrored(
            path_units(*path),
            path_units(*input),
            path_units(*output),
        ).is_some(),
        target.is_some() ==> path_units(target.unwrap()) == mirrored(
            path_units(*path),
            path_units(*input),
            path_units(*output),
        ).unwrap(),
{
    match path_strip_prefix(path, input) {
        Some(rest) => Some(path_join(output, &rest)),
        None => None,
    }
}

/// Computes the output path of the document rendered from `path`.
pub fn render_target(path: &PathBuf, input: &PathBuf, output: &PathBuf) -> (target: Option<
    PathBuf,
>)
    ensures
        target.is_some() == rendered(
            path_units(*path),
            path_units(*input),
            path_units(*output),
        ).is_some(),
        target.is_some() ==> path_units(target.unwrap()) == rendered(
            path_units(*path),
            path_units(*input),
            path_units(*output),
        ).unwrap(),
{
    match mirror(path, input, output) {
        Some(target) => {
            proof {
                reveal_strlit("html");
                assert(!"html"@.contains('/'));
                assert(!"html"@.contains('\\'));
            }
            Some(path_set_extension(&target, "html"))
        },
        None => None,
    }
}

} // verus!
