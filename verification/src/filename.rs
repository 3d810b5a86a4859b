//! File names: extensions and names that are safe on a file system.

use crate::text::{concat3, opt_str_view, trim_end_matches, without_trailing};
use vstd::prelude::*;

verus! {

/// `name`, completed by `extension` behind a dot where there is an
/// extension to give and the name lacks one.
pub open spec fn completed_name(name: Seq<char>, extension: Option<Seq<char>>, lacks: bool) -> Seq<
    char,
> {
    match extension {
        Some(e) => if lacks {
            name + "."@ + e
        } else {
            name
        },
        None => name,
    }
}

/// Asks `std::path::Path::extension` whether the path `name` lacks an
/// extension.
///
/// Trusted: what a path's extension is depends on the platform's rules for
/// paths, so the answer has no name; the contract states only what holds on
/// every platform, that a name without any dot has no extension.
#[verifier::external_body]
pub(crate) fn path_lacks_extension(name: &str) -> (lacks: bool)
    ensures
        !name@.contains('.') ==> lacks,
{
    std::path::Path::new(name).extension().is_none()
}

/// Asks `std::path::Path::file_name` for the last component of `path`.
///
/// Trusted: what the components of a path are depends on the platform, so
/// nothing is claimed of the answer.
#[verifier::external_body]
pub(crate) fn path_file_name(path: &str) -> (name: Option<String>) {
    std::path::Path::new(path).file_name().map(|n| n.to_string_lossy().into_owned())
}

/// Completes a file name by an extension where `lacks` says that it has
/// none.
pub fn complete_name(name: &str, extension: Option<&str>, lacks: bool) -> (r: String)
    ensures
        r@ == completed_name(name@, opt_str_view(extension), lacks),
{
    match extension {
        Some(e) => {
            if lacks {
                concat3(name, ".", e)
            } else {
                name.to_string()
            }
        },
        None => name.to_string(),
    }
}

/// What `sanitize_filename` makes of `name`: the name without the
/// characters that no file name may hold, cut to 255 bytes; with `windows`
/// set, also without what only Windows refuses.
pub uninterp spec fn sanitized(name: Seq<char>, windows: bool) -> Seq<char>;

/// Calls `sanitize_filename::sanitize_with_options` with truncation on, the
/// empty replacement and the given `windows` flag.
///
/// Trusted: the contract only names what the crate computes from the name
/// and the flag.
#[verifier::external_body]
fn sanitize(name: &str, windows: bool) -> (r: String)
    ensures
        r@ == sanitized(name@, windows),
{
    let options = sanitize_filename::Options { windows, truncate: true, replacement: "" };
    sanitize_filename::sanitize_with_options(name, options)
}

/// The display name of a chapter: `"{title} - {label}"`, sanitized, without
/// the dots at its end.
pub open spec fn display_name(title: Seq<char>, label: Seq<char>, windows: bool) -> Seq<char> {
    display_name_of_sanitized(sanitized(title + " - "@ + label, windows))
}

/// What becomes of a sanitized name: the dots at its end go.
pub open spec fn display_name_of_sanitized(clean: Seq<char>) -> Seq<char> {
    without_trailing(clean, '.')
}

/// Strips the dots at the end of a sanitized name.
pub fn finish_display_name(clean: &str) -> (r: String)
    ensures
        r@ == display_name_of_sanitized(clean@),
{
    trim_end_matches(clean, '.')
}

/// Builds the display name of a chapter from its title and label.
pub fn make_display_name(title: &str, label: &str, windows: bool) -> (r: String)
    ensures
        r@ == display_name(title@, label@, windows),
{
    let joined = concat3(title, " - ", label);
    let clean = sanitize(joined.as_str(), windows);
    finish_display_name(clean.as_str())
}

} // verus!
