//! Media types of responses and the file extensions they stand for.

use crate::text::{opt_str_view, opt_view, str_eq};
use vstd::prelude::*;

verus! {

/// The top-level type and the subtype that the `mime` crate reads out of a
/// `Content-Type` value, both in lower case and without parameters or
/// `+suffix`; `None` where the crate rejects the value.
pub uninterp spec fn media_type(value: Seq<char>) -> Option<(Seq<char>, Seq<char>)>;

/// Parses `value` with `mime::Mime`'s `FromStr` and hands out what its
/// `type_()` and `subtype()` return, as owned strings.
///
/// Trusted: the contract only names the pair that the crate computes from
/// the text and claims nothing else about it.
#[verifier::external_body]
fn parse_media_type(value: &str) -> (r: Option<(String, String)>)
    ensures
        match r {
            Some(pair) => media_type(value@) == Some((pair.0@, pair.1@)),
            None => media_type(value@) is None,
        },
{
    let parsed = value.parse::<mime::Mime>().ok()?;
    Some((parsed.type_().as_str().to_string(), parsed.subtype().as_str().to_string()))
}

/// The extension that stands for an image subtype.
pub open spec fn image_extension(subtype: Seq<char>) -> Option<Seq<char>> {
    if subtype == "jpeg"@ {
        Some("jpg"@)
    } else if subtype == "png"@ {
        Some("png"@)
    } else if subtype == "webp"@ {
        Some("webp"@)
    } else {
        None
    }
}

/// The extension that stands for a text subtype.
pub open spec fn text_extension(subtype: Seq<char>) -> Option<Seq<char>> {
    if subtype == "plain"@ {
        Some("txt"@)
    } else if subtype == "csv"@ {
        Some("csv"@)
    } else if subtype == "html"@ {
        Some("html"@)
    } else {
        None
    }
}

/// The extension that stands for an application subtype.
pub open spec fn application_extension(subtype: Seq<char>) -> Option<Seq<char>> {
    if subtype == "pdf"@ {
        Some("pdf"@)
    } else if subtype == "json"@ {
        Some("json"@)
    } else if subtype == "zip"@ {
        Some("zip"@)
    } else {
        None
    }
}

/// The fixed table from media types to file extensions. A type outside the
/// table has no extension.
pub open spec fn extension_of(top: Seq<char>, subtype: Seq<char>) -> Option<Seq<char>> {
    if top == "image"@ {
        image_extension(subtype)
    } else if top == "text"@ {
        text_extension(subtype)
    } else if top == "application"@ {
        application_extension(subtype)
    } else {
        None
    }
}

/// The extension inferred from an optional `Content-Type` value: none
/// without a value, none for a value that is no media type, and otherwise
/// what the table gives for its type and subtype.
pub open spec fn inferred_extension(content_type: Option<Seq<char>>) -> Option<Seq<char>> {
    match content_type {
        None => None,
        Some(value) => match media_type(value) {
            None => None,
            Some(pair) => extension_of(pair.0, pair.1),
        },
    }
}

fn image_extension_for(subtype: &str) -> (r: Option<String>)
    ensures
        opt_view(r) == image_extension(subtype@),
{
    if str_eq(subtype, "jpeg") {
        Some("jpg".to_string())
    } else if str_eq(subtype, "png") {
        Some("png".to_string())
    } else if str_eq(subtype, "webp") {
        Some("webp".to_string())
    } else {
        None
    }
}

fn text_extension_for(subtype: &str) -> (r: Option<String>)
    ensures
        opt_view(r) == text_extension(subtype@),
{
    if str_eq(subtype, "plain") {
        Some("txt".to_string())
    } else if str_eq(subtype, "csv") {
        Some("csv".to_string())
    } else if str_eq(subtype, "html") {
        Some("html".to_string())
    } else {
        None
    }
}

fn application_extension_for(subtype: &str) -> (r: Option<String>)
    ensures
        opt_view(r) == application_extension(subtype@),
{
    if str_eq(subtype, "pdf") {
        Some("pdf".to_string())
    } else if str_eq(subtype, "json") {
        Some("json".to_string())
    } else if str_eq(subtype, "zip") {
        Some("zip".to_string())
    } else {
        None
    }
}

/// Looks a media type up in the table of extensions.
pub fn extension_for(top: &str, subtype: &str) -> (r: Option<String>)
    ensures
        opt_view(r) == extension_of(top@, subtype@),
{
    if str_eq(top, "image") {
        image_extension_for(subtype)
    } else if str_eq(top, "text") {
        text_extension_for(subtype)
    } else if str_eq(top, "application") {
        application_extension_for(subtype)
    } else {
        None
    }
}

/// Infers a file extension from a response's `Content-Type` value, if it
/// sent one.
pub fn infer_extension_from_response(content_type: Option<&str>) -> (r: Option<String>)
    ensures
        opt_view(r) == inferred_extension(opt_str_view(content_type)),
{
    match content_type {
        None => None,
        Some(value) => match parse_media_type(value) {
            None => None,
            Some(pair) => extension_for(pair.0.as_str(), pair.1.as_str()),
        },
    }
}

} // verus!
