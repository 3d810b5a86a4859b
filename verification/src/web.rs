//! Absolute URLs, taken apart into the plain values that the rest of the
//! library reads.

use crate::text::{opt_view, views};
use vstd::prelude::*;

verus! {

/// What the library reads from a parsed absolute URL.
pub struct UrlParts {
    /// The URL as the parser writes it back.
    pub text: String,
    /// The scheme, in lower case and without the `:`.
    pub scheme: String,
    /// Whether the URL has a host at all.
    pub has_host: bool,
    /// The host, where it is a domain name and no IP address.
    pub domain: Option<String>,
    /// The segments of the path, where the URL can be a base.
    pub path_segments: Option<Vec<String>>,
}

/// The mathematical value of [`UrlParts`].
pub struct UrlPartsView {
    pub text: Seq<char>,
    pub scheme: Seq<char>,
    pub has_host: bool,
    pub domain: Option<Seq<char>>,
    pub path_segments: Option<Seq<Seq<char>>>,
}

impl View for UrlParts {
    type V = UrlPartsView;

    open spec fn view(&self) -> UrlPartsView {
        UrlPartsView {
            text: self.text@,
            scheme: self.scheme@,
            has_host: self.has_host,
            domain: opt_view(self.domain),
            path_segments: match self.path_segments {
                Some(segments) => Some(views(segments@)),
                None => None,
            },
        }
    }
}

/// The parts that the `url` crate reads out of `text` as an absolute URL;
/// `None` where it rejects the text.
pub uninterp spec fn url_parts(text: Seq<char>) -> Option<UrlPartsView>;

/// Parses `text` with `Url::parse` and copies out the results of `as_str`,
/// `scheme`, `has_host`, `domain` and `path_segments`.
///
/// Trusted: the contract only names what the crate computes from the text.
#[verifier::external_body]
pub(crate) fn parse_url(text: &str) -> (r: Option<UrlParts>)
    ensures
        match r {
            Some(parts) => url_parts(text@) == Some(parts@),
            None => url_parts(text@) is None,
        },
{
    let url = reqwest::Url::parse(text).ok()?;
    Some(UrlParts {
        text: url.as_str().to_string(),
        scheme: url.scheme().to_string(),
        has_host: url.has_host(),
        domain: url.domain().map(|d| d.to_string()),
        path_segments: url.path_segments().map(|s| s.map(|p| p.to_string()).collect()),
    })
}

/// The last segment of a URL's path, where it has segments.
pub open spec fn last_segment(parts: Option<UrlPartsView>) -> Option<Seq<char>> {
    match parts {
        Some(p) => match p.path_segments {
            Some(segments) => if segments.len() > 0 {
                Some(segments.last())
            } else {
                None
            },
            None => None,
        },
        None => None,
    }
}

/// Picks the last path segment out of a parsed URL.
pub fn last_segment_of(parts: &Option<UrlParts>) -> (r: Option<String>)
    ensures
        opt_view(r) == last_segment(
            match *parts {
                Some(p) => Some(p@),
                None => None,
            },
        ),
{
    match parts {
        Some(p) => match &p.path_segments {
            Some(segments) => {
                if segments.len() > 0 {
                    Some(segments[segments.len() - 1].clone())
                } else {
                    None
                }
            },
            None => None,
        },
        None => None,
    }
}

} // verus!
