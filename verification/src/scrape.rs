//! What the adapters read out of an HTML document.

use crate::download::{item_views, DownloadItem, DownloadItemView};
use crate::text::{
    concat, concat3, contains, occurs_in, opt_view, to_two_digits, trim, trim_start_matches,
    trimmed, two_digits, views, without_leading,
};
use vstd::prelude::*;

verus! {

/// The values of a row of optional attribute values.
pub open spec fn row_view(row: Seq<Option<String>>) -> Seq<Option<Seq<char>>> {
    Seq::new(row.len(), |i: int| opt_view(row[i]))
}

/// The values of the rows of a table of optional attribute values.
pub open spec fn rows_view(rows: Seq<Vec<Option<String>>>) -> Seq<Seq<Option<Seq<char>>>> {
    Seq::new(rows.len(), |i: int| row_view(rows[i]@))
}

/// The text nodes below the first element of the document `html` that the
/// CSS selector `selector` matches, in the order in which the crate yields
/// them; `None` where the selector is malformed or matches nothing.
pub uninterp spec fn document_texts(html: Seq<char>, selector: Seq<char>) -> Option<
    Seq<Seq<char>>,
>;

/// For every element of the document `html` that the CSS selector
/// `selector` matches, in the order in which the crate yields them, the
/// values of the attributes
/// `names`, each `None` where the element lacks it; empty where the selector
/// is malformed.
pub uninterp spec fn document_attributes(
    html: Seq<char>,
    selector: Seq<char>,
    names: Seq<Seq<char>>,
) -> Seq<Seq<Option<Seq<char>>>>;

/// Parses `html` with `scraper::Html::parse_document` and `selector` with
/// `scraper::Selector::parse`, takes the first element that `select` gives
/// and collects what its `text()` yields.
///
/// Trusted: the contract only names what the crate computes from the two
/// texts.
#[verifier::external_body]
pub(crate) fn select_texts(html: &str, selector: &str) -> (r: Option<Vec<String>>)
    ensures
        match r {
            Some(texts) => document_texts(html@, selector@) == Some(views(texts@)),
            None => document_texts(html@, selector@) is None,
        },
{
    let selector = scraper::Selector::parse(selector).ok()?;
    let document = scraper::Html::parse_document(html);
    let element = document.select(&selector).next()?;
    Some(element.text().map(|t| t.to_string()).collect())
}

/// Parses `html` and `selector` as [`select_texts`] does and, for every
/// element that `select` gives, collects what `attr` returns for each of
/// `names`.
///
/// Trusted: the contract names what the crate computes from its arguments,
/// and adds that every element has one entry per name.
#[verifier::external_body]
pub(crate) fn select_attributes(html: &str, selector: &str, names: &Vec<String>) -> (r: Vec<
    Vec<Option<String>>,
>)
    ensures
        rows_view(r@) == document_attributes(html@, selector@, views(names@)),
        forall|i: int| 0 <= i < r.len() ==> (#[trigger] r@[i]).len() == names.len(),
{
    let Ok(selector) = scraper::Selector::parse(selector) else {
        return Vec::new();
    };
    let document = scraper::Html::parse_document(html);
    document.select(&selector).map(
        |e| names.iter().map(|n| e.value().attr(n.as_str()).map(|v| v.to_string())).collect(),
    ).collect()
}

/// What group `group` of the first match of the regular expression
/// `pattern` in `text` holds, with `^` and `$` matching at lines and, where
/// `dot_all` is set, `.` matching line ends too; `None` where the pattern is
/// malformed, nothing matches or the group took no part.
pub uninterp spec fn regex_group(
    pattern: Seq<char>,
    text: Seq<char>,
    group: nat,
    dot_all: bool,
) -> Option<Seq<char>>;

/// Builds `pattern` with `regex::RegexBuilder`, `multi_line` on and
/// `dot_matches_new_line` as given, and copies what `captures` and `get`
/// give for the group.
///
/// Trusted: the contract only names what the crate computes from its
/// arguments.
#[verifier::external_body]
pub(crate) fn capture_group(pattern: &str, text: &str, group: usize, dot_all: bool) -> (r: Option<
    String,
>)
    ensures
        opt_view(r) == regex_group(pattern@, text@, group as nat, dot_all),
{
    let mut builder = regex::RegexBuilder::new(pattern);
    let expression = builder.multi_line(true).dot_matches_new_line(dot_all).build().ok()?;
    let captures = expression.captures(text)?;
    captures.get(group).map(|m| m.as_str().to_string())
}

/// The strings of the JSON array `text`; `None` where `text` is no JSON
/// array of strings.
pub uninterp spec fn json_strings(text: Seq<char>) -> Option<Seq<Seq<char>>>;

/// Reads `text` with `serde_json::from_str` as a list of strings.
///
/// Trusted: the contract only names what the crate computes from the text.
#[verifier::external_body]
pub(crate) fn parse_string_list(text: &str) -> (r: Option<Vec<String>>)
    ensures
        match r {
            Some(list) => json_strings(text@) == Some(views(list@)),
            None => json_strings(text@) is None,
        },
{
    serde_json::from_str::<Vec<String>>(text).ok()
}

/// The `n`-th of `texts` without the white space around it; none where
/// there is no `n`-th text or it holds white space only.
pub open spec fn filled_text(texts: Seq<Seq<char>>, n: int) -> Option<Seq<char>> {
    if 0 <= n < texts.len() && trimmed(texts[n]).len() > 0 {
        Some(trimmed(texts[n]))
    } else {
        None
    }
}

/// Picks the `n`-th text node and trims it; a text that is missing or
/// blank is none.
pub fn pick_filled(texts: &Vec<String>, n: usize) -> (r: Option<String>)
    ensures
        opt_view(r) == filled_text(views(texts@), n as int),
{
    if n < texts.len() {
        let text = trim(texts[n].as_str());
        if text.as_str().is_empty() {
            None
        } else {
            Some(text)
        }
    } else {
        None
    }
}

/// The label in the `n`-th of `texts`: the text, trimmed, without the
/// copies of `lead` before it; none where the text is missing or nothing is
/// left of it.
pub open spec fn label_text(texts: Seq<Seq<char>>, n: int, lead: Seq<char>) -> Option<Seq<char>> {
    match filled_text(texts, n) {
        Some(raw) => if without_leading(raw, lead).len() > 0 {
            Some(without_leading(raw, lead))
        } else {
            None
        },
        None => None,
    }
}

/// Picks the label out of the `n`-th text node.
pub fn pick_label(texts: &Vec<String>, n: usize, lead: &str) -> (r: Option<String>)
    ensures
        opt_view(r) == label_text(views(texts@), n as int, lead@),
{
    match pick_filled(texts, n) {
        Some(raw) => {
            let label = trim_start_matches(raw.as_str(), lead);
            if label.as_str().is_empty() {
                None
            } else {
                Some(label)
            }
        },
        None => None,
    }
}

/// The extension of a page whose image is at `source`: `png` where the
/// address says so, and `jpg` otherwise.
pub open spec fn png_or_jpg(source: Seq<char>) -> Seq<char> {
    if occurs_in(source, ".png"@) {
        "png"@
    } else {
        "jpg"@
    }
}

/// The file name of the page with index `index`: `page_`, the index in at
/// least two digits, a dot and the extension.
pub open spec fn page_name(index: nat, extension: Seq<char>) -> Seq<char> {
    "page_"@ + two_digits(index) + "."@ + extension
}

/// Names the page with index `index`.
pub fn make_page_name(index: usize, extension: &str) -> (r: String)
    ensures
        r@ == page_name(index as nat, extension@),
{
    let number = to_two_digits(index);
    let head = concat("page_", number.as_str());
    concat3(head.as_str(), ".", extension)
}

/// The descriptor of the page with index `index` whose image is at
/// `source`.
pub open spec fn plain_page(index: nat, source: Seq<char>) -> DownloadItemView {
    DownloadItemView {
        url: source,
        name: Some(page_name(index, png_or_jpg(source))),
        alt_urls: Seq::empty(),
    }
}

/// Whether an image has an address that is not empty.
pub open spec fn has_source(source: Option<Seq<char>>) -> bool {
    match source {
        Some(s) => s.len() > 0,
        None => false,
    }
}

/// Whether every image has an address that is not empty.
pub open spec fn all_sourced(sources: Seq<Option<Seq<char>>>) -> bool {
    forall|i: int| 0 <= i < sources.len() ==> has_source(#[trigger] sources[i])
}

/// The pages of a chapter whose images are at `sources`, in order; none
/// where an image lacks its address.
pub open spec fn plain_pages(sources: Seq<Option<Seq<char>>>) -> Option<Seq<DownloadItemView>> {
    if all_sourced(sources) {
        Some(Seq::new(sources.len(), |i: int| plain_page(i as nat, sources[i]->0)))
    } else {
        None
    }
}

/// The first column of a table of attribute values.
pub open spec fn first_column(rows: Seq<Seq<Option<Seq<char>>>>) -> Seq<Option<Seq<char>>> {
    Seq::new(
        rows.len(),
        |i: int|
            if rows[i].len() > 0 {
                rows[i][0]
            } else {
                None
            },
    )
}

/// Builds the pages of a chapter from the addresses of its images, the
/// first column of `rows`.
pub fn make_plain_pages(rows: &Vec<Vec<Option<String>>>) -> (r: Option<Vec<DownloadItem>>)
    ensures
        match r {
            Some(pages) => plain_pages(first_column(rows_view(rows@))) == Some(item_views(pages@)),
            None => plain_pages(first_column(rows_view(rows@))) is None,
        },
{
    let ghost sources = first_column(rows_view(rows@));
    let mut pages: Vec<DownloadItem> = Vec::new();
    let mut i: usize = 0;
    while i < rows.len()
        invariant
            i <= rows.len(),
            pages.len() == i,
            sources == first_column(rows_view(rows@)),
            forall|k: int| 0 <= k < i ==> has_source(#[trigger] sources[k]),
            forall|k: int| 0 <= k < i ==> (#[trigger] pages@[k])@ == plain_page(k as nat, sources[k]->0),
        decreases rows.len() - i,
    {
        let row = &rows[i];
        assert(rows_view(rows@)[i as int] == row_view(row@));
        if row.len() == 0 {
            assert(sources[i as int] is None);
            return None;
        }
        assert(row_view(row@)[0] == opt_view(row@[0]));
        match &row[0] {
            None => {
                assert(sources[i as int] is None);
                return None;
            },
            Some(source) => {
                if source.as_str().is_empty() {
                    assert(sources[i as int]->0.len() == 0);
                    return None;
                }
                let extension = if contains(source.as_str(), ".png") {
                    "png"
                } else {
                    "jpg"
                };
                let name = make_page_name(i, extension);
                pages.push(DownloadItem::new(source.as_str(), Some(name.as_str())));
            },
        }
        i += 1;
    }
    assert(all_sourced(sources));
    assert(item_views(pages@) =~= plain_pages(sources)->0);
    Some(pages)
}

/// The one attribute that holds the address of an image.
pub fn source_attribute() -> (names: Vec<String>)
    ensures
        views(names@) == seq!["src"@],
{
    let mut names: Vec<String> = Vec::new();
    names.push("src".to_string());
    assert(views(names@) =~= seq!["src"@]);
    names
}

} // verus!
