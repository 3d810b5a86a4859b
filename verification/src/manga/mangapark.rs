//! The adapter for mangapark.

use crate::download::{item_views, DownloadItem, DownloadItemView};
use crate::manga::{Chapter, ChapterView};
use crate::scrape::{capture_group, document_texts, regex_group, select_texts};
use crate::text::{
    concat, lemma_split_nonempty, split, split_at_char, three_digits, to_three_digits, trim_end_matches,
    trim_start_matches, views, without_leading, without_trailing,
};
use vstd::prelude::*;

verus! {

/// Why a chapter of mangapark could not be read.
#[derive(Debug)]
pub enum MangaParkError {
    /// The page could not be fetched; the text is the cause.
    RequestError(String),
    /// The page does not hold what a chapter page holds.
    ParseError,
}

/// The mathematical value of a [`MangaParkError`].
pub enum MangaParkErrorView {
    RequestError(Seq<char>),
    ParseError,
}

impl View for MangaParkError {
    type V = MangaParkErrorView;

    open spec fn view(&self) -> MangaParkErrorView {
        match *self {
            MangaParkError::RequestError(cause) => MangaParkErrorView::RequestError(cause@),
            MangaParkError::ParseError => MangaParkErrorView::ParseError,
        }
    }
}

/// A chapter of mangapark.
#[derive(Debug)]
pub struct MangaParkChapter {
    url: String,
    manga_title: String,
    chapter: Option<String>,
    pages: Vec<DownloadItem>,
}

impl View for MangaParkChapter {
    type V = ChapterView;

    closed spec fn view(&self) -> ChapterView {
        ChapterView {
            url: self.url@,
            manga: self.manga_title@,
            chapter: match self.chapter {
                Some(label) => label@,
                None => "chapter 0"@,
            },
            pages: item_views(self.pages@),
            referer: None,
        }
    }
}

/// All of `texts`, one after the other.
pub open spec fn joined(texts: Seq<Seq<char>>) -> Seq<char>
    decreases texts.len(),
{
    if texts.len() == 0 {
        Seq::empty()
    } else {
        joined(texts.drop_last()) + texts.last()
    }
}

/// The end of the run of pieces that are not empty, from `from` on.
pub open spec fn filled_until(pieces: Seq<Seq<char>>, from: int) -> int
    decreases pieces.len() - from,
{
    if from < 0 || from >= pieces.len() || pieces[from].len() == 0 {
        from
    } else {
        filled_until(pieces, from + 1)
    }
}

/// A piece without the quotes around it.
pub open spec fn unquoted(piece: Seq<char>) -> Seq<char> {
    without_trailing(without_leading(piece, "\""@), '"')
}

/// The descriptor of the page with index `index` at `address`.
pub open spec fn numbered_page(index: nat, address: Seq<char>) -> DownloadItemView {
    DownloadItemView {
        url: address,
        name: Some("page_"@ + three_digits(index)),
        alt_urls: Seq::empty(),
    }
}

/// The pages that the listing `listing` names: it is a run of quoted texts
/// with a comma behind each; the first is the path of the chapter, those
/// that follow are the addresses of the pages. None where an address is
/// empty.
pub open spec fn pages_in(listing: Seq<char>) -> Option<Seq<DownloadItemView>> {
    let pieces = split(listing, ',');
    let end = filled_until(pieces, 1);
    if forall|i: int| 1 <= i < end ==> (#[trigger] unquoted(pieces[i])).len() > 0 {
        Some(Seq::new((end - 1) as nat, |i: int| numbered_page(i as nat, unquoted(pieces[i + 1]))))
    } else {
        None
    }
}

/// The listing of the pages in the page `html`.
pub open spec fn listing_in(html: Seq<char>) -> Option<Seq<char>> {
    regex_group("\"/title/[^\"]+\",(?:\"https://[^\"]+\",)+"@, html, 0, false)
}

/// The pages of the chapter that the page `html` holds.
pub open spec fn download_info(html: Seq<char>) -> Option<Seq<DownloadItemView>> {
    match listing_in(html) {
        None => None,
        Some(listing) => pages_in(listing),
    }
}

/// The title of the series and the label of the chapter in the page
/// `html`: what the first link to a title holds below a third-level
/// heading and below a sixth-level one; none where a link is missing or
/// holds no text.
pub open spec fn title_and_chapter(html: Seq<char>) -> Option<(Seq<char>, Seq<char>)> {
    match document_texts(html, "h3 > a[href^=\"/title\"]"@) {
        None => None,
        Some(title) => match document_texts(html, "h6 > a[href^=\"/title\"]"@) {
            None => None,
            Some(label) => if joined(title).len() > 0 && joined(label).len() > 0 {
                Some((joined(title), joined(label)))
            } else {
                None
            },
        },
    }
}

/// The chapter that the page `html`, fetched from `url`, holds.
pub open spec fn chapter_of(url: Seq<char>, html: Seq<char>) -> Option<ChapterView> {
    match download_info(html) {
        None => None,
        Some(pages) => match title_and_chapter(html) {
            None => None,
            Some(names) => Some(
                ChapterView { url, manga: names.0, chapter: names.1, pages, referer: None },
            ),
        },
    }
}

fn join(texts: &Vec<String>) -> (r: String)
    ensures
        r@ == joined(views(texts@)),
{
    let mut r = String::new();
    let mut i: usize = 0;
    assert(views(texts@).take(0) =~= Seq::empty());
    while i < texts.len()
        invariant
            i <= texts.len(),
            r@ == joined(views(texts@).take(i as int)),
        decreases texts.len() - i,
    {
        assert(views(texts@).take(i + 1).drop_last() =~= views(texts@).take(i as int));
        r = concat(r.as_str(), texts[i].as_str());
        i += 1;
    }
    assert(views(texts@).take(i as int) =~= views(texts@));
    r
}

/// Reads the title of the series and the label of the chapter out of a
/// chapter page.
pub fn get_title_and_chapter_name(html: &str) -> (r: Result<(String, String), MangaParkError>)
    ensures
        match r {
            Ok(names) => title_and_chapter(html@) == Some((names.0@, names.1@)),
            Err(e) => title_and_chapter(html@) is None && e@ == MangaParkErrorView::ParseError,
        },
{
    let title = match select_texts(html, "h3 > a[href^=\"/title\"]") {
        Some(t) => t,
        None => {
            return Err(MangaParkError::ParseError);
        },
    };
    let label = match select_texts(html, "h6 > a[href^=\"/title\"]") {
        Some(t) => t,
        None => {
            return Err(MangaParkError::ParseError);
        },
    };
    let title = join(&title);
    let label = join(&label);
    if title.as_str().is_empty() || label.as_str().is_empty() {
        return Err(MangaParkError::ParseError);
    }
    Ok((title, label))
}

/// Builds the pages that a listing names.
pub fn pages_from_listing(listing: &str) -> (r: Option<Vec<DownloadItem>>)
    ensures
        match r {
            Some(pages) => pages_in(listing@) == Some(item_views(pages@)),
            None => pages_in(listing@) is None,
        },
{
    let pieces = split_at_char(listing, ',');
    let ghost all = views(pieces@);
    let mut pages: Vec<DownloadItem> = Vec::new();
    let mut i: usize = 1;
    proof {
        lemma_split_nonempty(listing@, ',');
    }
    while i < pieces.len() && !pieces[i].as_str().is_empty()
        invariant
            1 <= i <= pieces.len(),
            all == views(pieces@),
            all == split(listing@, ','),
            pages.len() == i - 1,
            filled_until(all, 1) == filled_until(all, i as int),
            forall|k: int| 1 <= k < i ==> (#[trigger] unquoted(all[k])).len() > 0,
            forall|k: int|
                0 <= k < i - 1 ==> (#[trigger] pages@[k])@ == numbered_page(
                    k as nat,
                    unquoted(all[k + 1]),
                ),
        decreases pieces.len() - i,
    {
        assert(all[i as int] == pieces@[i as int]@);
        let bare = trim_start_matches(pieces[i].as_str(), "\"");
        let address = trim_end_matches(bare.as_str(), '"');
        if address.as_str().is_empty() {
            proof {
                lemma_filled_until_grows(all, i as int + 1);
            }
            assert(filled_until(all, i as int) > i);
            assert(unquoted(all[i as int]).len() == 0);
            return None;
        }
        let number = to_three_digits(i - 1);
        let name = concat("page_", number.as_str());
        pages.push(DownloadItem::new(address.as_str(), Some(name.as_str())));
        i += 1;
    }
    assert(filled_until(all, 1) == i) by {
        if i < pieces.len() {
            assert(all[i as int] == pieces@[i as int]@);
        }
    }
    assert(item_views(pages@) =~= pages_in(listing@)->0);
    Some(pages)
}

/// The run of filled pieces from `from` on does not end before `from`.
proof fn lemma_filled_until_grows(pieces: Seq<Seq<char>>, from: int)
    requires
        0 <= from <= pieces.len(),
    ensures
        from <= filled_until(pieces, from) <= pieces.len(),
    decreases pieces.len() - from,
{
    if from < pieces.len() && pieces[from].len() > 0 {
        lemma_filled_until_grows(pieces, from + 1);
    }
}

/// Reads the pages of a chapter out of its page.
pub fn get_chapter_download_info(html: &str) -> (r: Result<Vec<DownloadItem>, MangaParkError>)
    ensures
        match r {
            Ok(pages) => download_info(html@) == Some(item_views(pages@)),
            Err(e) => download_info(html@) is None && e@ == MangaParkErrorView::ParseError,
        },
{
    let listing = match capture_group(
        "\"/title/[^\"]+\",(?:\"https://[^\"]+\",)+",
        html,
        0,
        false,
    ) {
        Some(l) => l,
        None => {
            return Err(MangaParkError::ParseError);
        },
    };
    match pages_from_listing(listing.as_str()) {
        Some(pages) => Ok(pages),
        None => Err(MangaParkError::ParseError),
    }
}

impl MangaParkChapter {
    /// Reads a chapter out of the page `html` that was fetched from `url`.
    pub fn from_url(url: &str, html: &str) -> (r: Result<Self, MangaParkError>)
        ensures
            match r {
                Ok(chapter) => chapter_of(url@, html@) == Some(chapter@),
                Err(e) => chapter_of(url@, html@) is None && e@ == MangaParkErrorView::ParseError,
            },
    {
        let pages = match get_chapter_download_info(html) {
            Ok(p) => p,
            Err(e) => {
                return Err(e);
            },
        };
        let (title, chapter) = match get_title_and_chapter_name(html) {
            Ok(names) => names,
            Err(e) => {
                return Err(e);
            },
        };
        Ok(
            MangaParkChapter {
                url: url.to_string(),
                manga_title: title,
                chapter: Some(chapter),
                pages,
            },
        )
    }
}

impl Chapter for MangaParkChapter {
    open spec fn url_view(&self) -> Seq<char> {
        self@.url
    }

    open spec fn manga_view(&self) -> Seq<char> {
        self@.manga
    }

    open spec fn chapter_view(&self) -> Seq<char> {
        self@.chapter
    }

    open spec fn pages_view(&self) -> Seq<DownloadItemView> {
        self@.pages
    }

    open spec fn referer_view(&self) -> Option<Seq<char>> {
        self@.referer
    }

    fn url(&self) -> (url: String) {
        self.url.clone()
    }

    fn manga(&self) -> (title: String) {
        self.manga_title.clone()
    }

    fn chapter(&self) -> (label: String) {
        match &self.chapter {
            Some(label) => label.clone(),
            None => "chapter 0".to_string(),
        }
    }

    fn pages_download_info(&self) -> (pages: &Vec<DownloadItem>) {
        &self.pages
    }

    fn referer(&self) -> (referer: Option<String>) {
        None
    }
}

} // verus!
