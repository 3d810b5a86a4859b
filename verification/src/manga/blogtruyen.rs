//! The adapter for blogtruyen.

use crate::download::{item_views, DownloadItem, DownloadItemView};
use crate::manga::{Chapter, ChapterView};
use crate::scrape::{
    document_attributes, document_texts, filled_text, first_column, make_plain_pages,
    pick_filled, plain_pages, select_attributes, select_texts, source_attribute,
};
use crate::text::{
    concat3, occurs_at, opt_view, remove_first, starts_with, trim, trim_start_matches, trimmed,
    views, without_first, without_leading,
};
use vstd::prelude::*;

verus! {

/// Why a chapter of blogtruyen could not be read.
#[derive(Debug)]
pub enum BlogTruyenError {
    /// The page could not be fetched; the text is the cause.
    RequestError(String),
    /// The page lacks what a chapter page holds; the text says what.
    ParseError(String),
}

/// The mathematical value of a [`BlogTruyenError`].
pub enum BlogTruyenErrorView {
    RequestError(Seq<char>),
    ParseError(Seq<char>),
}

impl View for BlogTruyenError {
    type V = BlogTruyenErrorView;

    open spec fn view(&self) -> BlogTruyenErrorView {
        match *self {
            BlogTruyenError::RequestError(cause) => BlogTruyenErrorView::RequestError(cause@),
            BlogTruyenError::ParseError(what) => BlogTruyenErrorView::ParseError(what@),
        }
    }
}

/// A chapter of blogtruyen.
#[derive(Debug)]
pub struct BlogTruyenChapter {
    url: String,
    manga: String,
    chapter: String,
    pages: Vec<DownloadItem>,
    referer: String,
}

impl View for BlogTruyenChapter {
    type V = ChapterView;

    closed spec fn view(&self) -> ChapterView {
        ChapterView {
            url: self.url@,
            manga: self.manga@,
            chapter: self.chapter@,
            pages: item_views(self.pages@),
            referer: Some(self.referer@),
        }
    }
}

/// The host that a chapter is fetched from where its URL names `domain`:
/// the pages of the mobile site, whose name begins with `m.`, are read from
/// the main site; any other URL is fetched as it is.
pub open spec fn fetch_host(domain: Option<Seq<char>>) -> Option<Seq<char>> {
    match domain {
        Some(d) => if occurs_at(d, "m."@, 0) {
            Some("blogtruyenmoi.com"@)
        } else {
            None
        },
        None => None,
    }
}

/// The label of a chapter, from the crumb `crumb` that holds it after an
/// angle and, often, after the title of the series; none where nothing is
/// left of it.
pub open spec fn label_of(crumb: Seq<char>, manga: Seq<char>) -> Option<Seq<char>> {
    let label = trimmed(without_first(without_leading(crumb, "> "@), manga));
    if label.len() > 0 {
        Some(label)
    } else {
        None
    }
}

/// The label of the chapter in the breadcrumbs `texts`, whose title is
/// `manga`.
pub open spec fn label_in(texts: Seq<Seq<char>>, manga: Seq<char>) -> Option<Seq<char>> {
    match filled_text(texts, 4) {
        Some(crumb) => label_of(crumb, manga),
        None => None,
    }
}

/// The chapter that the page `html`, fetched from `url` on the host
/// `domain`, holds: its title is the fourth text of the breadcrumbs and its
/// label comes from the fifth; its pages are the images of the article, in
/// order; its referer is the root of the host. A page without title, label
/// or the address of an image is refused.
pub open spec fn chapter_of(url: Seq<char>, domain: Seq<char>, html: Seq<char>) -> Result<
    ChapterView,
    BlogTruyenErrorView,
> {
    match document_texts(html, "header > div.breadcrumbs"@) {
        None => Err(BlogTruyenErrorView::ParseError("cannot find title"@)),
        Some(texts) => match filled_text(texts, 3) {
            None => Err(BlogTruyenErrorView::ParseError("cannot find title"@)),
            Some(manga) => match label_in(texts, manga) {
                None => Err(BlogTruyenErrorView::ParseError("cannot find chapter"@)),
                Some(chapter) => match plain_pages(
                    first_column(
                        document_attributes(html, "article#content > img"@, seq!["src"@]),
                    ),
                ) {
                    None => Err(BlogTruyenErrorView::ParseError("cannot find image source"@)),
                    Some(pages) => Ok(
                        ChapterView {
                            url,
                            manga,
                            chapter,
                            pages,
                            referer: Some("https://"@ + domain + "/"@),
                        },
                    ),
                },
            },
        },
    }
}

fn pick_chapter(texts: &Vec<String>, manga: &str) -> (r: Option<String>)
    ensures
        opt_view(r) == label_in(views(texts@), manga@),
{
    match pick_filled(texts, 4) {
        Some(crumb) => {
            let bare = trim_start_matches(crumb.as_str(), "> ");
            let rest = remove_first(bare.as_str(), manga);
            let label = trim(rest.as_str());
            if label.as_str().is_empty() {
                None
            } else {
                Some(label)
            }
        },
        None => None,
    }
}

impl BlogTruyenChapter {
    /// Decides which host to fetch a chapter from, given the domain that
    /// its URL names.
    pub fn host_to_fetch(domain: Option<&str>) -> (host: Option<String>)
        ensures
            opt_view(host) == fetch_host(crate::text::opt_str_view(domain)),
    {
        match domain {
            Some(d) => {
                if starts_with(d, "m.") {
                    Some("blogtruyenmoi.com".to_string())
                } else {
                    None
                }
            },
            None => None,
        }
    }

    /// Reads a chapter out of the page `html` that was fetched from `url`,
    /// whose host is `domain`.
    pub fn from_url(url: &str, domain: &str, html: &str) -> (r: Result<Self, BlogTruyenError>)
        ensures
            match r {
                Ok(chapter) => chapter_of(url@, domain@, html@) == Ok::<
                    ChapterView,
                    BlogTruyenErrorView,
                >(chapter@),
                Err(e) => chapter_of(url@, domain@, html@) == Err::<
                    ChapterView,
                    BlogTruyenErrorView,
                >(e@),
            },
    {
        let texts = match select_texts(html, "header > div.breadcrumbs") {
            Some(t) => t,
            None => {
                return Err(BlogTruyenError::ParseError("cannot find title".to_string()));
            },
        };
        let manga = match pick_filled(&texts, 3) {
            Some(m) => m,
            None => {
                return Err(BlogTruyenError::ParseError("cannot find title".to_string()));
            },
        };
        let chapter = match pick_chapter(&texts, manga.as_str()) {
            Some(c) => c,
            None => {
                return Err(BlogTruyenError::ParseError("cannot find chapter".to_string()));
            },
        };
        let names = source_attribute();
        let rows = select_attributes(html, "article#content > img", &names);
        match make_plain_pages(&rows) {
            None => Err(BlogTruyenError::ParseError("cannot find image source".to_string())),
            Some(pages) => Ok(
                BlogTruyenChapter {
                    url: url.to_string(),
                    manga,
                    chapter,
                    pages,
                    referer: concat3("https://", domain, "/"),
                },
            ),
        }
    }
}

impl Chapter for BlogTruyenChapter {
    open spec fn url_view(&self) -> Seq<char> {
        self@.url
    }

    open spec fn manga_view(&self) -> Seq<char> {
        self@.manga
    }

    open spec fn chapter_view(&self) -> Seq<char> {
        self@.chapter
    }

    open spec fn pages_view(&self) -> Seq<DownloadItemView> {
        self@.pages
    }

    open spec fn referer_view(&self) -> Option<Seq<char>> {
        self@.referer
    }

    fn url(&self) -> (url: String) {
        self.url.clone()
    }

    fn manga(&self) -> (title: String) {
        self.manga.clone()
    }

    fn chapter(&self) -> (label: String) {
        self.chapter.clone()
    }

    fn pages_download_info(&self) -> (pages: &Vec<DownloadItem>) {
        &self.pages
    }

    fn referer(&self) -> (referer: Option<String>) {
        Some(self.referer.clone())
    }
}

} // verus!
