//! The adapter for truyenqq.

use crate::download::{item_views, DownloadItem, DownloadItemView};
use crate::manga::{Chapter, ChapterView};
use crate::scrape::{
    document_attributes, document_texts, filled_text, first_column, label_text,
    make_plain_pages, pick_filled, pick_label, plain_pages, select_attributes, select_texts,
    source_attribute,
};
use vstd::prelude::*;

verus! {

/// Why a chapter of toptruyen could not be read.
#[derive(Debug)]
pub enum TruyenqqError {
    /// The page could not be fetched; the text is the cause.
    RequestError(String),
    /// The page lacks what a chapter page holds; the text says what.
    ParseError(String),
}

/// The mathematical value of a [`TruyenqqError`].
pub enum TruyenqqErrorView {
    RequestError(Seq<char>),
    ParseError(Seq<char>),
}

impl View for TruyenqqError {
    type V = TruyenqqErrorView;

    open spec fn view(&self) -> TruyenqqErrorView {
        match *self {
            TruyenqqError::RequestError(cause) => TruyenqqErrorView::RequestError(cause@),
            TruyenqqError::ParseError(what) => TruyenqqErrorView::ParseError(what@),
        }
    }
}

/// A chapter of truyenqq.
#[derive(Debug)]
pub struct TruyenqqChapter {
    url: String,
    manga: String,
    chapter: String,
    pages: Vec<DownloadItem>,
}

impl View for TruyenqqChapter {
    type V = ChapterView;

    closed spec fn view(&self) -> ChapterView {
        ChapterView {
            url: self.url@,
            manga: self.manga@,
            chapter: self.chapter@,
            pages: item_views(self.pages@),
            referer: Some("https://truyenqq.com.vn/"@),
        }
    }
}

/// The chapter that the page `html`, fetched from `url`, holds: its title
/// is the second text of the heading and its label the third, without the
/// dash before it; its pages are the lazily loaded images, in order. A
/// page without title, label or the address of an image is refused.
pub open spec fn chapter_of(url: Seq<char>, html: Seq<char>) -> Result<
    ChapterView,
    TruyenqqErrorView,
> {
    match document_texts(html, "h1.detail-title"@) {
        None => Err(TruyenqqErrorView::ParseError("cannot find title"@)),
        Some(texts) => match filled_text(texts, 1) {
            None => Err(TruyenqqErrorView::ParseError("cannot find title"@)),
            Some(manga) => match label_text(texts, 2, "- "@) {
                None => Err(TruyenqqErrorView::ParseError("cannot find chapter"@)),
                Some(chapter) => match plain_pages(
                    first_column(document_attributes(html, "img.lazy[referrerpolicy=\"origin\"]"@, seq!["src"@])),
                ) {
                    None => Err(TruyenqqErrorView::ParseError("cannot find image source"@)),
                    Some(pages) => Ok(
                        ChapterView { url, manga, chapter, pages, referer: Some("https://truyenqq.com.vn/"@) },
                    ),
                },
            },
        },
    }
}

impl TruyenqqChapter {
    /// Reads a chapter out of the page `html` that was fetched from `url`.
    pub fn from_url(url: &str, html: &str) -> (r: Result<Self, TruyenqqError>)
        ensures
            match r {
                Ok(chapter) => chapter_of(url@, html@) == Ok::<ChapterView, TruyenqqErrorView>(
                    chapter@,
                ),
                Err(e) => chapter_of(url@, html@) == Err::<ChapterView, TruyenqqErrorView>(e@),
            },
    {
        let texts = match select_texts(html, "h1.detail-title") {
            Some(t) => t,
            None => {
                return Err(TruyenqqError::ParseError("cannot find title".to_string()));
            },
        };
        let manga = match pick_filled(&texts, 1) {
            Some(m) => m,
            None => {
                return Err(TruyenqqError::ParseError("cannot find title".to_string()));
            },
        };
        let chapter = match pick_label(&texts, 2, "- ") {
            Some(c) => c,
            None => {
                return Err(TruyenqqError::ParseError("cannot find chapter".to_string()));
            },
        };
        let names = source_attribute();
        let rows = select_attributes(html, "img.lazy[referrerpolicy=\"origin\"]", &names);
        match make_plain_pages(&rows) {
            None => Err(TruyenqqError::ParseError("cannot find image source".to_string())),
            Some(pages) => Ok(TruyenqqChapter { url: url.to_string(), manga, chapter, pages }),
        }
    }
}

impl Chapter for TruyenqqChapter {
    open spec fn url_view(&self) -> Seq<char> {
        self@.url
    }

    open spec fn manga_view(&self) -> Seq<char> {
        self@.manga
    }

    open spec fn chapter_view(&self) -> Seq<char> {
        self@.chapter
    }

    open spec fn pages_view(&self) -> Seq<DownloadItemView> {
        self@.pages
    }

    open spec fn referer_view(&self) -> Option<Seq<char>> {
        self@.referer
    }

    fn url(&self) -> (url: String) {
        self.url.clone()
    }

    fn manga(&self) -> (title: String) {
        self.manga.clone()
    }

    fn chapter(&self) -> (label: String) {
        self.chapter.clone()
    }

    fn pages_download_info(&self) -> (pages: &Vec<DownloadItem>) {
        &self.pages
    }

    fn referer(&self) -> (referer: Option<String>) {
        Some("https://truyenqq.com.vn/".to_string())
    }
}

} // verus!
