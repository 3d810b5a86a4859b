//! The adapter for toptruyen.

use crate::download::{item_views, DownloadItem, DownloadItemView};
use crate::manga::{Chapter, ChapterView};
use crate::scrape::{
    document_attributes, document_texts, filled_text, first_column, label_text,
    make_plain_pages, pick_filled, pick_label, plain_pages, select_attributes, select_texts,
    source_attribute,
};
use vstd::prelude::*;

verus! {

/// Why a chapter of toptruyen could not be read.
#[derive(Debug)]
pub enum TopTruyenError {
    /// The page could not be fetched; the text is the cause.
    RequestError(String),
    /// The page lacks what a chapter page holds; the text says what.
    ParseError(String),
}

/// The mathematical value of a [`TopTruyenError`].
pub enum TopTruyenErrorView {
    RequestError(Seq<char>),
    ParseError(Seq<char>),
}

impl View for TopTruyenError {
    type V = TopTruyenErrorView;

    open spec fn view(&self) -> TopTruyenErrorView {
        match *self {
            TopTruyenError::RequestError(cause) => TopTruyenErrorView::RequestError(cause@),
            TopTruyenError::ParseError(what) => TopTruyenErrorView::ParseError(what@),
        }
    }
}

/// A chapter of toptruyen.
#[derive(Debug)]
pub struct TopTruyenChapter {
    url: String,
    manga: String,
    chapter: String,
    pages: Vec<DownloadItem>,
}

impl View for TopTruyenChapter {
    type V = ChapterView;

    closed spec fn view(&self) -> ChapterView {
        ChapterView {
            url: self.url@,
            manga: self.manga@,
            chapter: self.chapter@,
            pages: item_views(self.pages@),
            referer: Some("https://www.toptruyen.live/"@),
        }
    }
}

/// The chapter that the page `html`, fetched from `url`, holds: its title
/// is the second text of the heading and its label the fourth, without the
/// dash before it; its pages are the images of the reader, in order. A
/// page without title, label or the address of an image is refused.
pub open spec fn chapter_of(url: Seq<char>, html: Seq<char>) -> Result<
    ChapterView,
    TopTruyenErrorView,
> {
    match document_texts(html, "h1.chapter-info"@) {
        None => Err(TopTruyenErrorView::ParseError("cannot find title"@)),
        Some(texts) => match filled_text(texts, 1) {
            None => Err(TopTruyenErrorView::ParseError("cannot find title"@)),
            Some(manga) => match label_text(texts, 3, "- "@) {
                None => Err(TopTruyenErrorView::ParseError("cannot find chapter"@)),
                Some(chapter) => match plain_pages(
                    first_column(document_attributes(html, "div.page-chapter[id^=\"page\"] > img"@, seq!["src"@])),
                ) {
                    None => Err(TopTruyenErrorView::ParseError("cannot find image source"@)),
                    Some(pages) => Ok(
                        ChapterView { url, manga, chapter, pages, referer: Some("https://www.toptruyen.live/"@) },
                    ),
                },
            },
        },
    }
}

impl TopTruyenChapter {
    /// Reads a chapter out of the page `html` that was fetched from `url`.
    pub fn from_url(url: &str, html: &str) -> (r: Result<Self, TopTruyenError>)
        ensures
            match r {
                Ok(chapter) => chapter_of(url@, html@) == Ok::<ChapterView, TopTruyenErrorView>(
                    chapter@,
                ),
                Err(e) => chapter_of(url@, html@) == Err::<ChapterView, TopTruyenErrorView>(e@),
            },
    {
        let texts = match select_texts(html, "h1.chapter-info") {
            Some(t) => t,
            None => {
                return Err(TopTruyenError::ParseError("cannot find title".to_string()));
            },
        };
        let manga = match pick_filled(&texts, 1) {
            Some(m) => m,
            None => {
                return Err(TopTruyenError::ParseError("cannot find title".to_string()));
            },
        };
        let chapter = match pick_label(&texts, 3, "- ") {
            Some(c) => c,
            None => {
                return Err(TopTruyenError::ParseError("cannot find chapter".to_string()));
            },
        };
        let names = source_attribute();
        let rows = select_attributes(html, "div.page-chapter[id^=\"page\"] > img", &names);
        match make_plain_pages(&rows) {
            None => Err(TopTruyenError::ParseError("cannot find image source".to_string())),
            Some(pages) => Ok(TopTruyenChapter { url: url.to_string(), manga, chapter, pages }),
        }
    }
}

impl Chapter for TopTruyenChapter {
    open spec fn url_view(&self) -> Seq<char> {
        self@.url
    }

    open spec fn manga_view(&self) -> Seq<char> {
        self@.manga
    }

    open spec fn chapter_view(&self) -> Seq<char> {
        self@.chapter
    }

    open spec fn pages_view(&self) -> Seq<DownloadItemView> {
        self@.pages
    }

    open spec fn referer_view(&self) -> Option<Seq<char>> {
        self@.referer
    }

    fn url(&self) -> (url: String) {
        self.url.clone()
    }

    fn manga(&self) -> (title: String) {
        self.manga.clone()
    }

    fn chapter(&self) -> (label: String) {
        self.chapter.clone()
    }

    fn pages_download_info(&self) -> (pages: &Vec<DownloadItem>) {
        &self.pages
    }

    fn referer(&self) -> (referer: Option<String>) {
        Some("https://www.toptruyen.live/".to_string())
    }
}

} // verus!
