//! The adapter for truyentranhtuan.

use crate::download::{item_views, DownloadItem, DownloadItemView};
use crate::manga::{Chapter, ChapterView};
use crate::filename::path_file_name;
use crate::scrape::{
    capture_group, document_texts, filled_text, json_strings, label_text, parse_string_list,
    pick_filled, pick_label, regex_group, select_texts,
};
use crate::text::{opt_as_str, views};
use vstd::prelude::*;

verus! {

/// Why a chapter of truyentranhtuan could not be read.
#[derive(Debug)]
pub enum TruyenTranhTuanError {
    /// The page could not be fetched; the text is the cause.
    RequestError(String),
    /// The page lacks what a chapter page holds; the text says what.
    ParseError(String),
    /// The list of pages is no list of strings.
    CannotDeserialize,
}

/// The mathematical value of a [`TruyenTranhTuanError`].
pub enum TruyenTranhTuanErrorView {
    RequestError(Seq<char>),
    ParseError(Seq<char>),
    CannotDeserialize,
}

impl View for TruyenTranhTuanError {
    type V = TruyenTranhTuanErrorView;

    open spec fn view(&self) -> TruyenTranhTuanErrorView {
        match *self {
            TruyenTranhTuanError::RequestError(cause) => TruyenTranhTuanErrorView::RequestError(cause@),
            TruyenTranhTuanError::ParseError(what) => TruyenTranhTuanErrorView::ParseError(what@),
            TruyenTranhTuanError::CannotDeserialize => TruyenTranhTuanErrorView::CannotDeserialize,
        }
    }
}

/// A chapter of truyentranhtuan.
#[derive(Debug)]
pub struct TruyenTranhTuanChapter {
    url: String,
    manga: String,
    chapter: String,
    pages: Vec<DownloadItem>,
}

impl View for TruyenTranhTuanChapter {
    type V = ChapterView;

    closed spec fn view(&self) -> ChapterView {
        ChapterView {
            url: self.url@,
            manga: self.manga@,
            chapter: self.chapter@,
            pages: item_views(self.pages@),
            referer: None,
        }
    }
}

/// The descriptor of the page at `address`, as far as the page says: what
/// it is saved under is the last component of the address, which the
/// platform's path rules give.
pub open spec fn listed_page(address: Seq<char>) -> DownloadItemView {
    DownloadItemView { url: address, name: None, alt_urls: Seq::empty() }
}

/// The pages at `addresses`, in order; none where an address is empty.
pub open spec fn listed_pages(addresses: Seq<Seq<char>>) -> Option<Seq<DownloadItemView>> {
    if forall|i: int| 0 <= i < addresses.len() ==> (#[trigger] addresses[i]).len() > 0 {
        Some(Seq::new(addresses.len(), |i: int| listed_page(addresses[i])))
    } else {
        None
    }
}

/// `pages` are `listed`, each under a name of its own.
pub open spec fn named(pages: Seq<DownloadItemView>, listed: Seq<DownloadItemView>) -> bool {
    &&& pages.len() == listed.len()
    &&& forall|i: int|
        0 <= i < pages.len() ==> (#[trigger] pages[i]).url == listed[i].url && pages[i].alt_urls
            == listed[i].alt_urls
}

/// The chapter that the page `html`, fetched from `url`, holds: its title
/// is the third text of the heading and its label the fourth, without the
/// angle before it; its pages are the addresses in the list that the
/// script of the page assigns to `slides_page_path`. A page without title,
/// label or list is refused.
pub open spec fn chapter_of(url: Seq<char>, html: Seq<char>) -> Result<
    ChapterView,
    TruyenTranhTuanErrorView,
> {
    match document_texts(html, "div#read-title"@) {
        None => Err(TruyenTranhTuanErrorView::ParseError("cannot find title"@)),
        Some(texts) => match filled_text(texts, 2) {
            None => Err(TruyenTranhTuanErrorView::ParseError("cannot find title"@)),
            Some(manga) => match label_text(texts, 3, "> "@) {
                None => Err(TruyenTranhTuanErrorView::ParseError("cannot find chapter"@)),
                Some(chapter) => match regex_group(
                    "slides_page_path = (\\[.*?\\])"@,
                    html,
                    1,
                    true,
                ) {
                    None => Err(TruyenTranhTuanErrorView::ParseError("cannot find chapter list"@)),
                    Some(list) => match json_strings(list) {
                        None => Err(TruyenTranhTuanErrorView::CannotDeserialize),
                        Some(addresses) => match listed_pages(addresses) {
                            None => Err(
                                TruyenTranhTuanErrorView::ParseError("cannot parse chapter list"@),
                            ),
                            Some(pages) => Ok(
                                ChapterView { url, manga, chapter, pages, referer: None },
                            ),
                        },
                    },
                },
            },
        },
    }
}

/// `chapter` is `listed` with its pages under names of their own.
pub open spec fn named_chapter(chapter: ChapterView, listed: ChapterView) -> bool {
    &&& chapter.url == listed.url
    &&& chapter.manga == listed.manga
    &&& chapter.chapter == listed.chapter
    &&& chapter.referer == listed.referer
    &&& named(chapter.pages, listed.pages)
}

fn make_listed_pages(addresses: &Vec<String>) -> (r: Option<Vec<DownloadItem>>)
    ensures
        match r {
            Some(pages) => listed_pages(views(addresses@)) matches Some(listed) && named(
                item_views(pages@),
                listed,
            ),
            None => listed_pages(views(addresses@)) is None,
        },
{
    let mut pages: Vec<DownloadItem> = Vec::new();
    let mut i: usize = 0;
    while i < addresses.len()
        invariant
            i <= addresses.len(),
            pages.len() == i,
            forall|k: int| 0 <= k < i ==> (#[trigger] views(addresses@)[k]).len() > 0,
            forall|k: int|
                0 <= k < i ==> (#[trigger] pages@[k])@.url == addresses@[k]@ && pages@[k]@.alt_urls
                    == Seq::<Seq<char>>::empty(),
        decreases addresses.len() - i,
    {
        let address = addresses[i].as_str();
        if address.is_empty() {
            assert(views(addresses@)[i as int].len() == 0);
            return None;
        }
        let name = path_file_name(address);
        pages.push(DownloadItem::new(address, opt_as_str(&name)));
        i += 1;
    }
    assert(named(item_views(pages@), listed_pages(views(addresses@))->0));
    Some(pages)
}

impl TruyenTranhTuanChapter {
    /// Reads a chapter out of the page `html` that was fetched from `url`.
    pub fn from_url(url: &str, html: &str) -> (r: Result<Self, TruyenTranhTuanError>)
        ensures
            match r {
                Ok(chapter) => chapter_of(url@, html@) matches Ok(listed) && named_chapter(
                    chapter@,
                    listed,
                ),
                Err(e) => chapter_of(url@, html@) == Err::<ChapterView, TruyenTranhTuanErrorView>(
                    e@,
                ),
            },
    {
        let texts = match select_texts(html, "div#read-title") {
            Some(t) => t,
            None => {
                return Err(TruyenTranhTuanError::ParseError("cannot find title".to_string()));
            },
        };
        let manga = match pick_filled(&texts, 2) {
            Some(m) => m,
            None => {
                return Err(TruyenTranhTuanError::ParseError("cannot find title".to_string()));
            },
        };
        let chapter = match pick_label(&texts, 3, "> ") {
            Some(c) => c,
            None => {
                return Err(TruyenTranhTuanError::ParseError("cannot find chapter".to_string()));
            },
        };
        let list = match capture_group("slides_page_path = (\\[.*?\\])", html, 1, true) {
            Some(l) => l,
            None => {
                return Err(
                    TruyenTranhTuanError::ParseError("cannot find chapter list".to_string()),
                );
            },
        };
        let addresses = match parse_string_list(list.as_str()) {
            Some(a) => a,
            None => {
                return Err(TruyenTranhTuanError::CannotDeserialize);
            },
        };
        match make_listed_pages(&addresses) {
            None => Err(TruyenTranhTuanError::ParseError("cannot parse chapter list".to_string())),
            Some(pages) => Ok(
                TruyenTranhTuanChapter { url: url.to_string(), manga, chapter, pages },
            ),
        }
    }
}

impl Chapter for TruyenTranhTuanChapter {
    open spec fn url_view(&self) -> Seq<char> {
        self@.url
    }

    open spec fn manga_view(&self) -> Seq<char> {
        self@.manga
    }

    open spec fn chapter_view(&self) -> Seq<char> {
        self@.chapter
    }

    open spec fn pages_view(&self) -> Seq<DownloadItemView> {
        self@.pages
    }

    open spec fn referer_view(&self) -> Option<Seq<char>> {
        self@.referer
    }

    fn url(&self) -> (url: String) {
        self.url.clone()
    }

    fn manga(&self) -> (title: String) {
        self.manga.clone()
    }

    fn chapter(&self) -> (label: String) {
        self.chapter.clone()
    }

    fn pages_download_info(&self) -> (pages: &Vec<DownloadItem>) {
        &self.pages
    }

    fn referer(&self) -> (referer: Option<String>) {
        None
    }
}

} // verus!
