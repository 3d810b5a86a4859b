//! The adapter for mangadex.

use crate::download::{item_views, DownloadItem, DownloadItemView};
use crate::manga::{Chapter, ChapterView};
use crate::text::{
    concat, concat3, opt_view, str_eq, three_digits, to_three_digits, views,
};
use vstd::prelude::*;

verus! {

/// Why a chapter of mangadex could not be read.
#[derive(Debug)]
pub enum MangadexError {
    /// A request failed; the text is the cause.
    ReqwestError(String),
    /// The URL names no chapter.
    UrlParseError(String),
    /// An answer of the site is not what it should be.
    DeserializeError,
    /// The chapter names no series.
    CannotGetManga,
}

/// The mathematical value of a [`MangadexError`].
pub enum MangadexErrorView {
    ReqwestError(Seq<char>),
    UrlParseError(Seq<char>),
    DeserializeError,
    CannotGetManga,
}

impl View for MangadexError {
    type V = MangadexErrorView;

    open spec fn view(&self) -> MangadexErrorView {
        match *self {
            MangadexError::ReqwestError(cause) => MangadexErrorView::ReqwestError(cause@),
            MangadexError::UrlParseError(url) => MangadexErrorView::UrlParseError(url@),
            MangadexError::DeserializeError => MangadexErrorView::DeserializeError,
            MangadexError::CannotGetManga => MangadexErrorView::CannotGetManga,
        }
    }
}

/// What a chapter is related to: the kind of the thing and, where the site
/// sent them, its titles.
#[derive(Debug)]
pub struct Relationship {
    pub kind: String,
    pub titles: Option<Vec<String>>,
}

/// A chapter of mangadex.
#[derive(Debug)]
pub struct MangadexChapter {
    manga_title: String,
    chapter_title: Option<String>,
    chapter: Option<String>,
    volume: Option<String>,
    url: String,
    pages: Vec<DownloadItem>,
}

/// The label of a chapter: its volume where it has one, its number, or 0
/// where it has none, and its title where it has one.
pub open spec fn label_of(
    volume: Option<Seq<char>>,
    chapter: Option<Seq<char>>,
    title: Option<Seq<char>>,
) -> Seq<char> {
    let number = match chapter {
        Some(c) => c,
        None => "0"@,
    };
    match (volume, title) {
        (Some(v), Some(t)) => "vol "@ + v + " chap "@ + number + " - "@ + t,
        (Some(v), None) => "vol "@ + v + " chap "@ + number,
        (None, Some(t)) => "chap "@ + number + " - "@ + t,
        (None, None) => "chap "@ + number,
    }
}

impl View for MangadexChapter {
    type V = ChapterView;

    closed spec fn view(&self) -> ChapterView {
        ChapterView {
            url: self.url@,
            manga: self.manga_title@,
            chapter: label_of(
                opt_view(self.volume),
                opt_view(self.chapter),
                opt_view(self.chapter_title),
            ),
            pages: item_views(self.pages@),
            referer: None,
        }
    }
}

/// The identifier of the chapter that a URL with the path segments
/// `segments` names: the segment behind a first segment `chapter`.
pub open spec fn id_in(segments: Option<Seq<Seq<char>>>) -> Option<Seq<char>> {
    match segments {
        Some(s) => if s.len() >= 2 && s[0] == "chapter"@ {
            Some(s[1])
        } else {
            None
        },
        None => None,
    }
}

/// The index of the first relationship of the kind `manga`, or the number
/// of relationships where there is none.
pub open spec fn manga_at(list: Seq<Relationship>, from: int) -> int
    decreases list.len() - from,
{
    if from < 0 || from >= list.len() || list[from].kind@ == "manga"@ {
        from
    } else {
        manga_at(list, from + 1)
    }
}

/// The title of the series that a chapter belongs to: the first title of
/// the first relationship of the kind `manga`; none where that is missing
/// or empty.
pub open spec fn title_in(list: Seq<Relationship>) -> Option<Seq<char>> {
    let at = manga_at(list, 0);
    if 0 <= at < list.len() {
        match list[at].titles {
            Some(titles) => if titles.len() > 0 && titles[0]@.len() > 0 {
                Some(titles[0]@)
            } else {
                None
            },
            None => None,
        }
    } else {
        None
    }
}

/// The descriptor of the page with index `index` that the server at `base`
/// holds under `hash` and `file`.
pub open spec fn page_at(
    base: Seq<char>,
    hash: Seq<char>,
    index: nat,
    file: Seq<char>,
) -> DownloadItemView {
    DownloadItemView {
        url: base + "/data-saver/"@ + hash + "/"@ + file,
        name: Some("page_"@ + three_digits(index + 1)),
        alt_urls: Seq::empty(),
    }
}

/// The pages of a chapter, in the order of `files`.
pub open spec fn pages_at(base: Seq<char>, hash: Seq<char>, files: Seq<Seq<char>>) -> Seq<
    DownloadItemView,
> {
    Seq::new(files.len(), |i: int| page_at(base, hash, i as nat, files[i]))
}

/// The address that tells of the chapter `id` and of its series.
pub open spec fn info_address(id: Seq<char>) -> Seq<char> {
    "https://api.mangadex.org/chapter/"@ + id + "?includes[]=manga"@
}

/// The address that tells where the pages of the chapter `id` are.
pub open spec fn pages_address(id: Seq<char>) -> Seq<char> {
    "https://api.mangadex.org/at-home/server/"@ + id
}

/// Writes the address that tells of a chapter and of its series.
pub fn chapter_info_address(id: &str) -> (address: String)
    ensures
        address@ == info_address(id@),
{
    concat3("https://api.mangadex.org/chapter/", id, "?includes[]=manga")
}

/// Writes the address that tells where the pages of a chapter are.
pub fn chapter_pages_address(id: &str) -> (address: String)
    ensures
        address@ == pages_address(id@),
{
    concat("https://api.mangadex.org/at-home/server/", id)
}

/// Reads the identifier of a chapter out of the path segments of its URL.
pub fn chapter_id(url: &str, segments: &Option<Vec<String>>) -> (r: Result<String, MangadexError>)
    ensures
        match r {
            Ok(id) => id_in(
                match *segments {
                    Some(s) => Some(views(s@)),
                    None => None,
                },
            ) == Some(id@),
            Err(e) => id_in(
                match *segments {
                    Some(s) => Some(views(s@)),
                    None => None,
                },
            ) is None && e@ == MangadexErrorView::UrlParseError(url@),
        },
{
    match segments {
        Some(s) => {
            if s.len() >= 2 && str_eq(s[0].as_str(), "chapter") {
                Ok(s[1].clone())
            } else {
                Err(MangadexError::UrlParseError(url.to_string()))
            }
        },
        None => Err(MangadexError::UrlParseError(url.to_string())),
    }
}

/// Picks the title of the series out of what a chapter is related to.
pub fn get_chapter_info(relationships: &Vec<Relationship>) -> (r: Result<String, MangadexError>)
    ensures
        match r {
            Ok(title) => title_in(relationships@) == Some(title@),
            Err(e) => title_in(relationships@) is None && e@ == MangadexErrorView::CannotGetManga,
        },
{
    let mut i: usize = 0;
    while i < relationships.len() && !str_eq(relationships[i].kind.as_str(), "manga")
        invariant
            i <= relationships.len(),
            manga_at(relationships@, 0) == manga_at(relationships@, i as int),
        decreases relationships.len() - i,
    {
        i += 1;
    }
    if i < relationships.len() {
        match &relationships[i].titles {
            Some(titles) => {
                if titles.len() > 0 && !titles[0].as_str().is_empty() {
                    Ok(titles[0].clone())
                } else {
                    Err(MangadexError::CannotGetManga)
                }
            },
            None => Err(MangadexError::CannotGetManga),
        }
    } else {
        Err(MangadexError::CannotGetManga)
    }
}

/// Builds the pages of a chapter from what the site says of their place.
pub fn get_chapter_pages(base_url: &str, hash: &str, data_saver: &Vec<String>) -> (pages: Vec<
    DownloadItem,
>)
    ensures
        item_views(pages@) == pages_at(base_url@, hash@, views(data_saver@)),
{
    let mut pages: Vec<DownloadItem> = Vec::new();
    let mut i: usize = 0;
    while i < data_saver.len()
        invariant
            i <= data_saver.len(),
            pages.len() == i,
            forall|k: int|
                0 <= k < i ==> (#[trigger] pages@[k])@ == page_at(
                    base_url@,
                    hash@,
                    k as nat,
                    data_saver@[k]@,
                ),
        decreases data_saver.len() - i,
    {
        let head = concat3(base_url, "/data-saver/", hash);
        let url = concat3(head.as_str(), "/", data_saver[i].as_str());
        proof {
            reveal_strlit("/");
        }
        let number = to_three_digits(i + 1);
        let name = concat("page_", number.as_str());
        pages.push(DownloadItem::new(url.as_str(), Some(name.as_str())));
        i += 1;
    }
    assert(item_views(pages@) =~= pages_at(base_url@, hash@, views(data_saver@)));
    pages
}

impl MangadexChapter {
    /// A chapter from what the site says of it.
    pub fn from_url(
        url: &str,
        manga_title: String,
        chapter_title: Option<String>,
        volume: Option<String>,
        chapter: Option<String>,
        pages: Vec<DownloadItem>,
    ) -> (r: Self)
        ensures
            r@ == (ChapterView {
                url: url@,
                manga: manga_title@,
                chapter: label_of(opt_view(volume), opt_view(chapter), opt_view(chapter_title)),
                pages: item_views(pages@),
                referer: None,
            }),
    {
        MangadexChapter { manga_title, chapter_title, chapter, volume, url: url.to_string(), pages }
    }
}

impl Chapter for MangadexChapter {
    open spec fn url_view(&self) -> Seq<char> {
        self@.url
    }

    open spec fn manga_view(&self) -> Seq<char> {
        self@.manga
    }

    open spec fn chapter_view(&self) -> Seq<char> {
        self@.chapter
    }

    open spec fn pages_view(&self) -> Seq<DownloadItemView> {
        self@.pages
    }

    open spec fn referer_view(&self) -> Option<Seq<char>> {
        self@.referer
    }

    fn url(&self) -> (url: String) {
        self.url.clone()
    }

    fn manga(&self) -> (title: String) {
        self.manga_title.clone()
    }

    fn chapter(&self) -> (label: String) {
        let number = match &self.chapter {
            Some(c) => c.clone(),
            None => "0".to_string(),
        };
        let tail = match &self.volume {
            Some(v) => {
                let head = concat3("vol ", v.as_str(), " chap ");
                concat(head.as_str(), number.as_str())
            },
            None => concat("chap ", number.as_str()),
        };
        match &self.chapter_title {
            Some(t) => concat3(tail.as_str(), " - ", t.as_str()),
            None => tail,
        }
    }

    fn pages_download_info(&self) -> (pages: &Vec<DownloadItem>) {
        &self.pages
    }

    fn referer(&self) -> (referer: Option<String>) {
        None
    }
}

} // verus!
