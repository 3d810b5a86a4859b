//! The adapter for the mirrors of nettruyen.

use crate::download::{item_views, DownloadItem, DownloadItemView};
use crate::manga::{Chapter, ChapterView};
use crate::scrape::{
    document_attributes, document_texts, make_page_name, page_name, row_view, rows_view,
    select_attributes, select_texts,
};
use crate::text::{
    concat, concat3, contains, occurs_at, occurs_in, opt_view, starts_with, str_eq, trim,
    trim_start_matches, trimmed, views, without_leading,
};
use vstd::prelude::*;

verus! {

/// Why a chapter of nettruyen could not be read.
#[derive(Debug)]
pub enum NettruyenError {
    /// The page could not be fetched; the text is the cause.
    RequestError(String),
    /// The page lacks what a chapter page holds; the text says what.
    ParseError(String),
}

/// The mathematical value of a [`NettruyenError`].
pub enum NettruyenErrorView {
    RequestError(Seq<char>),
    ParseError(Seq<char>),
}

impl View for NettruyenError {
    type V = NettruyenErrorView;

    open spec fn view(&self) -> NettruyenErrorView {
        match *self {
            NettruyenError::RequestError(cause) => NettruyenErrorView::RequestError(cause@),
            NettruyenError::ParseError(what) => NettruyenErrorView::ParseError(what@),
        }
    }
}

/// A chapter of nettruyen.
#[derive(Debug)]
pub struct NettruyenChapter {
    url: String,
    manga: String,
    chapter: String,
    pages: Vec<DownloadItem>,
    referer: Option<String>,
}

impl View for NettruyenChapter {
    type V = ChapterView;

    closed spec fn view(&self) -> ChapterView {
        ChapterView {
            url: self.url@,
            manga: self.manga@,
            chapter: self.chapter@,
            pages: item_views(self.pages@),
            referer: opt_view(self.referer),
        }
    }
}

/// How many texts of the heading are looked at for the title, and then
/// again for the label.
pub const TEXTS_TRIED: usize = 10;

/// The index of the first of `texts`, among the `tries` from `from` on,
/// that holds more than white space; the end of the search where none does.
pub open spec fn first_filled(texts: Seq<Seq<char>>, from: int, tries: int) -> int
    decreases tries,
{
    if tries <= 0 || from < 0 || from >= texts.len() {
        from
    } else if trimmed(texts[from]).len() > 0 {
        from
    } else {
        first_filled(texts, from + 1, tries - 1)
    }
}

/// Whether the search that ended at `at` after starting at `from` found a
/// text.
pub open spec fn found(texts: Seq<Seq<char>>, from: int, tries: int, at: int) -> bool {
    from <= at < from + tries && at < texts.len() && trimmed(texts[at]).len() > 0
}

/// The title of the series: the first text of the heading that holds more
/// than white space; none where the search finds no such text.
pub open spec fn title_in(texts: Seq<Seq<char>>) -> Option<Seq<char>> {
    let at = first_filled(texts, 0, TEXTS_TRIED as int);
    if found(texts, 0, TEXTS_TRIED as int, at) {
        Some(trimmed(texts[at]))
    } else {
        None
    }
}

/// Where the search for the label begins: behind the title, or behind the
/// texts that the search for the title went through.
pub open spec fn label_start(texts: Seq<Seq<char>>) -> int {
    let at = first_filled(texts, 0, TEXTS_TRIED as int);
    if found(texts, 0, TEXTS_TRIED as int, at) {
        at + 1
    } else {
        at
    }
}

/// The label of the chapter: the next text of the heading that holds more
/// than white space, without the dash before it; none where the search
/// finds no such text or nothing is left of it.
pub open spec fn label_in(texts: Seq<Seq<char>>) -> Option<Seq<char>> {
    let from = label_start(texts);
    let at = first_filled(texts, from, TEXTS_TRIED as int);
    if found(texts, from, TEXTS_TRIED as int, at) && without_leading(
        trimmed(texts[at]),
        "- "@,
    ).len() > 0 {
        Some(without_leading(trimmed(texts[at]), "- "@))
    } else {
        None
    }
}

/// An address as it is fetched: one that begins with `http` as it stands,
/// any other behind `https:`.
pub open spec fn absolute(address: Seq<char>) -> Seq<char> {
    if occurs_at(address, "http"@, 0) {
        address
    } else {
        "https:"@ + address
    }
}

/// The extension of a page whose image is at `source`.
pub open spec fn extension_of(source: Seq<char>) -> Seq<char> {
    if occurs_in(source, ".png"@) {
        "png"@
    } else if occurs_in(source, ".webp"@) {
        "webp"@
    } else {
        "jpg"@
    }
}

/// The address of an image, from the attributes that may hold it: `src`,
/// else `data-sv1`, else `data-src`.
pub open spec fn source_of(row: Seq<Option<Seq<char>>>) -> Option<Seq<char>> {
    if row[1] is Some {
        row[1]
    } else if row[2] is Some {
        row[2]
    } else {
        row[3]
    }
}

/// The descriptor of the image with index `index` and the attributes `row`,
/// which are `referrerpolicy`, `src`, `data-sv1`, `data-src` and `data-cdn`:
/// its fallback is what `data-cdn` holds; none for an image without an
/// address.
pub open spec fn page_of(index: nat, row: Seq<Option<Seq<char>>>) -> Option<DownloadItemView> {
    match source_of(row) {
        None => None,
        Some(source) => Some(
            DownloadItemView {
                url: absolute(source),
                name: Some(page_name(index, extension_of(absolute(source)))),
                alt_urls: match row[4] {
                    Some(cdn) => seq![absolute(cdn)],
                    None => Seq::empty(),
                },
            },
        ),
    }
}

/// The pages of a chapter, from the attributes of its images in order;
/// none where an image has no address.
pub open spec fn pages_of(rows: Seq<Seq<Option<Seq<char>>>>) -> Option<Seq<DownloadItemView>> {
    if forall|i: int| 0 <= i < rows.len() ==> page_of(i as nat, #[trigger] rows[i]) is Some {
        Some(Seq::new(rows.len(), |i: int| page_of(i as nat, rows[i])->0))
    } else {
        None
    }
}

/// Whether the site wants a referer: it does unless an image says
/// `no-referrer`.
pub open spec fn wants_referer(rows: Seq<Seq<Option<Seq<char>>>>) -> bool {
    forall|i: int| 0 <= i < rows.len() ==> (#[trigger] rows[i])[0] != Some("no-referrer"@)
}

/// The attributes that are read from every image.
pub open spec fn image_attributes() -> Seq<Seq<char>> {
    seq!["referrerpolicy"@, "src"@, "data-sv1"@, "data-src"@, "data-cdn"@]
}

/// The chapter that the page `html` holds, fetched from `url` with the
/// scheme `scheme` on the host `domain`. A page without title or label, or
/// with an image that has no address, is refused.
pub open spec fn chapter_of(
    url: Seq<char>,
    scheme: Seq<char>,
    domain: Seq<char>,
    html: Seq<char>,
) -> Result<ChapterView, NettruyenErrorView> {
    match document_texts(html, "h1.txt-primary"@) {
        None => Err(NettruyenErrorView::ParseError("cannot find title"@)),
        Some(texts) => match title_in(texts) {
            None => Err(NettruyenErrorView::ParseError("cannot find title"@)),
            Some(manga) => match label_in(texts) {
                None => Err(NettruyenErrorView::ParseError("cannot find chapter"@)),
                Some(chapter) => {
                    let rows = document_attributes(
                        html,
                        "div.page-chapter > img"@,
                        image_attributes(),
                    );
                    match pages_of(rows) {
                        None => Err(NettruyenErrorView::ParseError("cannot find image source"@)),
                        Some(pages) => Ok(
                            ChapterView {
                                url,
                                manga,
                                chapter,
                                pages,
                                referer: if wants_referer(rows) {
                                    Some(scheme + "://"@ + domain + "/"@)
                                } else {
                                    None
                                },
                            },
                        ),
                    }
                },
            },
        },
    }
}

/// Finds the first text from `from` on, in at most ten tries, that holds
/// more than white space, and hands it out trimmed.
fn find_filled(texts: &Vec<String>, from: usize) -> (r: (usize, Option<String>))
    requires
        from <= texts.len(),
    ensures
        r.0 == first_filled(views(texts@), from as int, TEXTS_TRIED as int),
        r.0 <= texts.len(),
        match r.1 {
            Some(text) => found(views(texts@), from as int, TEXTS_TRIED as int, r.0 as int)
                && text@ == trimmed(texts@[r.0 as int]@),
            None => !found(views(texts@), from as int, TEXTS_TRIED as int, r.0 as int),
        },
{
    let mut at: usize = from;
    let mut tries: usize = TEXTS_TRIED;
    while tries > 0 && at < texts.len()
        invariant
            from <= at <= texts.len(),
            tries <= TEXTS_TRIED,
            at - from == TEXTS_TRIED - tries,
            first_filled(views(texts@), from as int, TEXTS_TRIED as int) == first_filled(
                views(texts@),
                at as int,
                tries as int,
            ),
        decreases tries,
    {
        let text = trim(texts[at].as_str());
        if !text.as_str().is_empty() {
            return (at, Some(text));
        }
        at += 1;
        tries -= 1;
    }
    (at, None)
}

fn to_absolute(address: &str) -> (r: String)
    ensures
        r@ == absolute(address@),
        r@.len() > 0,
{
    proof {
        reveal_strlit("http");
        reveal_strlit("https:");
    }
    if starts_with(address, "http") {
        address.to_string()
    } else {
        concat("https:", address)
    }
}

fn make_page(index: usize, row: &Vec<Option<String>>) -> (r: Option<DownloadItem>)
    requires
        row.len() == 5,
    ensures
        match r {
            Some(page) => page_of(index as nat, row_view(row@)) == Some(page@),
            None => page_of(index as nat, row_view(row@)) is None,
        },
{
    assert(row_view(row@)[1] == opt_view(row@[1]));
    assert(row_view(row@)[2] == opt_view(row@[2]));
    assert(row_view(row@)[3] == opt_view(row@[3]));
    assert(row_view(row@)[4] == opt_view(row@[4]));
    let source: &String = match &row[1] {
        Some(s) => s,
        None => match &row[2] {
            Some(s) => s,
            None => match &row[3] {
                Some(s) => s,
                None => {
                    return None;
                },
            },
        },
    };
    let address = to_absolute(source.as_str());
    let extension = if contains(address.as_str(), ".png") {
        "png"
    } else if contains(address.as_str(), ".webp") {
        "webp"
    } else {
        "jpg"
    };
    let name = make_page_name(index, extension);
    let fallback = match &row[4] {
        Some(cdn) => Some(to_absolute(cdn.as_str())),
        None => None,
    };
    let page = DownloadItem::new(address.as_str(), Some(name.as_str())).add_option_url(fallback);
    assert(page@.alt_urls =~= page_of(index as nat, row_view(row@))->0.alt_urls);
    Some(page)
}

impl NettruyenChapter {
    /// Reads a chapter out of the page `html` that was fetched from `url`,
    /// whose scheme is `scheme` and whose host is `domain`.
    #[verifier::loop_isolation(false)]
    pub fn from_url(url: &str, scheme: &str, domain: &str, html: &str) -> (r: Result<
        Self,
        NettruyenError,
    >)
        ensures
            match r {
                Ok(chapter) => chapter_of(url@, scheme@, domain@, html@) == Ok::<
                    ChapterView,
                    NettruyenErrorView,
                >(chapter@),
                Err(e) => chapter_of(url@, scheme@, domain@, html@) == Err::<
                    ChapterView,
                    NettruyenErrorView,
                >(e@),
            },
    {
        let texts = match select_texts(html, "h1.txt-primary") {
            Some(t) => t,
            None => {
                return Err(NettruyenError::ParseError("cannot find title".to_string()));
            },
        };
        let (title_at, title) = find_filled(&texts, 0);
        let manga = match title {
            Some(t) => t,
            None => {
                return Err(NettruyenError::ParseError("cannot find title".to_string()));
            },
        };
        let (_, label) = find_filled(&texts, title_at + 1);
        let chapter = match label {
            Some(l) => trim_start_matches(l.as_str(), "- "),
            None => String::new(),
        };
        if chapter.as_str().is_empty() {
            return Err(NettruyenError::ParseError("cannot find chapter".to_string()));
        }
        let mut names: Vec<String> = Vec::new();
        names.push("referrerpolicy".to_string());
        names.push("src".to_string());
        names.push("data-sv1".to_string());
        names.push("data-src".to_string());
        names.push("data-cdn".to_string());
        assert(views(names@) =~= image_attributes());
        let rows = select_attributes(html, "div.page-chapter > img", &names);
        let ghost all = rows_view(rows@);
        let mut pages: Vec<DownloadItem> = Vec::new();
        let mut has_referer = true;
        let mut i: usize = 0;
        assert(all.take(0) =~= Seq::empty());
        while i < rows.len()
            invariant
                i <= rows.len(),
                all == rows_view(rows@),
                forall|k: int| 0 <= k < rows.len() ==> (#[trigger] rows@[k]).len() == 5,
                pages.len() == i,
                forall|k: int|
                    0 <= k < i ==> page_of(k as nat, #[trigger] all[k]) == Some(pages@[k]@),
                has_referer == wants_referer(all.take(i as int)),
            decreases rows.len() - i,
        {
            let row = &rows[i];
            assert(all[i as int] == row_view(row@));
            assert(row_view(row@)[0] == opt_view(row@[0]));
            let blocked = match &row[0] {
                Some(policy) => str_eq(policy.as_str(), "no-referrer"),
                None => false,
            };
            if blocked {
                has_referer = false;
            }
            assert(has_referer == wants_referer(all.take(i + 1))) by {
                if !blocked && wants_referer(all.take(i as int)) {
                    assert forall|k: int| 0 <= k < i + 1 implies (#[trigger] all.take(i + 1)[k])[0]
                        != Some("no-referrer"@) by {
                        if k < i {
                            assert(all.take(i as int)[k] == all.take(i + 1)[k]);
                        }
                    }
                } else if !blocked {
                    let k = choose|k: int|
                        0 <= k < i && (#[trigger] all.take(i as int)[k])[0] == Some("no-referrer"@);
                    assert(all.take(i + 1)[k] == all.take(i as int)[k]);
                } else {
                    assert(all.take(i + 1)[i as int][0] == Some("no-referrer"@));
                }
            }
            match make_page(i, row) {
                Some(page) => {
                    pages.push(page);
                },
                None => {
                    assert(page_of(i as nat, all[i as int]) is None);
                    return Err(
                        NettruyenError::ParseError("cannot find image source".to_string()),
                    );
                },
            }
            i += 1;
        }
        assert(all.take(i as int) =~= all);
        assert(item_views(pages@) =~= pages_of(all)->0);
        let referer = if has_referer {
            let head = concat3(scheme, "://", domain);
            Some(concat(head.as_str(), "/"))
        } else {
            None
        };
        Ok(NettruyenChapter { url: url.to_string(), manga, chapter, pages, referer })
    }
}

impl Chapter for NettruyenChapter {
    open spec fn url_view(&self) -> Seq<char> {
        self@.url
    }

    open spec fn manga_view(&self) -> Seq<char> {
        self@.manga
    }

    open spec fn chapter_view(&self) -> Seq<char> {
        self@.chapter
    }

    open spec fn pages_view(&self) -> Seq<DownloadItemView> {
        self@.pages
    }

    open spec fn referer_view(&self) -> Option<Seq<char>> {
        self@.referer
    }

    fn url(&self) -> (url: String) {
        self.url.clone()
    }

    fn manga(&self) -> (title: String) {
        self.manga.clone()
    }

    fn chapter(&self) -> (label: String) {
        self.chapter.clone()
    }

    fn pages_download_info(&self) -> (pages: &Vec<DownloadItem>) {
        &self.pages
    }

    fn referer(&self) -> (referer: Option<String>) {
        self.referer.clone()
    }
}

} // verus!
