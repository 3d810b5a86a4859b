//! Chapters: what a site adapter gives, which site a URL belongs to, and
//! the entry points of a chapter download.

pub mod blogtruyen;
pub mod mangadex;
pub mod mangapark;
pub mod nettruyen;
pub mod toptruyen;
pub mod truyenqq;
pub mod truyentranhtuan;

use crate::batch::{limit_view, RateLimit};
use crate::download::{
    clone_items, failure_views, item_views, DownloadError, DownloadErrorView, DownloadItem,
    DownloadItemView, FetchFailure, FetchFailureView,
};
use crate::filename::{display_name, make_display_name};
use crate::run::{DownloadRun, DownloadRunView};
use crate::text::{concat, concat3, contains, occurs_in, opt_str_view, opt_view, str_eq};
use crate::web::{parse_url, url_parts, UrlParts, UrlPartsView};
use vstd::prelude::*;

verus! {

/// Why a chapter could not be resolved or downloaded.
#[derive(Debug)]
pub enum ChapterError {
    /// The destination directory could not be made.
    PathError { path: String, source: DownloadError },
    /// Pages still fail after the run; each with its descriptor and cause.
    PagesDownloadError { sources: Vec<FetchFailure> },
    /// The local file system refused; the text is the cause.
    IoError(String),
    /// The archive could not be written; the text is the cause.
    ArchiveError(String),
    /// The URL cannot be parsed, or has no domain name.
    InvalidUrl(String),
    /// No adapter knows the domain.
    SiteNotSupported(String),
    /// The adapter for mangapark failed.
    MangaParkError(mangapark::MangaParkError),
    /// The adapter for mangadex failed.
    MangadexError(mangadex::MangadexError),
    /// The adapter for truyenqq failed.
    TruyenqqError(truyenqq::TruyenqqError),
    /// The adapter for truyentranhtuan failed.
    TruyenTranhTuanError(truyentranhtuan::TruyenTranhTuanError),
    /// The adapter for toptruyen failed.
    TopTruyenError(toptruyen::TopTruyenError),
    /// The adapter for blogtruyen failed.
    BlogTruyenError(blogtruyen::BlogTruyenError),
    /// The adapter for nettruyen failed.
    NettruyenError(nettruyen::NettruyenError),
}

/// The mathematical value of a [`ChapterError`].
pub enum ChapterErrorView {
    PathError { path: Seq<char>, source: DownloadErrorView },
    PagesDownloadError { sources: Seq<FetchFailureView> },
    IoError(Seq<char>),
    ArchiveError(Seq<char>),
    InvalidUrl(Seq<char>),
    SiteNotSupported(Seq<char>),
    MangaParkError(mangapark::MangaParkErrorView),
    MangadexError(mangadex::MangadexErrorView),
    TruyenqqError(truyenqq::TruyenqqErrorView),
    TruyenTranhTuanError(truyentranhtuan::TruyenTranhTuanErrorView),
    TopTruyenError(toptruyen::TopTruyenErrorView),
    BlogTruyenError(blogtruyen::BlogTruyenErrorView),
    NettruyenError(nettruyen::NettruyenErrorView),
}

impl View for ChapterError {
    type V = ChapterErrorView;

    open spec fn view(&self) -> ChapterErrorView {
        match *self {
            ChapterError::PathError { path, source } => ChapterErrorView::PathError {
                path: path@,
                source: source@,
            },
            ChapterError::PagesDownloadError { sources } => ChapterErrorView::PagesDownloadError {
                sources: failure_views(sources@),
            },
            ChapterError::IoError(cause) => ChapterErrorView::IoError(cause@),
            ChapterError::ArchiveError(cause) => ChapterErrorView::ArchiveError(cause@),
            ChapterError::InvalidUrl(url) => ChapterErrorView::InvalidUrl(url@),
            ChapterError::SiteNotSupported(domain) => ChapterErrorView::SiteNotSupported(domain@),
            ChapterError::MangaParkError(e) => ChapterErrorView::MangaParkError(e@),
            ChapterError::MangadexError(e) => ChapterErrorView::MangadexError(e@),
            ChapterError::TruyenqqError(e) => ChapterErrorView::TruyenqqError(e@),
            ChapterError::TruyenTranhTuanError(e) => ChapterErrorView::TruyenTranhTuanError(e@),
            ChapterError::TopTruyenError(e) => ChapterErrorView::TopTruyenError(e@),
            ChapterError::BlogTruyenError(e) => ChapterErrorView::BlogTruyenError(e@),
            ChapterError::NettruyenError(e) => ChapterErrorView::NettruyenError(e@),
        }
    }
}

/// The mathematical value of a chapter.
pub struct ChapterView {
    pub url: Seq<char>,
    pub manga: Seq<char>,
    pub chapter: Seq<char>,
    pub pages: Seq<DownloadItemView>,
    pub referer: Option<Seq<char>>,
}

/// What a site adapter gives for one chapter.
pub trait Chapter {
    /// The canonical URL of the chapter.
    spec fn url_view(&self) -> Seq<char>;

    /// The title of the series.
    spec fn manga_view(&self) -> Seq<char>;

    /// The label of the chapter.
    spec fn chapter_view(&self) -> Seq<char>;

    /// The pages, in reading order.
    spec fn pages_view(&self) -> Seq<DownloadItemView>;

    /// The referer that the site wants on every request, if any.
    spec fn referer_view(&self) -> Option<Seq<char>>;

    /// The URL of the chapter.
    fn url(&self) -> (url: String)
        ensures
            url@ == self.url_view(),
    ;

    /// The name of the series that the chapter belongs to.
    fn manga(&self) -> (title: String)
        ensures
            title@ == self.manga_view(),
    ;

    /// The label of the chapter, such as "vol 7 chap 99"; its form depends
    /// on the site.
    fn chapter(&self) -> (label: String)
        ensures
            label@ == self.chapter_view(),
    ;

    /// The descriptors of the pages.
    fn pages_download_info(&self) -> (pages: &Vec<DownloadItem>)
        ensures
            item_views(pages@) == self.pages_view(),
    ;

    /// The referer that the site wants on every request, if any.
    fn referer(&self) -> (referer: Option<String>)
        ensures
            opt_view(referer) == self.referer_view(),
    ;
}

/// The sites that have an adapter.
#[derive(Clone, Copy, Debug, PartialEq, Eq, Structural)]
pub enum Site {
    MangaPark,
    Mangadex,
    Truyenqq,
    BlogTruyen,
    TopTruyen,
    TruyenTranhTuan,
    Nettruyen,
}

/// The site that a domain belongs to: by its exact name, or, for the site
/// with many mirrors, by the name that all of them hold.
pub open spec fn site_of(domain: Seq<char>) -> Option<Site> {
    if domain == "mangapark.net"@ {
        Some(Site::MangaPark)
    } else if domain == "mangadex.org"@ {
        Some(Site::Mangadex)
    } else if domain == "truyenqq.com.vn"@ || domain == "truyenqqne.com"@ {
        Some(Site::Truyenqq)
    } else if domain == "blogtruyen.vn"@ {
        Some(Site::BlogTruyen)
    } else if domain == "www.toptruyen.live"@ {
        Some(Site::TopTruyen)
    } else if domain == "truyentuan.com"@ {
        Some(Site::TruyenTranhTuan)
    } else if occurs_in(domain, "nettruyen"@) {
        Some(Site::Nettruyen)
    } else {
        None
    }
}

/// Finds the site that a domain belongs to.
pub fn site_for_domain(domain: &str) -> (site: Option<Site>)
    ensures
        site == site_of(domain@),
{
    if str_eq(domain, "mangapark.net") {
        Some(Site::MangaPark)
    } else if str_eq(domain, "mangadex.org") {
        Some(Site::Mangadex)
    } else if str_eq(domain, "truyenqq.com.vn") || str_eq(domain, "truyenqqne.com") {
        Some(Site::Truyenqq)
    } else if str_eq(domain, "blogtruyen.vn") {
        Some(Site::BlogTruyen)
    } else if str_eq(domain, "www.toptruyen.live") {
        Some(Site::TopTruyen)
    } else if str_eq(domain, "truyentuan.com") {
        Some(Site::TruyenTranhTuan)
    } else if contains(domain, "nettruyen") {
        Some(Site::Nettruyen)
    } else {
        None
    }
}

/// The headers that the request for a chapter page of `site` carries, each
/// a name and a value.
pub open spec fn page_headers(site: Site) -> Seq<(Seq<char>, Seq<char>)> {
    match site {
        Site::BlogTruyen => seq![("Accept"@, "*/*"@), ("User-Agent"@, "Manget"@)],
        Site::Nettruyen => seq![("User-Agent"@, "Manget"@)],
        _ => Seq::empty(),
    }
}

/// The values of a list of headers.
pub open spec fn header_views(headers: Seq<(String, String)>) -> Seq<(Seq<char>, Seq<char>)> {
    Seq::new(headers.len(), |i: int| (headers[i].0@, headers[i].1@))
}

/// Lists the headers that the request for a chapter page of `site`
/// carries.
pub fn request_headers(site: Site) -> (headers: Vec<(String, String)>)
    ensures
        header_views(headers@) == page_headers(site),
{
    let mut headers: Vec<(String, String)> = Vec::new();
    match site {
        Site::BlogTruyen => {
            headers.push(("Accept".to_string(), "*/*".to_string()));
            headers.push(("User-Agent".to_string(), "Manget".to_string()));
        },
        Site::Nettruyen => {
            headers.push(("User-Agent".to_string(), "Manget".to_string()));
        },
        _ => {},
    }
    assert(header_views(headers@) =~= page_headers(site));
    headers
}

/// The adapter for a chapter URL, given what parsing the URL gave: a text
/// that is no absolute URL, or a URL without a host, is refused as it
/// stands; a URL whose host is no domain name is refused as the parser
/// writes it; a domain that no adapter knows is refused by its name.
pub open spec fn resolved(url: Seq<char>, parts: Option<UrlPartsView>) -> Result<
    Site,
    ChapterErrorView,
> {
    match parts {
        None => Err(ChapterErrorView::InvalidUrl(url)),
        Some(p) => if !p.has_host {
            Err(ChapterErrorView::InvalidUrl(url))
        } else {
            match p.domain {
                None => Err(ChapterErrorView::InvalidUrl(p.text)),
                Some(domain) => match site_of(domain) {
                    Some(site) => Ok(site),
                    None => Err(ChapterErrorView::SiteNotSupported(domain)),
                },
            }
        },
    }
}

/// The value of an optional parsed URL.
pub open spec fn parts_view(parts: Option<UrlParts>) -> Option<UrlPartsView> {
    match parts {
        Some(p) => Some(p@),
        None => None,
    }
}

/// Picks the adapter for `url` from what parsing it gave.
pub fn resolve(url: &str, parts: &Option<UrlParts>) -> (r: Result<Site, ChapterError>)
    ensures
        match r {
            Ok(site) => resolved(url@, parts_view(*parts)) == Ok::<Site, ChapterErrorView>(site),
            Err(e) => resolved(url@, parts_view(*parts)) == Err::<Site, ChapterErrorView>(e@),
        },
{
    match parts {
        None => Err(ChapterError::InvalidUrl(url.to_string())),
        Some(p) => {
            if !p.has_host {
                Err(ChapterError::InvalidUrl(url.to_string()))
            } else {
                match &p.domain {
                    None => Err(ChapterError::InvalidUrl(p.text.clone())),
                    Some(domain) => match site_for_domain(domain.as_str()) {
                        Some(site) => Ok(site),
                        None => Err(ChapterError::SiteNotSupported(domain.clone())),
                    },
                }
            }
        },
    }
}

/// Resolves a chapter URL to the site whose adapter reads it.
pub fn get_chapter(url: &str) -> (r: Result<Site, ChapterError>)
    ensures
        match r {
            Ok(site) => resolved(url@, url_parts(url@)) == Ok::<Site, ChapterErrorView>(site),
            Err(e) => resolved(url@, url_parts(url@)) == Err::<Site, ChapterErrorView>(e@),
        },
{
    let parts = parse_url(url);
    resolve(url, &parts)
}

/// The name under which a chapter is shown and saved: its title and label,
/// safe for a file system.
pub fn generate_chapter_full_name<C: Chapter>(chapter: &C, windows: bool) -> (name: String)
    ensures
        name@ == display_name(chapter.manga_view(), chapter.chapter_view(), windows),
{
    let title = chapter.manga();
    let label = chapter.chapter();
    make_display_name(title.as_str(), label.as_str(), windows)
}

/// The directory that a chapter goes to: the one asked for, or else one in
/// the current directory that bears the chapter's display name.
pub open spec fn destination_of(path: Option<Seq<char>>, full_name: Seq<char>) -> Seq<char> {
    match path {
        Some(p) => p,
        None => "./"@ + full_name,
    }
}

/// The archive that a chapter goes to: the one asked for, or else one in
/// the current directory that bears the chapter's display name with the
/// extension `cbz`.
pub open spec fn archive_of(path: Option<Seq<char>>, full_name: Seq<char>) -> Seq<char> {
    match path {
        Some(p) => p,
        None => "./"@ + full_name + ".cbz"@,
    }
}

/// Sets up the download of a chapter into `path`, or into a directory named
/// after the chapter: the first pass of the run fetches every page, under
/// the given rate limit and with the referer that the site wants.
pub fn download_chapter<C: Chapter>(
    chapter: &C,
    path: Option<&str>,
    limit: Option<RateLimit>,
    windows: bool,
) -> (run: DownloadRun)
    ensures
        run@ == (DownloadRunView {
            destination: destination_of(
                opt_str_view(path),
                display_name(chapter.manga_view(), chapter.chapter_view(), windows),
            ),
            pending: chapter.pages_view(),
            failed: Seq::empty(),
            retry: false,
            limit: limit_view(limit),
            referer: chapter.referer_view(),
        }),
{
    let destination = match path {
        Some(p) => p.to_string(),
        None => {
            let name = generate_chapter_full_name(chapter, windows);
            concat("./", name.as_str())
        },
    };
    let pages = clone_items(chapter.pages_download_info());
    DownloadRun::new(destination, pages, chapter.referer(), limit)
}

/// The download of a chapter into an archive: the run that fetches the
/// pages into a scratch directory, and the archive that they go to.
#[derive(Debug)]
pub struct ArchiveJob {
    pub run: DownloadRun,
    pub archive: String,
}

/// Sets up the download of a chapter as an archive: the pages are fetched
/// into the scratch directory that was made for this run, and packed into
/// `zip_path`, or into an archive named after the chapter. `scratch` is what
/// making that directory gave: its path, or the cause of the failure, with
/// which the download fails as an I/O error before anything is fetched.
pub fn download_chapter_as_cbz<C: Chapter>(
    chapter: &C,
    zip_path: Option<&str>,
    scratch: Result<String, String>,
    limit: Option<RateLimit>,
    windows: bool,
) -> (r: Result<ArchiveJob, ChapterError>)
    ensures
        match scratch {
            Ok(directory) => r matches Ok(job) && job.run@ == (DownloadRunView {
                destination: directory@,
                pending: chapter.pages_view(),
                failed: Seq::empty(),
                retry: false,
                limit: limit_view(limit),
                referer: chapter.referer_view(),
            }) && job.archive@ == archive_of(
                opt_str_view(zip_path),
                display_name(chapter.manga_view(), chapter.chapter_view(), windows),
            ),
            Err(cause) => r matches Err(e) && e@ == ChapterErrorView::IoError(cause@),
        },
{
    let directory = match scratch {
        Ok(d) => d,
        Err(cause) => {
            return Err(ChapterError::IoError(cause));
        },
    };
    let run = download_chapter(chapter, Some(directory.as_str()), limit, windows);
    let archive = match zip_path {
        Some(p) => p.to_string(),
        None => {
            let name = generate_chapter_full_name(chapter, windows);
            concat3("./", name.as_str(), ".cbz")
        },
    };
    Ok(ArchiveJob { run, archive })
}

/// Takes what making the directory that an archive goes into gave: a
/// failure ends the download as an I/O error, with its cause.
pub fn archive_parent_made(made: Result<(), String>) -> (r: Result<(), ChapterError>)
    ensures
        match made {
            Ok(_) => r is Ok,
            Err(cause) => r matches Err(e) && e@ == ChapterErrorView::IoError(cause@),
        },
{
    match made {
        Ok(_) => Ok(()),
        Err(cause) => Err(ChapterError::IoError(cause)),
    }
}

/// One entry of a directory: its name, and whether it is a regular file.
#[derive(Debug)]
pub struct DirEntry {
    pub name: String,
    pub is_file: bool,
}

/// The names of the regular files among `entries`, in order: what an
/// archive of the directory holds, each under its bare name.
pub open spec fn archived_names(entries: Seq<DirEntry>) -> Seq<Seq<char>>
    decreases entries.len(),
{
    if entries.len() == 0 {
        Seq::empty()
    } else {
        let before = archived_names(entries.drop_last());
        if entries.last().is_file {
            before.push(entries.last().name@)
        } else {
            before
        }
    }
}

/// Picks what goes into the archive of a directory: its regular files, not
/// its subdirectories.
pub fn zip_folder(entries: &Vec<DirEntry>) -> (names: Vec<String>)
    ensures
        crate::text::views(names@) == archived_names(entries@),
{
    let mut names: Vec<String> = Vec::new();
    let mut i: usize = 0;
    assert(entries@.take(0) =~= Seq::empty());
    while i < entries.len()
        invariant
            i <= entries.len(),
            crate::text::views(names@) == archived_names(entries@.take(i as int)),
        decreases entries.len() - i,
    {
        let ghost before = crate::text::views(names@);
        assert(entries@.take(i + 1).drop_last() =~= entries@.take(i as int));
        if entries[i].is_file {
            names.push(entries[i].name.clone());
            assert(crate::text::views(names@) =~= before.push(entries@[i as int].name@));
        }
        i += 1;
    }
    assert(entries@.take(i as int) =~= entries@);
    names
}

/// How the download of a chapter as an archive ends.
#[derive(Debug)]
pub struct ArchiveEnd {
    /// The directory to remove, now that the archive holds its files.
    pub remove: Option<String>,
    /// The archive, or why there is none.
    pub result: Result<String, ChapterError>,
}

/// Ends the download of a chapter as an archive, given what packing the
/// directory `directory` into `archive` gave. Once the archive is written
/// the loose directory goes; where packing failed the directory stays, so
/// that no page is lost, and the whole download has failed.
pub fn finish_archive(directory: String, archive: String, packed: Result<(), String>) -> (end:
    ArchiveEnd)
    ensures
        match packed {
            Ok(_) => {
                &&& end.remove matches Some(d) && d@ == directory@
                &&& end.result matches Ok(a) && a@ == archive@
            },
            Err(cause) => {
                &&& end.remove is None
                &&& end.result matches Err(e) && e@ == ChapterErrorView::ArchiveError(cause@)
            },
        },
{
    match packed {
        Ok(_) => ArchiveEnd { remove: Some(directory), result: Ok(archive) },
        Err(cause) => ArchiveEnd { remove: None, result: Err(ChapterError::ArchiveError(cause)) },
    }
}

} // verus!
