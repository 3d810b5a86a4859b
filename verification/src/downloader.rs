//! A plain downloader of a list of URLs into one directory, with an
//! optional limit on its speed.

use crate::batch::{chunk_views, limit_view, plan_chunks, schedule, Chunk, Interval, RateLimit};
use crate::fetch::status_ok;
use crate::text::{opt_str_view, opt_view};
use crate::fetch::request_name_of;
use crate::web::parse_url;
use vstd::prelude::*;

verus! {

/// Why a download did not come about.
#[derive(Debug)]
pub enum DownloaderError {
    /// The directory to download into does not exist.
    PathNotFound(String),
    /// The URL cannot be parsed, or names no file.
    InvalidUrl(String),
    /// The local file system refused; the text is the cause.
    IoError(String),
    /// The request did not get a response; the text is the cause.
    RequestError(String),
    /// The server answered with a status outside 200..=299.
    InvalidRequestStatus(String, u16),
}

/// The mathematical value of a [`DownloaderError`].
pub enum DownloaderErrorView {
    PathNotFound(Seq<char>),
    InvalidUrl(Seq<char>),
    IoError(Seq<char>),
    RequestError(Seq<char>),
    InvalidRequestStatus(Seq<char>, u16),
}

impl View for DownloaderError {
    type V = DownloaderErrorView;

    open spec fn view(&self) -> DownloaderErrorView {
        match *self {
            DownloaderError::PathNotFound(path) => DownloaderErrorView::PathNotFound(path@),
            DownloaderError::InvalidUrl(url) => DownloaderErrorView::InvalidUrl(url@),
            DownloaderError::IoError(cause) => DownloaderErrorView::IoError(cause@),
            DownloaderError::RequestError(cause) => DownloaderErrorView::RequestError(cause@),
            DownloaderError::InvalidRequestStatus(url, status) => {
                DownloaderErrorView::InvalidRequestStatus(url@, status)
            },
        }
    }
}

/// A list of URLs to download, each with an optional file name.
#[derive(Debug)]
pub struct Downloader {
    urls_table: Vec<(String, Option<String>)>,
    speed_limit: Option<RateLimit>,
    path: String,
}

/// The mathematical value of a [`Downloader`].
pub struct DownloaderView {
    pub urls: Seq<(Seq<char>, Option<Seq<char>>)>,
    pub speed_limit: Option<crate::batch::RateLimitView>,
    pub path: Seq<char>,
}

/// The values of the entries of a table of URLs.
pub open spec fn table_view(table: Seq<(String, Option<String>)>) -> Seq<
    (Seq<char>, Option<Seq<char>>),
> {
    Seq::new(table.len(), |i: int| (table[i].0@, opt_view(table[i].1)))
}

impl View for Downloader {
    type V = DownloaderView;

    closed spec fn view(&self) -> DownloaderView {
        DownloaderView {
            urls: table_view(self.urls_table@),
            speed_limit: limit_view(self.speed_limit),
            path: self.path@,
        }
    }
}

/// The name under which the downloader saves what `url` gives, or why there
/// is none: the given name, or else the last segment of the URL's path,
/// where the URL is one and the name is not empty; then the status of the
/// response decides.
pub open spec fn saved_name(url: Seq<char>, name: Option<Seq<char>>, status: u16) -> Result<
    Seq<char>,
    DownloaderErrorView,
> {
    match crate::fetch::request_name(url, name) {
        None => Err(DownloaderErrorView::InvalidUrl(url)),
        Some(base) => if status_ok(status) {
            Ok(base)
        } else {
            Err(DownloaderErrorView::InvalidRequestStatus(url, status))
        },
    }
}

impl Downloader {
    /// A downloader with no URL and no speed limit that saves into `.`.
    pub fn new() -> (downloader: Self)
        ensures
            downloader@ == (DownloaderView {
                urls: Seq::empty(),
                speed_limit: None,
                path: "."@,
            }),
    {
        let downloader = Downloader {
            urls_table: Vec::new(),
            speed_limit: None,
            path: ".".to_string(),
        };
        assert(table_view(downloader.urls_table@) =~= Seq::empty());
        downloader
    }

    /// Adds `url`; its file is named after the URL.
    pub fn add_url(&mut self, url: &str)
        ensures
            final(self)@ == (DownloaderView {
                urls: old(self)@.urls.push((url@, None)),
                ..old(self)@
            }),
    {
        self.urls_table.push((url.to_string(), None));
        assert(table_view(self.urls_table@) =~= table_view(old(self).urls_table@).push(
            (url@, None),
        ));
    }

    /// Adds `url`; its file is called `name`.
    pub fn add_url_with_name(&mut self, url: &str, name: &str)
        ensures
            final(self)@ == (DownloaderView {
                urls: old(self)@.urls.push((url@, Some(name@))),
                ..old(self)@
            }),
    {
        self.urls_table.push((url.to_string(), Some(name.to_string())));
        assert(table_view(self.urls_table@) =~= table_view(old(self).urls_table@).push(
            (url@, Some(name@)),
        ));
    }

    /// Takes the downloader and adds each of `urls` to it. The downloader
    /// is consumed with what was added: nothing of the call is left to the
    /// caller.
    pub fn add_urls(self, urls: Vec<&str>) {
        let mut downloader = self;
        let mut i: usize = 0;
        while i < urls.len()
            invariant
                i <= urls.len(),
            decreases urls.len() - i,
        {
            downloader.add_url(urls[i]);
            i += 1;
        }
    }

    /// Limits the speed to `num_urls` URLs per second.
    pub fn limit_urls_per_second(self, num_urls: usize) -> (downloader: Self)
        requires
            num_urls > 0,
        ensures
            downloader@ == (DownloaderView {
                speed_limit: Some(
                    crate::batch::RateLimitView {
                        max_items: num_urls as nat,
                        window: Interval { secs: 1, nanos: 0 },
                    },
                ),
                ..self@
            }),
    {
        self.limit_speed(num_urls, Interval::from_secs(1))
    }

    /// Limits the speed to `num_urls` URLs per minute.
    pub fn limit_urls_per_minute(self, num_urls: usize) -> (downloader: Self)
        requires
            num_urls > 0,
        ensures
            downloader@ == (DownloaderView {
                speed_limit: Some(
                    crate::batch::RateLimitView {
                        max_items: num_urls as nat,
                        window: Interval { secs: 60, nanos: 0 },
                    },
                ),
                ..self@
            }),
    {
        self.limit_speed(num_urls, Interval::from_secs(60))
    }

    /// Limits the speed to `num_urls` URLs per `every`.
    pub fn limit_speed(self, num_urls: usize, every: Interval) -> (downloader: Self)
        requires
            num_urls > 0,
        ensures
            downloader@ == (DownloaderView {
                speed_limit: Some(
                    crate::batch::RateLimitView { max_items: num_urls as nat, window: every },
                ),
                ..self@
            }),
    {
        let mut downloader = self;
        downloader.speed_limit = Some(RateLimit::new(num_urls, every));
        downloader
    }

    /// Sets the directory to save into. `exists` says whether that directory
    /// is there; one that is not is refused.
    pub fn set_path(self, path: &str, exists: bool) -> (r: Result<Self, DownloaderError>)
        ensures
            match r {
                Ok(downloader) => exists && downloader@ == (DownloaderView { path: path@, ..self@ }),
                Err(e) => !exists && e@ == DownloaderErrorView::PathNotFound(path@),
            },
    {
        if exists {
            let mut downloader = self;
            downloader.path = path.to_string();
            Ok(downloader)
        } else {
            Err(DownloaderError::PathNotFound(path.to_string()))
        }
    }

    /// The number of URLs to download.
    pub fn len(&self) -> (n: usize)
        ensures
            n == self@.urls.len(),
    {
        self.urls_table.len()
    }

    /// The `index`-th URL.
    pub fn url_at(&self, index: usize) -> (url: &str)
        requires
            index < self@.urls.len(),
        ensures
            url@ == self@.urls[index as int].0,
    {
        self.urls_table[index].0.as_str()
    }

    /// The file name given with the `index`-th URL, if any.
    pub fn name_at(&self, index: usize) -> (name: Option<&str>)
        requires
            index < self@.urls.len(),
        ensures
            opt_str_view(name) == self@.urls[index as int].1,
    {
        crate::text::opt_as_str(&self.urls_table[index].1)
    }

    /// The directory to save into.
    pub fn path(&self) -> (path: &str)
        ensures
            path@ == self@.path,
    {
        self.path.as_str()
    }

    /// The speed limit, if one is set.
    pub fn speed_limit(&self) -> (limit: Option<RateLimit>)
        ensures
            limit_view(limit) == self@.speed_limit,
    {
        self.speed_limit
    }

    /// Decides under which name the answer to a request for `url` is saved
    /// in the downloader's directory. A URL without a file name is refused
    /// whatever the answer; then a status outside 200..=299 is.
    pub fn download_one_url(&self, url: &str, name: Option<&str>, status: u16) -> (r: Result<
        String,
        DownloaderError,
    >)
        ensures
            match r {
                Ok(file) => saved_name(url@, opt_str_view(name), status) == Ok::<
                    Seq<char>,
                    DownloaderErrorView,
                >(file@),
                Err(e) => saved_name(url@, opt_str_view(name), status) == Err::<
                    Seq<char>,
                    DownloaderErrorView,
                >(e@),
            },
    {
        let parts = parse_url(url);
        let base = request_name_of(&parts, name);
        match base {
            None => Err(DownloaderError::InvalidUrl(url.to_string())),
            Some(b) => {
                if 200 <= status && status <= 299 {
                    Ok(b)
                } else {
                    Err(DownloaderError::InvalidRequestStatus(url.to_string(), status))
                }
            },
        }
    }

    /// Lays out the download: without a speed limit all URLs at once; with
    /// a limit of N per window, chunks of N one after the other with a pause
    /// of one window between two chunks.
    pub fn download(&self) -> (chunks: Vec<Chunk>)
        ensures
            chunk_views(chunks@) == schedule(self@.urls.len(), self@.speed_limit),
    {
        plan_chunks(self.urls_table.len(), self.speed_limit)
    }
}

} // verus!
