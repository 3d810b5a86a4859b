//! Page descriptors, download options and the outcome of a fetch.

use crate::batch::{chunk_views, limit_view, plan_chunks, schedule, Chunk, RateLimit};
use crate::text::{clone_strings, str_eq, opt_as_str, opt_str_view, opt_to_string, opt_view, views};
use vstd::prelude::*;

verus! {

/// One fetchable resource: a primary URL, fallback URLs in the order in
/// which they are tried, and an optional file name.
#[derive(Debug)]
pub struct DownloadItem {
    url: String,
    name: Option<String>,
    alt_urls: Vec<String>,
}

/// The mathematical value of a [`DownloadItem`].
pub struct DownloadItemView {
    pub url: Seq<char>,
    pub name: Option<Seq<char>>,
    pub alt_urls: Seq<Seq<char>>,
}

impl DownloadItemView {
    /// Every URL of the descriptor in the order in which a fetch tries them:
    /// the primary URL, then the fallbacks.
    pub open spec fn urls(self) -> Seq<Seq<char>> {
        seq![self.url] + self.alt_urls
    }
}

impl View for DownloadItem {
    type V = DownloadItemView;

    closed spec fn view(&self) -> DownloadItemView {
        DownloadItemView { url: self.url@, name: opt_view(self.name), alt_urls: views(self.alt_urls@) }
    }
}

/// The values of a sequence of descriptors.
pub open spec fn item_views(items: Seq<DownloadItem>) -> Seq<DownloadItemView> {
    Seq::new(items.len(), |i: int| items[i]@)
}

impl DownloadItem {
    /// The primary URL of a descriptor is never empty.
    #[verifier::type_invariant]
    spec fn well_formed(&self) -> bool {
        self.url@.len() > 0
    }

    /// A descriptor for `url`, saved under `name` if there is one, without
    /// fallback URLs.
    pub fn new(url: &str, name: Option<&str>) -> (item: Self)
        requires
            url@.len() > 0,
        ensures
            item@ == (DownloadItemView {
                url: url@,
                name: opt_str_view(name),
                alt_urls: Seq::empty(),
            }),
    {
        let item = DownloadItem {
            url: url.to_string(),
            name: opt_to_string(name),
            alt_urls: Vec::new(),
        };
        assert(views(item.alt_urls@) =~= Seq::<Seq<char>>::empty());
        item
    }

    /// The primary URL.
    pub fn url(&self) -> (url: &str)
        ensures
            url@ == self@.url,
            url@.len() > 0,
    {
        proof {
            use_type_invariant(self);
        }
        self.url.as_str()
    }

    /// The file name to save under, if the descriptor gives one.
    pub fn name(&self) -> (name: Option<&str>)
        ensures
            opt_str_view(name) == self@.name,
    {
        opt_as_str(&self.name)
    }

    /// The fallback URLs, in the order in which they are tried.
    pub fn alt_urls(&self) -> (urls: &[String])
        ensures
            views(urls@) == self@.alt_urls,
    {
        self.alt_urls.as_slice()
    }

    /// The descriptor with one more fallback URL at the end, if `url` holds
    /// one.
    pub fn add_option_url(self, url: Option<String>) -> (item: Self)
        ensures
            item@ == (DownloadItemView {
                alt_urls: match url {
                    Some(u) => self@.alt_urls.push(u@),
                    None => self@.alt_urls,
                },
                ..self@
            }),
    {
        proof {
            use_type_invariant(&self);
        }
        let DownloadItem { url: primary, name, mut alt_urls } = self;
        match url {
            Some(u) => {
                alt_urls.push(u);
                assert(views(alt_urls@) =~= views(self.alt_urls@).push(u@));
            },
            None => {},
        }
        DownloadItem { url: primary, name, alt_urls }
    }

    /// The `index`-th URL that a fetch tries: the primary URL first, then
    /// the fallbacks.
    pub fn url_at(&self, index: usize) -> (url: &str)
        requires
            index < self@.urls().len(),
        ensures
            url@ == self@.urls()[index as int],
    {
        if index == 0 {
            self.url.as_str()
        } else {
            self.alt_urls[index - 1].as_str()
        }
    }
}

impl Clone for DownloadItem {
    fn clone(&self) -> (item: Self)
        ensures
            item@ == self@,
    {
        proof {
            use_type_invariant(self);
        }
        let alt_urls = clone_strings(&self.alt_urls);
        DownloadItem { url: self.url.clone(), name: self.name.clone(), alt_urls }
    }
}

/// Where downloads go and what is to be fetched.
#[derive(Debug)]
pub struct DownloadOptions {
    items: Vec<DownloadItem>,
    path: String,
    referer: Option<String>,
}

/// The mathematical value of [`DownloadOptions`].
pub struct DownloadOptionsView {
    pub items: Seq<DownloadItemView>,
    pub path: Seq<char>,
    pub referer: Option<Seq<char>>,
}

impl View for DownloadOptions {
    type V = DownloadOptionsView;

    closed spec fn view(&self) -> DownloadOptionsView {
        DownloadOptionsView {
            items: item_views(self.items@),
            path: self.path@,
            referer: opt_view(self.referer),
        }
    }
}

impl DownloadOptions {
    /// Options with nothing to fetch, an empty path and no referer.
    pub fn new() -> (options: Self)
        ensures
            options@ == (DownloadOptionsView {
                items: Seq::empty(),
                path: Seq::empty(),
                referer: None,
            }),
    {
        let options = DownloadOptions { items: Vec::new(), path: String::new(), referer: None };
        assert(item_views(options.items@) =~= Seq::<DownloadItemView>::empty());
        options
    }

    /// Options that hold `items`, go to `path` and carry `referer`.
    pub fn from_parts(items: Vec<DownloadItem>, path: String, referer: Option<String>) -> (options:
        Self)
        ensures
            options@ == (DownloadOptionsView {
                items: item_views(items@),
                path: path@,
                referer: opt_view(referer),
            }),
    {
        DownloadOptions { items, path, referer }
    }

    /// Adds a descriptor for `url` that names no file.
    pub fn add_url(&mut self, url: &str) -> (options: &mut Self)
        requires
            url@.len() > 0,
        ensures
            *final(self) == *final(options),
            options@ == (DownloadOptionsView {
                items: old(self)@.items.push(
                    DownloadItemView { url: url@, name: None, alt_urls: Seq::empty() },
                ),
                ..old(self)@
            }),
    {
        self.items.push(DownloadItem::new(url, None));
        assert(item_views(self.items@) =~= item_views(old(self).items@).push(
            DownloadItemView { url: url@, name: None, alt_urls: Seq::empty() },
        ));
        self
    }

    /// Adds a descriptor for `url` that is saved under `name`.
    pub fn add_url_with_name(&mut self, url: &str, name: &str) -> (options: &mut Self)
        requires
            url@.len() > 0,
        ensures
            *final(self) == *final(options),
            options@ == (DownloadOptionsView {
                items: old(self)@.items.push(
                    DownloadItemView { url: url@, name: Some(name@), alt_urls: Seq::empty() },
                ),
                ..old(self)@
            }),
    {
        self.items.push(DownloadItem::new(url, Some(name)));
        assert(item_views(self.items@) =~= item_views(old(self).items@).push(
            DownloadItemView { url: url@, name: Some(name@), alt_urls: Seq::empty() },
        ));
        self
    }

    /// Adds a copy of `item`.
    pub fn add_download_item(&mut self, item: &DownloadItem) -> (options: &mut Self)
        ensures
            *final(self) == *final(options),
            options@ == (DownloadOptionsView {
                items: old(self)@.items.push(item@),
                ..old(self)@
            }),
    {
        self.items.push(item.clone());
        assert(item_views(self.items@) =~= item_views(old(self).items@).push(item@));
        self
    }

    /// Adds copies of `items`, in their order.
    pub fn add_download_items(&mut self, items: &Vec<DownloadItem>) -> (options: &mut Self)
        ensures
            *final(self) == *final(options),
            options@ == (DownloadOptionsView {
                items: old(self)@.items + item_views(items@),
                ..old(self)@
            }),
    {
        let mut i: usize = 0;
        while i < items.len()
            invariant
                i <= items.len(),
                self.path == old(self).path,
                self.referer == old(self).referer,
                item_views(self.items@) == item_views(old(self).items@) + item_views(
                    items@,
                ).take(i as int),
            decreases items.len() - i,
        {
            let ghost before = item_views(self.items@);
            self.items.push(items[i].clone());
            i += 1;
            assert(item_views(self.items@) =~= before.push(items@[i - 1]@));
            assert(item_views(items@).take(i as int) =~= item_views(items@).take(i - 1).push(
                items@[i - 1]@,
            ));
        }
        assert(item_views(items@).take(i as int) =~= item_views(items@));
        self
    }

    /// Takes the options and adds a descriptor for each of `urls` to them.
    /// The options are consumed with what was added: nothing of the call is
    /// left to the caller.
    pub fn add_urls(self, urls: Vec<&str>)
        requires
            forall|i: int| 0 <= i < urls.len() ==> (#[trigger] urls[i])@.len() > 0,
    {
        let mut options = self;
        let mut i: usize = 0;
        while i < urls.len()
            invariant
                i <= urls.len(),
                forall|k: int| 0 <= k < urls.len() ==> (#[trigger] urls[k])@.len() > 0,
            decreases urls.len() - i,
        {
            options.add_url(urls[i]);
            i += 1;
        }
    }

    /// Forgets every descriptor.
    pub fn clear_download_items(&mut self)
        ensures
            final(self)@ == (DownloadOptionsView { items: Seq::empty(), ..old(self)@ }),
    {
        self.items = Vec::new();
        assert(item_views(self.items@) =~= Seq::<DownloadItemView>::empty());
    }

    /// Sets the directory that downloads go to. `created` is what creating
    /// that directory, with its parents, gave: `Err` holds the cause, and
    /// the options are then lost to an I/O error.
    pub fn set_path(self, path: &str, created: Result<(), String>) -> (r: Result<Self, DownloadError>)
        ensures
            match created {
                Ok(_) => r matches Ok(options) && options@ == (DownloadOptionsView {
                    path: path@,
                    ..self@
                }),
                Err(cause) => r matches Err(e) && e@ == DownloadErrorView::IoError(cause@),
            },
    {
        match created {
            Ok(_) => {
                let mut options = self;
                options.path = path.to_string();
                Ok(options)
            },
            Err(cause) => Err(DownloadError::IoError(cause)),
        }
    }

    /// Sets the referer that every request carries.
    pub fn set_referer(&mut self, referer: &str) -> (options: &mut Self)
        ensures
            *final(self) == *final(options),
            options@ == (DownloadOptionsView { referer: Some(referer@), ..old(self)@ }),
    {
        self.referer = Some(referer.to_string());
        self
    }

    /// The descriptors, in the order in which they were added.
    pub fn items(&self) -> (items: &Vec<DownloadItem>)
        ensures
            item_views(items@) == self@.items,
    {
        &self.items
    }

    /// The directory that downloads go to.
    pub fn path(&self) -> (path: &str)
        ensures
            path@ == self@.path,
    {
        self.path.as_str()
    }

    /// The referer that every request carries, if one is set.
    pub fn referer(&self) -> (referer: Option<&str>)
        ensures
            opt_str_view(referer) == self@.referer,
    {
        opt_as_str(&self.referer)
    }
}

impl Default for DownloadOptions {
    fn default() -> (options: Self)
        ensures
            options@ == (DownloadOptionsView {
                items: Seq::empty(),
                path: Seq::empty(),
                referer: None,
            }),
    {
        DownloadOptions::new()
    }
}

impl Clone for DownloadOptions {
    fn clone(&self) -> (options: Self)
        ensures
            options@ == self@,
    {
        DownloadOptions {
            items: clone_items(&self.items),
            path: self.path.clone(),
            referer: self.referer.clone(),
        }
    }
}

/// A copy of a vector of descriptors.
pub fn clone_items(items: &Vec<DownloadItem>) -> (r: Vec<DownloadItem>)
    ensures
        item_views(r@) == item_views(items@),
{
    let mut r: Vec<DownloadItem> = Vec::new();
    let mut i: usize = 0;
    while i < items.len()
        invariant
            i <= items.len(),
            r.len() == i,
            forall|j: int| 0 <= j < i ==> r@[j]@ == items@[j]@,
        decreases items.len() - i,
    {
        r.push(items[i].clone());
        i += 1;
    }
    assert(item_views(r@) =~= item_views(items@));
    r
}

/// Why a fetch failed.
#[derive(Debug)]
pub enum DownloadError {
    /// The URL cannot be parsed, or names no file.
    InvalidUrl(String),
    /// The local file system refused; the text is the cause.
    IoError(String),
    /// The request did not get a response: connection, timeout or
    /// transport; the text is the cause.
    RequestError(String),
    /// The server answered with a status outside 200..=299.
    HttpStatus(u16),
}

/// The mathematical value of a [`DownloadError`].
pub enum DownloadErrorView {
    InvalidUrl(Seq<char>),
    IoError(Seq<char>),
    RequestError(Seq<char>),
    HttpStatus(u16),
}

impl DownloadErrorView {
    /// Only what went wrong between here and the server is worth a second
    /// try: a request without a response, or a status outside 200..=299.
    pub open spec fn retryable(self) -> bool {
        self is RequestError || self is HttpStatus
    }
}

impl View for DownloadError {
    type V = DownloadErrorView;

    open spec fn view(&self) -> DownloadErrorView {
        match *self {
            DownloadError::InvalidUrl(url) => DownloadErrorView::InvalidUrl(url@),
            DownloadError::IoError(cause) => DownloadErrorView::IoError(cause@),
            DownloadError::RequestError(cause) => DownloadErrorView::RequestError(cause@),
            DownloadError::HttpStatus(status) => DownloadErrorView::HttpStatus(status),
        }
    }
}

impl DownloadError {
    /// Whether a second try may help.
    pub fn is_retryable(&self) -> (r: bool)
        ensures
            r == self@.retryable(),
    {
        match self {
            DownloadError::RequestError(_) => true,
            DownloadError::HttpStatus(_) => true,
            _ => false,
        }
    }
}

impl Clone for DownloadError {
    fn clone(&self) -> (e: Self)
        ensures
            e@ == self@,
    {
        match self {
            DownloadError::InvalidUrl(url) => DownloadError::InvalidUrl(url.clone()),
            DownloadError::IoError(cause) => DownloadError::IoError(cause.clone()),
            DownloadError::RequestError(cause) => DownloadError::RequestError(cause.clone()),
            DownloadError::HttpStatus(status) => DownloadError::HttpStatus(*status),
        }
    }
}

/// A fetch that failed: the cause and the descriptor, so that a retry goes
/// by descriptor.
#[derive(Debug)]
pub struct FetchFailure {
    pub error: DownloadError,
    pub item: DownloadItem,
}

/// The mathematical value of a [`FetchFailure`].
pub struct FetchFailureView {
    pub error: DownloadErrorView,
    pub item: DownloadItemView,
}

impl View for FetchFailure {
    type V = FetchFailureView;

    open spec fn view(&self) -> FetchFailureView {
        FetchFailureView { error: self.error@, item: self.item@ }
    }
}

impl Clone for FetchFailure {
    fn clone(&self) -> (f: Self)
        ensures
            f@ == self@,
    {
        FetchFailure { error: self.error.clone(), item: self.item.clone() }
    }
}

/// What one fetch of one descriptor gave.
#[derive(Debug)]
pub enum FetchOutcome {
    /// The path of the file that was written.
    Success(String),
    Failure(FetchFailure),
}

/// The mathematical value of a [`FetchOutcome`].
pub enum FetchOutcomeView {
    Success(Seq<char>),
    Failure(FetchFailureView),
}

impl View for FetchOutcome {
    type V = FetchOutcomeView;

    open spec fn view(&self) -> FetchOutcomeView {
        match *self {
            FetchOutcome::Success(path) => FetchOutcomeView::Success(path@),
            FetchOutcome::Failure(failure) => FetchOutcomeView::Failure(failure@),
        }
    }
}

/// The values of a sequence of outcomes.
pub open spec fn outcome_views(outcomes: Seq<FetchOutcome>) -> Seq<FetchOutcomeView> {
    Seq::new(outcomes.len(), |i: int| outcomes[i]@)
}

/// The values of a sequence of failures.
pub open spec fn failure_views(failures: Seq<FetchFailure>) -> Seq<FetchFailureView> {
    Seq::new(failures.len(), |i: int| failures[i]@)
}

impl FetchOutcome {
    /// Whether the fetch wrote its file.
    pub fn is_success(&self) -> (r: bool)
        ensures
            r == (self@ is Success),
    {
        match self {
            FetchOutcome::Success(_) => true,
            FetchOutcome::Failure(_) => false,
        }
    }
}

/// The descriptors at `i` and `j` name the same file, so that the later
/// fetch would overwrite what the earlier one saved.
pub open spec fn collide(items: Seq<DownloadItemView>, i: int, j: int) -> bool {
    0 <= i < j < items.len() && items[i].name is Some && items[i].name == items[j].name
}

/// Whether the descriptors at `i` and `j` name the same file.
fn same_name(items: &Vec<DownloadItem>, i: usize, j: usize) -> (r: bool)
    requires
        i < j < items.len(),
    ensures
        r == collide(item_views(items@), i as int, j as int),
{
    match (items[i].name(), items[j].name()) {
        (Some(a), Some(b)) => str_eq(a, b),
        _ => false,
    }
}

/// Looks for two descriptors that name the same file; finds a pair where
/// there is one.
pub fn find_name_collision(items: &Vec<DownloadItem>) -> (r: Option<(usize, usize)>)
    ensures
        match r {
            Some(pair) => collide(item_views(items@), pair.0 as int, pair.1 as int),
            None => forall|i: int, j: int| !collide(item_views(items@), i, j),
        },
{
    let mut i: usize = 0;
    while i < items.len()
        invariant
            i <= items.len(),
            forall|a: int, b: int| 0 <= a < i ==> !collide(item_views(items@), a, b),
        decreases items.len() - i,
    {
        let mut j: usize = i + 1;
        while j < items.len()
            invariant
                i < j <= items.len(),
                forall|b: int| i < b < j ==> !collide(item_views(items@), i as int, b),
            decreases items.len() - j,
        {
            if same_name(items, i, j) {
                return Some((i, j));
            }
            j += 1;
        }
        i += 1;
    }
    None
}

/// Lays out a batch run over the descriptors of `options`: the waves in
/// which they are fetched, each wave concurrently and one after the other,
/// and the pauses between them. Outcomes are collected wave by wave, so
/// that they stand in the order of the descriptors.
pub fn download(options: &DownloadOptions, limit: Option<RateLimit>) -> (chunks: Vec<Chunk>)
    ensures
        chunk_views(chunks@) == schedule(options@.items.len(), limit_view(limit)),
{
    plan_chunks(options.items.len(), limit)
}

} // verus!
