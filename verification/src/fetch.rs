//! The decisions of one fetch: which URL is tried next, what the file is
//! called, and what the fetch comes to.

use crate::download::{
    DownloadError, DownloadErrorView, DownloadItem, DownloadItemView, FetchFailure,
    FetchFailureView, FetchOutcome, FetchOutcomeView,
};
use crate::filename::{complete_name, completed_name, path_lacks_extension};
use crate::media::{infer_extension_from_response, inferred_extension};
use crate::text::{opt_as_str, opt_str_view, opt_view};
use crate::web::{last_segment, last_segment_of, parse_url, url_parts, UrlParts};
use vstd::prelude::*;

verus! {

/// The seconds after which a request is given up.
pub const REQUEST_TIMEOUT_SECS: u64 = 30;

/// A response counts as a success where its status is in 200..=299.
pub open spec fn status_ok(status: u16) -> bool {
    200 <= status <= 299
}

/// Tells a success from a failure by the status of a response.
pub fn check_status(status: u16) -> (r: Result<(), DownloadError>)
    ensures
        match r {
            Ok(_) => status_ok(status),
            Err(e) => !status_ok(status) && e@ == DownloadErrorView::HttpStatus(status),
        },
{
    if 200 <= status && status <= 299 {
        Ok(())
    } else {
        Err(DownloadError::HttpStatus(status))
    }
}

/// The name that a response from `url` is saved under before any
/// extension is inferred: the descriptor's own name, or else the last
/// segment of the URL's path. There is none where `url` is no absolute URL
/// with a host, and none where the name would be empty.
pub open spec fn request_name(url: Seq<char>, name: Option<Seq<char>>) -> Option<Seq<char>> {
    match url_parts(url) {
        None => None,
        Some(parts) => if !parts.has_host {
            None
        } else {
            let base = match name {
                Some(n) => Some(n),
                None => last_segment(Some(parts)),
            };
            match base {
                Some(b) => if b.len() > 0 {
                    Some(b)
                } else {
                    None
                },
                None => None,
            }
        },
    }
}

/// What a request to `url` is found to be before it is sent: the name to
/// save under, or the URL refused as invalid.
pub open spec fn request_check(url: Seq<char>, name: Option<Seq<char>>) -> Result<
    Seq<char>,
    DownloadErrorView,
> {
    match request_name(url, name) {
        Some(base) => Ok(base),
        None => Err(DownloadErrorView::InvalidUrl(url)),
    }
}

/// The cause that stands for a response without a body.
pub open spec fn empty_body() -> DownloadErrorView {
    DownloadErrorView::RequestError("empty response body"@)
}

/// The name of the file that a response from `url` is saved under, or why
/// there is none. The URL decides first, before any request; then the
/// status; then the body, which must not be empty; then the name is
/// completed by the extension that the content type stands for where
/// `lacks` says that the name has none.
pub open spec fn file_name_for(
    url: Seq<char>,
    name: Option<Seq<char>>,
    status: u16,
    content_type: Option<Seq<char>>,
    body_len: nat,
    lacks: bool,
) -> Result<Seq<char>, DownloadErrorView> {
    match request_name(url, name) {
        None => Err(DownloadErrorView::InvalidUrl(url)),
        Some(base) => if !status_ok(status) {
            Err(DownloadErrorView::HttpStatus(status))
        } else if body_len == 0 {
            Err(empty_body())
        } else {
            Ok(completed_name(base, inferred_extension(content_type), lacks))
        },
    }
}

/// The view of a result that holds a file name or a cause.
pub open spec fn result_view(r: Result<String, DownloadError>) -> Result<
    Seq<char>,
    DownloadErrorView,
> {
    match r {
        Ok(s) => Ok(s@),
        Err(e) => Err(e@),
    }
}

/// Picks the name to save under out of a parsed URL and the descriptor's
/// own name.
pub fn request_name_of(parts: &Option<UrlParts>, name: Option<&str>) -> (r: Option<String>)
    ensures
        match *parts {
            Some(p) => opt_view(r) == (if !p.has_host {
                None
            } else {
                let base = match name {
                    Some(n) => Some(n@),
                    None => last_segment(Some(p@)),
                };
                match base {
                    Some(b) => if b.len() > 0 {
                        Some(b)
                    } else {
                        None
                    },
                    None => None,
                }
            }),
            None => r is None,
        },
{
    match parts {
        None => None,
        Some(p) => {
            if !p.has_host {
                return None;
            }
            let base: Option<String> = match name {
                Some(n) => Some(n.to_string()),
                None => last_segment_of(parts),
            };
            match base {
                Some(b) => {
                    if b.as_str().is_empty() {
                        None
                    } else {
                        Some(b)
                    }
                },
                None => None,
            }
        },
    }
}

/// Checks a URL before any request is sent to it: a text that is no
/// absolute URL with a host, or that names no file where the descriptor
/// names none, is refused as invalid. Otherwise the name to save under
/// comes back.
pub fn prepare_request(url: &str, name: Option<&str>) -> (r: Result<String, DownloadError>)
    ensures
        result_view(r) == request_check(url@, opt_str_view(name)),
{
    let parts = parse_url(url);
    match request_name_of(&parts, name) {
        Some(base) => Ok(base),
        None => Err(DownloadError::InvalidUrl(url.to_string())),
    }
}

/// Decides under which name the body of a response is saved. `status` is
/// the response's status, `content_type` its `Content-Type` header, where
/// it has one that is text, and `body_len` the length of its body.
///
/// Whether the name has an extension of its own is asked of the platform's
/// path rules. The result is what [`file_name_for`] gives for the answer,
/// and a name without any dot always counts as lacking one.
pub fn download_one_url(
    url: &str,
    name: Option<&str>,
    status: u16,
    content_type: Option<&str>,
    body_len: usize,
) -> (r: Result<String, DownloadError>)
    ensures
        result_view(r) == file_name_for(
            url@,
            opt_str_view(name),
            status,
            opt_str_view(content_type),
            body_len as nat,
            true,
        ) || result_view(r) == file_name_for(
            url@,
            opt_str_view(name),
            status,
            opt_str_view(content_type),
            body_len as nat,
            false,
        ),
        request_name(url@, opt_str_view(name)) matches Some(base) ==> !base.contains('.')
            ==> result_view(r) == file_name_for(
            url@,
            opt_str_view(name),
            status,
            opt_str_view(content_type),
            body_len as nat,
            true,
        ),
        r is Ok ==> body_len > 0 && status_ok(status),
{
    let base = match prepare_request(url, name) {
        Ok(b) => b,
        Err(e) => {
            return Err(e);
        },
    };
    match check_status(status) {
        Err(e) => {
            return Err(e);
        },
        Ok(_) => {},
    }
    if body_len == 0 {
        return Err(DownloadError::RequestError("empty response body".to_string()));
    }
    let extension = infer_extension_from_response(content_type);
    let lacks = path_lacks_extension(base.as_str());
    Ok(complete_name(base.as_str(), opt_as_str(&extension), lacks))
}

/// A fetch under way: the descriptor and the URL that is being tried.
#[derive(Debug)]
pub struct FetchAttempt {
    item: DownloadItem,
    index: usize,
}

/// The mathematical value of a [`FetchAttempt`].
pub struct FetchAttemptView {
    pub item: DownloadItemView,
    pub index: nat,
}

impl View for FetchAttempt {
    type V = FetchAttemptView;

    closed spec fn view(&self) -> FetchAttemptView {
        FetchAttemptView { item: self.item@, index: self.index as nat }
    }
}

/// What a fetch does after a try.
#[derive(Debug)]
pub enum FetchStep {
    /// Try the next URL.
    Next(FetchAttempt),
    /// The fetch is over.
    Done(FetchOutcome),
}

/// The mathematical value of a [`FetchStep`].
pub enum FetchStepView {
    Next(FetchAttemptView),
    Done(FetchOutcomeView),
}

impl View for FetchStep {
    type V = FetchStepView;

    open spec fn view(&self) -> FetchStepView {
        match *self {
            FetchStep::Next(attempt) => FetchStepView::Next(attempt@),
            FetchStep::Done(outcome) => FetchStepView::Done(outcome@),
        }
    }
}

/// What a try of one URL gave: the path of the file, or the cause.
pub type TryResult = Result<Seq<char>, DownloadErrorView>;

/// The step after a try: a success ends the fetch; a failure moves on to
/// the next URL, and ends the fetch with that failure where none is left.
pub open spec fn step_after(attempt: FetchAttemptView, result: TryResult) -> FetchStepView {
    match result {
        Ok(path) => FetchStepView::Done(FetchOutcomeView::Success(path)),
        Err(e) => if attempt.index + 1 < attempt.item.urls().len() {
            FetchStepView::Next(FetchAttemptView { index: attempt.index + 1, ..attempt })
        } else {
            FetchStepView::Done(
                FetchOutcomeView::Failure(FetchFailureView { error: e, item: attempt.item }),
            )
        },
    }
}

/// What a whole fetch comes to when the `k`-th URL, if tried, gives
/// `results[k]`, from the try of URL `index` on.
pub open spec fn outcome_from(item: DownloadItemView, results: Seq<TryResult>, index: nat) -> FetchOutcomeView
    recommends
        results.len() == item.urls().len(),
        index < results.len(),
    decreases results.len() - index,
{
    match results[index as int] {
        Ok(path) => FetchOutcomeView::Success(path),
        Err(e) => if index + 1 < results.len() {
            outcome_from(item, results, index + 1)
        } else {
            FetchOutcomeView::Failure(FetchFailureView { error: e, item })
        },
    }
}

/// What a whole fetch of `item` comes to.
pub open spec fn fetch_outcome(item: DownloadItemView, results: Seq<TryResult>) -> FetchOutcomeView
    recommends
        results.len() == item.urls().len(),
{
    outcome_from(item, results, 0)
}

impl FetchAttempt {
    /// The URL under way is one of the descriptor's.
    #[verifier::type_invariant]
    spec fn well_formed(&self) -> bool {
        self.index < self.item@.urls().len()
    }

    /// A fetch of `item` that begins with its primary URL.
    pub fn new(item: DownloadItem) -> (attempt: Self)
        ensures
            attempt@ == (FetchAttemptView { item: item@, index: 0 }),
    {
        FetchAttempt { item, index: 0 }
    }

    /// The descriptor that is fetched.
    pub fn item(&self) -> (item: &DownloadItem)
        ensures
            item@ == self@.item,
    {
        &self.item
    }

    /// The URL to try now.
    pub fn url(&self) -> (url: &str)
        ensures
            self@.index < self@.item.urls().len(),
            url@ == self@.item.urls()[self@.index as int],
    {
        proof {
            use_type_invariant(self);
        }
        self.item.url_at(self.index)
    }

    /// Takes what the try of the current URL gave and decides how the fetch
    /// goes on.
    pub fn settle(self, result: Result<String, DownloadError>) -> (step: FetchStep)
        ensures
            step@ == step_after(self@, result_view(result)),
    {
        proof {
            use_type_invariant(&self);
        }
        match result {
            Ok(path) => FetchStep::Done(FetchOutcome::Success(path)),
            Err(error) => {
                let FetchAttempt { item, index } = self;
                if index < item.alt_urls().len() {
                    FetchStep::Next(FetchAttempt { item, index: index + 1 })
                } else {
                    FetchStep::Done(FetchOutcome::Failure(FetchFailure { error, item }))
                }
            },
        }
    }
}

/// The views of the results of the tries of a fetch.
pub open spec fn result_views(results: Seq<Result<String, DownloadError>>) -> Seq<TryResult> {
    Seq::new(results.len(), |i: int| result_view(results[i]))
}

/// Fetches one descriptor, given what each of its URLs gives when tried:
/// the first success, or else the last failure.
pub fn download_one_item(item: DownloadItem, results: Vec<Result<String, DownloadError>>) -> (outcome:
    FetchOutcome)
    requires
        results.len() == item@.urls().len(),
    ensures
        outcome@ == fetch_outcome(item@, result_views(results@)),
{
    let ghost all = result_views(results@);
    let mut pending = results;
    let mut attempt = FetchAttempt::new(item);
    let mut index: usize = 0;
    loop
        invariant
            all == result_views(results@),
            pending.len() == all.len(),
            all.len() == item@.urls().len(),
            index < pending.len(),
            attempt@ == (FetchAttemptView { item: item@, index: index as nat }),
            forall|k: int|
                index <= k < pending.len() ==> result_view(#[trigger] pending@[k]) == all[k],
            fetch_outcome(item@, all) == outcome_from(item@, all, index as nat),
        decreases pending.len() - index,
    {
        let mut result: Result<String, DownloadError> = Err(DownloadError::HttpStatus(0));
        std::mem::swap(&mut result, &mut pending[index]);
        match attempt.settle(result) {
            FetchStep::Done(outcome) => {
                return outcome;
            },
            FetchStep::Next(next) => {
                attempt = next;
                index += 1;
            },
        }
    }
}

/// A fetch ends with the path of the first URL whose try succeeds.
pub proof fn lemma_first_success_wins(item: DownloadItemView, results: Seq<TryResult>, k: int)
    requires
        results.len() == item.urls().len(),
        0 <= k < results.len(),
        results[k] is Ok,
        forall|j: int| 0 <= j < k ==> results[j] is Err,
    ensures
        fetch_outcome(item, results) == FetchOutcomeView::Success(results[k]->Ok_0),
{
    lemma_outcome_from(item, results, k, 0);
}

/// A fetch whose every try fails ends with the failure of the last URL,
/// and carries the descriptor.
pub proof fn lemma_last_failure_reported(item: DownloadItemView, results: Seq<TryResult>)
    requires
        results.len() == item.urls().len(),
        forall|j: int| 0 <= j < results.len() ==> results[j] is Err,
    ensures
        fetch_outcome(item, results) == FetchOutcomeView::Failure(
            FetchFailureView { error: results.last()->Err_0, item },
        ),
{
    lemma_all_fail_from(item, results, 0);
}

proof fn lemma_outcome_from(item: DownloadItemView, results: Seq<TryResult>, k: int, from: nat)
    requires
        0 <= from <= k < results.len(),
        results[k] is Ok,
        forall|j: int| from <= j < k ==> results[j] is Err,
    ensures
        outcome_from(item, results, from) == FetchOutcomeView::Success(results[k]->Ok_0),
    decreases k - from,
{
    if from < k {
        lemma_outcome_from(item, results, k, from + 1);
    }
}

proof fn lemma_all_fail_from(item: DownloadItemView, results: Seq<TryResult>, from: nat)
    requires
        from < results.len(),
        forall|j: int| from <= j < results.len() ==> results[j] is Err,
    ensures
        outcome_from(item, results, from) == FetchOutcomeView::Failure(
            FetchFailureView { error: results.last()->Err_0, item },
        ),
    decreases results.len() - from,
{
    if from + 1 < results.len() {
        lemma_all_fail_from(item, results, from + 1);
    }
}

} // verus!
