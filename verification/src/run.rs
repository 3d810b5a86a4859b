//! The run of one chapter download: a first pass over every page and at
//! most one retry pass over the pages whose fetch failed on the way.

use crate::batch::{limit_view, RateLimit, RateLimitView};
use crate::download::{
    clone_items, failure_views, DownloadError, DownloadErrorView, item_views, outcome_views, DownloadItem, DownloadItemView,
    DownloadOptions, DownloadOptionsView, FetchFailure, FetchFailureView, FetchOutcome,
    FetchOutcomeView,
};
use crate::manga::{ChapterError, ChapterErrorView};
use crate::text::{opt_as_str, opt_str_view, opt_view};
use vstd::prelude::*;

verus! {

/// The seconds that a run waits before its retry pass.
pub const RETRY_BACKOFF_SECS: u64 = 5;

/// The working state of one pass of a chapter download.
#[derive(Debug)]
pub struct DownloadRun {
    destination: String,
    pending: Vec<DownloadItem>,
    failed: Vec<FetchFailure>,
    retry: bool,
    limit: Option<RateLimit>,
    referer: Option<String>,
}

/// The mathematical value of a [`DownloadRun`].
pub struct DownloadRunView {
    /// The directory that the pages are saved into.
    pub destination: Seq<char>,
    /// The descriptors that this pass fetches, in order.
    pub pending: Seq<DownloadItemView>,
    /// The failures of the first pass that no retry mends.
    pub failed: Seq<FetchFailureView>,
    /// Whether this pass is the retry pass.
    pub retry: bool,
    /// The rate limit of this pass.
    pub limit: Option<RateLimitView>,
    /// The referer that every request carries.
    pub referer: Option<Seq<char>>,
}

impl View for DownloadRun {
    type V = DownloadRunView;

    closed spec fn view(&self) -> DownloadRunView {
        DownloadRunView {
            destination: self.destination@,
            pending: item_views(self.pending@),
            failed: failure_views(self.failed@),
            retry: self.retry,
            limit: limit_view(self.limit),
            referer: opt_view(self.referer),
        }
    }
}

/// How a run goes on after a pass.
#[derive(Debug)]
pub enum Verdict {
    /// Wait for `wait_secs` seconds, then fetch what `run` holds.
    Retry { run: DownloadRun, wait_secs: u64 },
    /// The run is over: the destination, or every page that still fails.
    Finished(Result<String, ChapterError>),
}

/// The mathematical value of a [`Verdict`].
pub enum VerdictView {
    Retry { run: DownloadRunView, wait_secs: u64 },
    Finished(Result<Seq<char>, ChapterErrorView>),
}

impl View for Verdict {
    type V = VerdictView;

    open spec fn view(&self) -> VerdictView {
        match *self {
            Verdict::Retry { run, wait_secs } => VerdictView::Retry { run: run@, wait_secs },
            Verdict::Finished(Ok(path)) => VerdictView::Finished(Ok(path@)),
            Verdict::Finished(Err(e)) => VerdictView::Finished(Err(e@)),
        }
    }
}

/// The failures among `outcomes` that a retry may mend, in order.
pub open spec fn retryable_failures(outcomes: Seq<FetchOutcomeView>) -> Seq<FetchFailureView>
    decreases outcomes.len(),
{
    if outcomes.len() == 0 {
        Seq::empty()
    } else {
        let before = retryable_failures(outcomes.drop_last());
        match outcomes.last() {
            FetchOutcomeView::Failure(f) => if f.error.retryable() {
                before.push(f)
            } else {
                before
            },
            FetchOutcomeView::Success(_) => before,
        }
    }
}

/// The failures among `outcomes` that no retry mends, in order.
pub open spec fn final_failures(outcomes: Seq<FetchOutcomeView>) -> Seq<FetchFailureView>
    decreases outcomes.len(),
{
    if outcomes.len() == 0 {
        Seq::empty()
    } else {
        let before = final_failures(outcomes.drop_last());
        match outcomes.last() {
            FetchOutcomeView::Failure(f) => if f.error.retryable() {
                before
            } else {
                before.push(f)
            },
            FetchOutcomeView::Success(_) => before,
        }
    }
}

/// Every failure among `outcomes`, in order.
pub open spec fn failures(outcomes: Seq<FetchOutcomeView>) -> Seq<FetchFailureView>
    decreases outcomes.len(),
{
    if outcomes.len() == 0 {
        Seq::empty()
    } else {
        let before = failures(outcomes.drop_last());
        match outcomes.last() {
            FetchOutcomeView::Failure(f) => before.push(f),
            FetchOutcomeView::Success(_) => before,
        }
    }
}

/// The number of successes among `outcomes`.
pub open spec fn success_count(outcomes: Seq<FetchOutcomeView>) -> nat
    decreases outcomes.len(),
{
    if outcomes.len() == 0 {
        0
    } else {
        success_count(outcomes.drop_last()) + if outcomes.last() is Success {
            1nat
        } else {
            0nat
        }
    }
}

/// The descriptors of a sequence of failures.
pub open spec fn failed_items(failed: Seq<FetchFailureView>) -> Seq<DownloadItemView> {
    Seq::new(failed.len(), |i: int| failed[i].item)
}

/// The end of a run: the destination where no page still fails, and else
/// the error that holds every page that does.
pub open spec fn closing(destination: Seq<char>, still_failing: Seq<FetchFailureView>) -> Result<
    Seq<char>,
    ChapterErrorView,
> {
    if still_failing.len() == 0 {
        Ok(destination)
    } else {
        Err(ChapterErrorView::PagesDownloadError { sources: still_failing })
    }
}

/// How a run goes on after a pass that gave `outcomes`.
///
/// After the first pass, the failures that a retry may mend are fetched
/// once more, after a wait and without a rate limit; where there are none
/// the run is over. After the retry pass the run is over in any case. A run
/// that is over has succeeded where no page still fails.
pub open spec fn verdict_after(run: DownloadRunView, outcomes: Seq<FetchOutcomeView>) -> VerdictView {
    if run.retry {
        VerdictView::Finished(closing(run.destination, run.failed + failures(outcomes)))
    } else if retryable_failures(outcomes).len() > 0 {
        VerdictView::Retry {
            run: DownloadRunView {
                destination: run.destination,
                pending: failed_items(retryable_failures(outcomes)),
                failed: run.failed + final_failures(outcomes),
                retry: true,
                limit: None,
                referer: run.referer,
            },
            wait_secs: RETRY_BACKOFF_SECS,
        }
    } else {
        VerdictView::Finished(closing(run.destination, run.failed + final_failures(outcomes)))
    }
}

impl DownloadRun {
    /// The first pass of a run: every page is pending and nothing has
    /// failed.
    pub fn new(
        destination: String,
        pages: Vec<DownloadItem>,
        referer: Option<String>,
        limit: Option<RateLimit>,
    ) -> (run: Self)
        ensures
            run@ == (DownloadRunView {
                destination: destination@,
                pending: item_views(pages@),
                failed: Seq::empty(),
                retry: false,
                limit: limit_view(limit),
                referer: opt_view(referer),
            }),
    {
        let run = DownloadRun {
            destination,
            pending: pages,
            failed: Vec::new(),
            retry: false,
            limit,
            referer,
        };
        assert(failure_views(run.failed@) =~= Seq::empty());
        run
    }

    /// Takes what making the destination directory gave. Where it could
    /// not be made the run is over before any page is fetched, with the
    /// path and the cause; otherwise the run goes on as it is.
    pub fn after_directory(self, created: Result<(), String>) -> (r: Result<Self, ChapterError>)
        ensures
            match created {
                Ok(_) => r matches Ok(run) && run@ == self@,
                Err(cause) => r matches Err(e) && e@ == (ChapterErrorView::PathError {
                    path: self@.destination,
                    source: DownloadErrorView::IoError(cause@),
                }),
            },
    {
        match created {
            Ok(_) => Ok(self),
            Err(cause) => Err(
                ChapterError::PathError {
                    path: self.destination,
                    source: DownloadError::IoError(cause),
                },
            ),
        }
    }

    /// The directory that the pages are saved into.
    pub fn destination(&self) -> (path: &str)
        ensures
            path@ == self@.destination,
    {
        self.destination.as_str()
    }

    /// The descriptors that this pass fetches.
    pub fn pending(&self) -> (items: &Vec<DownloadItem>)
        ensures
            item_views(items@) == self@.pending,
    {
        &self.pending
    }

    /// The rate limit of this pass.
    pub fn rate_limit(&self) -> (limit: Option<RateLimit>)
        ensures
            limit_view(limit) == self@.limit,
    {
        self.limit
    }

    /// The referer that every request carries.
    pub fn referer(&self) -> (referer: Option<&str>)
        ensures
            opt_str_view(referer) == self@.referer,
    {
        opt_as_str(&self.referer)
    }

    /// Whether this pass is the retry pass.
    pub fn is_retry(&self) -> (retry: bool)
        ensures
            retry == self@.retry,
    {
        self.retry
    }

    /// The options of this pass's batch: the pending descriptors, the
    /// destination and the referer.
    pub fn options(&self) -> (options: DownloadOptions)
        ensures
            options@ == (DownloadOptionsView {
                items: self@.pending,
                path: self@.destination,
                referer: self@.referer,
            }),
    {
        DownloadOptions::from_parts(
            clone_items(&self.pending),
            self.destination.clone(),
            self.referer.clone(),
        )
    }

    /// Takes the outcomes of this pass, one for every pending descriptor,
    /// and decides how the run goes on.
    pub fn after_pass(self, outcomes: Vec<FetchOutcome>) -> (verdict: Verdict)
        requires
            outcomes.len() == self@.pending.len(),
        ensures
            verdict@ == verdict_after(self@, outcome_views(outcomes@)),
    {
        let DownloadRun { destination, pending: _, failed, retry, limit: _, referer } = self;
        let ghost carried = failure_views(failed@);
        let ghost all = outcome_views(outcomes@);
        let mut still = failed;
        let mut again: Vec<DownloadItem> = Vec::new();
        let ghost mut again_failures: Seq<FetchFailureView> = Seq::empty();
        let mut rest = outcomes;
        let total = rest.len();
        let mut i: usize = 0;
        assert(all.take(0) =~= Seq::empty());
        while i < total
            invariant
                i <= total,
                total == rest.len(),
                all.len() == total,
                forall|k: int| i <= k < total ==> (#[trigger] rest@[k])@ == all[k],
                again_failures == retryable_failures(all.take(i as int)),
                !retry ==> item_views(again@) == failed_items(again_failures),
                retry ==> again@.len() == 0,
                failure_views(still@) == carried + if retry {
                    failures(all.take(i as int))
                } else {
                    final_failures(all.take(i as int))
                },
            decreases total - i,
        {
            let mut outcome = FetchOutcome::Success(String::new());
            std::mem::swap(&mut outcome, &mut rest[i]);
            let ghost before_still = failure_views(still@);
            let ghost before_again = item_views(again@);
            assert(all.take(i + 1).drop_last() =~= all.take(i as int));
            assert(all.take(i + 1).last() == all[i as int]);
            match outcome {
                FetchOutcome::Success(_) => {},
                FetchOutcome::Failure(failure) => {
                    if !retry && failure.error.is_retryable() {
                        proof {
                            again_failures = again_failures.push(failure@);
                        }
                        again.push(failure.item);
                        assert(item_views(again@) =~= before_again.push(failure@.item));
                        assert(failed_items(again_failures) =~= before_again.push(failure@.item));
                    } else {
                        proof {
                            if failure@.error.retryable() {
                                again_failures = again_failures.push(failure@);
                            }
                        }
                        still.push(failure);
                        assert(failure_views(still@) =~= before_still.push(failure@));
                    }
                },
            }
            i += 1;
        }
        assert(all.take(total as int) =~= all);
        if again.len() > 0 {
            Verdict::Retry {
                run: DownloadRun {
                    destination,
                    pending: again,
                    failed: still,
                    retry: true,
                    limit: None,
                    referer,
                },
                wait_secs: RETRY_BACKOFF_SECS,
            }
        } else if still.len() == 0 {
            Verdict::Finished(Ok(destination))
        } else {
            Verdict::Finished(Err(ChapterError::PagesDownloadError { sources: still }))
        }
    }
}

/// What a whole run comes to when its first pass gives `first` and its
/// retry pass, if there is one, gives `second`.
pub open spec fn run_result(
    run: DownloadRunView,
    first: Seq<FetchOutcomeView>,
    second: Seq<FetchOutcomeView>,
) -> Result<Seq<char>, ChapterErrorView> {
    match verdict_after(run, first) {
        VerdictView::Finished(result) => result,
        VerdictView::Retry { run: next, wait_secs: _ } => match verdict_after(next, second) {
            VerdictView::Finished(result) => result,
            VerdictView::Retry { run: _, wait_secs: _ } => arbitrary(),
        },
    }
}

/// A run makes exactly one retry pass or none: only a first pass can ask
/// for a retry, what it asks for is a retry pass with no rate limit after
/// the fixed wait, and a retry pass always ends the run.
pub proof fn lemma_one_retry_at_most(run: DownloadRunView, outcomes: Seq<FetchOutcomeView>)
    ensures
        run.retry ==> verdict_after(run, outcomes) is Finished,
        verdict_after(run, outcomes) matches VerdictView::Retry { run: next, wait_secs } ==> {
            &&& !run.retry
            &&& next.retry
            &&& next.limit is None
            &&& next.destination == run.destination
            &&& wait_secs == RETRY_BACKOFF_SECS
            &&& forall|later: Seq<FetchOutcomeView>| #[trigger] verdict_after(next, later) is Finished
        },
{
}

/// The failures of a pass fall into those that a retry may mend and those
/// that it does not, and every outcome is a success or one of the two.
pub proof fn lemma_outcomes_partition(outcomes: Seq<FetchOutcomeView>)
    ensures
        success_count(outcomes) + retryable_failures(outcomes).len() + final_failures(
            outcomes,
        ).len() == outcomes.len(),
        failures(outcomes).len() == retryable_failures(outcomes).len() + final_failures(
            outcomes,
        ).len(),
        forall|i: int|
            0 <= i < retryable_failures(outcomes).len() ==> (#[trigger] retryable_failures(
                outcomes,
            )[i]).error.retryable(),
        forall|i: int|
            0 <= i < final_failures(outcomes).len() ==> !(#[trigger] final_failures(
                outcomes,
            )[i]).error.retryable(),
    decreases outcomes.len(),
{
    if outcomes.len() > 0 {
        lemma_outcomes_partition(outcomes.drop_last());
    }
}

/// A pass without failures is a pass of successes only, and the other way
/// round.
pub proof fn lemma_no_failure_means_all_succeeded(outcomes: Seq<FetchOutcomeView>)
    ensures
        (failures(outcomes).len() == 0) == (forall|i: int|
            0 <= i < outcomes.len() ==> #[trigger] outcomes[i] is Success),
    decreases outcomes.len(),
{
    if outcomes.len() > 0 {
        let before = outcomes.drop_last();
        lemma_no_failure_means_all_succeeded(before);
        if failures(outcomes).len() == 0 {
            assert forall|i: int| 0 <= i < outcomes.len() implies #[trigger] outcomes[i] is Success by {
                if i < before.len() {
                    assert(before[i] is Success);
                }
            }
        } else if forall|i: int| 0 <= i < outcomes.len() ==> #[trigger] outcomes[i] is Success {
            assert forall|i: int| 0 <= i < before.len() implies #[trigger] before[i] is Success by {
                assert(outcomes[i] is Success);
            }
            assert(outcomes[outcomes.len() - 1] is Success);
        }
    }
}

/// A run that starts with nothing failed succeeds exactly where every page
/// succeeded in the end: in the first pass no fetch failed for good, and
/// every fetch of the retry pass, if there was one, succeeded. It then
/// gives its destination.
pub proof fn lemma_run_succeeds_iff_every_page_did(
    run: DownloadRunView,
    first: Seq<FetchOutcomeView>,
    second: Seq<FetchOutcomeView>,
)
    requires
        !run.retry,
        run.failed.len() == 0,
    ensures
        run_result(run, first, second) is Ok <==> {
            &&& final_failures(first).len() == 0
            &&& retryable_failures(first).len() > 0 ==> forall|i: int|
                0 <= i < second.len() ==> #[trigger] second[i] is Success
        },
        run_result(run, first, second) is Ok ==> run_result(run, first, second) == Ok::<
            Seq<char>,
            ChapterErrorView,
        >(run.destination),
{
    lemma_no_failure_means_all_succeeded(second);
    assert(run.failed + final_failures(first) =~= final_failures(first));
    if retryable_failures(first).len() > 0 {
        assert((run.failed + final_failures(first)) + failures(second) =~= final_failures(first)
            + failures(second));
    }
}

/// A run that fails reports every page that still fails, in order: the
/// failures of the first pass that no retry mends, then every failure of
/// the retry pass.
pub proof fn lemma_failed_run_reports_every_page(
    run: DownloadRunView,
    first: Seq<FetchOutcomeView>,
    second: Seq<FetchOutcomeView>,
)
    requires
        !run.retry,
        run.failed.len() == 0,
    ensures
        run_result(run, first, second) matches Err(e) ==> e
            == (ChapterErrorView::PagesDownloadError {
            sources: if retryable_failures(first).len() > 0 {
                final_failures(first) + failures(second)
            } else {
                final_failures(first)
            },
        }),
{
    assert(run.failed + final_failures(first) =~= final_failures(first));
    if retryable_failures(first).len() > 0 {
        assert((run.failed + final_failures(first)) + failures(second) =~= final_failures(first)
            + failures(second));
    }
}

/// Where a run over `first.len()` pages succeeds and its retry pass gave
/// one outcome per descriptor it was asked to fetch, as many fetches
/// succeeded over both passes as there are pages.
pub proof fn lemma_successes_match_pages(
    run: DownloadRunView,
    first: Seq<FetchOutcomeView>,
    second: Seq<FetchOutcomeView>,
)
    requires
        !run.retry,
        run.failed.len() == 0,
        run_result(run, first, second) is Ok,
        second.len() == retryable_failures(first).len(),
    ensures
        success_count(first) + success_count(second) == first.len(),
{
    lemma_run_succeeds_iff_every_page_did(run, first, second);
    lemma_outcomes_partition(first);
    lemma_outcomes_partition(second);
    lemma_no_failure_means_all_succeeded(second);
}

} // verus!
