//! Fan-out and tallying around the per-page fetches.
//!
//! The orchestrator probes page 0 to learn the page count, launches one
//! independent fetch task per page index, joins them all, and reports two
//! figures side by side: the listing total it actually parsed, and the
//! total the probe envelope claimed. This module owns those decisions;
//! the launching, joining and printing happen in the surrounding binary.

use vstd::prelude::*;

use crate::fetch::AttemptEvent;
use crate::fetch::AttemptStep;
use crate::fetch::FetchAttempt;
use crate::fetch::FetchError;
use crate::fetch::step_rel;
use crate::structs::Auctions;

verus! {

/// The result of one joined page-fetch task, as the orchestrator sees it.
pub enum TaskOutcome {
    /// The task finished and its fetch returned an envelope.
    Fetched { envelope: Auctions },
    /// The task finished and its fetch failed.
    Failed { error: FetchError },
    /// The task itself aborted before its fetch could finish.
    Aborted { cause: String },
}

/// How many listings one joined task contributes to the parsed total:
/// the length of its envelope's listing sequence, or zero when it
/// errored or aborted.
pub open spec fn parsed_count(o: TaskOutcome) -> nat {
    match o {
        TaskOutcome::Fetched { envelope } => envelope.auctions@.len(),
        TaskOutcome::Failed { .. } => 0,
        TaskOutcome::Aborted { .. } => 0,
    }
}

/// The parsed total over a sequence of joined tasks: the sum of each
/// task's contribution.
pub open spec fn sum_parsed(s: Seq<TaskOutcome>) -> nat
    decreases s.len(),
{
    if s.len() == 0 {
        0
    } else {
        sum_parsed(s.drop_last()) + parsed_count(s.last())
    }
}

proof fn lemma_sum_parsed_take_succ(s: Seq<TaskOutcome>, k: int)
    requires
        0 <= k < s.len(),
    ensures
        sum_parsed(s.take(k + 1)) == sum_parsed(s.take(k)) + parsed_count(s[k]),
{
    assert(s.take(k + 1).drop_last() =~= s.take(k));
    assert(s.take(k + 1).last() == s[k]);
}

/// One page index for every page in `[0, total_pages)`, in order. The
/// orchestrator launches exactly one fetch task per returned index,
/// including a redundant one for page 0, whose probe result is discarded.
pub fn page_indices(total_pages: u32) -> (r: Vec<u32>)
    ensures
        r@.len() == total_pages as int,
        forall|i: int| 0 <= i < r@.len() ==> r@[i] == i as u32,
{
    let mut r: Vec<u32> = Vec::new();
    let mut page: u32 = 0;
    while page < total_pages
        invariant
            page <= total_pages,
            r@.len() == page as int,
            forall|i: int| 0 <= i < r@.len() ==> r@[i] == i as u32,
        decreases total_pages - page,
    {
        r.push(page);
        page = page + 1;
    }
    r
}

/// The parsed total over all joined tasks: each task that returned an
/// envelope contributes its listing count, every other task contributes
/// zero, and no task's failure discards the others' contributions. The
/// sum saturates at `usize::MAX` instead of overflowing.
pub fn tally(results: &Vec<TaskOutcome>) -> (n: usize)
    ensures
        sum_parsed(results@) <= usize::MAX ==> n == sum_parsed(results@),
        sum_parsed(results@) > usize::MAX ==> n == usize::MAX,
{
    let mut n: usize = 0;
    let mut k: usize = 0;
    while k < results.len()
        invariant
            k <= results@.len(),
            sum_parsed(results@.take(k as int)) <= usize::MAX ==> n == sum_parsed(
                results@.take(k as int),
            ),
            sum_parsed(results@.take(k as int)) > usize::MAX ==> n == usize::MAX,
        decreases results@.len() - k,
    {
        proof {
            lemma_sum_parsed_take_succ(results@, k as int);
        }
        let add: usize = match &results[k] {
            TaskOutcome::Fetched { envelope } => envelope.auctions.len(),
            TaskOutcome::Failed { .. } => 0,
            TaskOutcome::Aborted { .. } => 0,
        };
        if add <= usize::MAX - n {
            n = n + add;
        } else {
            n = usize::MAX;
        }
        k = k + 1;
    }
    proof {
        assert(results@.take(results@.len() as int) =~= results@);
    }
    n
}

/// A page fetch answered with a non-success HTTP status degrades
/// silently: it ends at once with an empty envelope, whose task
/// contributes nothing to the parsed total.
pub proof fn http_failure_contributes_zero(state: FetchAttempt, r: AttemptStep)
    requires
        step_rel(state, AttemptEvent::HttpFailure, r),
    ensures
        r matches AttemptStep::Done { result } && result matches Ok(env) && parsed_count(
            TaskOutcome::Fetched { envelope: env },
        ) == 0,
{
}

/// The figures the orchestrator reports once every task has been joined.
pub struct RunSummary {
    /// The page count read from the probe envelope.
    pub total_pages: u32,
    /// The listing total actually parsed out of the joined tasks.
    pub parsed: usize,
    /// The feed-wide listing total claimed by the probe envelope.
    pub told: u32,
}

/// The report of one run: the probe's page count, the parsed total over
/// the joined tasks, and the probe's claimed total. The two totals are
/// reported side by side and never reconciled against each other.
pub fn summarize(probe: &Auctions, results: &Vec<TaskOutcome>) -> (r: RunSummary)
    ensures
        r.total_pages == probe.totalPages,
        r.told == probe.totalAuctions,
        sum_parsed(results@) <= usize::MAX ==> r.parsed == sum_parsed(results@),
        sum_parsed(results@) > usize::MAX ==> r.parsed == usize::MAX,
{
    RunSummary { total_pages: probe.totalPages, parsed: tally(results), told: probe.totalAuctions }
}

} // verus!
