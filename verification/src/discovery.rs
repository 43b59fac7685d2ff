//! What a search hands over, and the jobs that are made of it.

use crate::strategy::{job_views, sources, ConversionJob, JobView};
use crate::summary::distinct;
use vstd::prelude::*;

verus! {

/// A file that a search found.
#[derive(Clone, Debug, PartialEq, Eq)]
pub enum FoundPath {
    /// The path of the file.
    Text(String),
    /// A rendering of the path of a file whose path is not valid text. The
    /// file is known by this rendering: two such files are told apart by
    /// it.
    Unreadable(String),
}

impl View for FoundPath {
    type V = JobView;

    open spec fn view(&self) -> JobView {
        match self {
            FoundPath::Text(path) => JobView { source: path@, readable: true },
            FoundPath::Unreadable(rendering) => JobView { source: rendering@, readable: false },
        }
    }
}

/// The plain values of a list of found files, one by one.
pub open spec fn found_views(found: Seq<FoundPath>) -> Seq<JobView> {
    Seq::new(found.len(), |i: int| found[i]@)
}

/// The jobs for the files that were found: one for each file, in the order
/// in which the files were found, and none for a file that was found
/// before.
pub open spec fn distinct_jobs(found: Seq<JobView>) -> Seq<JobView>
    decreases found.len(),
{
    if found.len() == 0 {
        Seq::empty()
    } else {
        let before = distinct_jobs(found.drop_last());
        if sources(before).contains(found.last().source) {
            before
        } else {
            before.push(found.last())
        }
    }
}

/// Whether one of `jobs` is for the file of `job`.
fn holds(jobs: &Vec<ConversionJob>, job: &ConversionJob) -> (held: bool)
    ensures
        held == sources(job_views(jobs@)).contains(job@.source),
{
    let ghost all = sources(job_views(jobs@));
    let mut i: usize = 0;
    while i < jobs.len()
        invariant
            i <= jobs.len(),
            all == sources(job_views(jobs@)),
            forall|k: int| 0 <= k < i ==> all[k] != job@.source,
        decreases jobs.len() - i,
    {
        if jobs[i].same_file(job) {
            assert(all[i as int] == job@.source);
            return true;
        }
        i = i + 1;
    }
    false
}

/// Makes the jobs for the files that a search found, leaving out every file
/// that was found before.
pub fn jobs_of(found: &Vec<FoundPath>) -> (jobs: Vec<ConversionJob>)
    ensures
        job_views(jobs@) == distinct_jobs(found_views(found@)),
{
    let ghost all = found_views(found@);
    let mut jobs: Vec<ConversionJob> = Vec::new();
    let mut i: usize = 0;
    while i < found.len()
        invariant
            i <= found.len(),
            all == found_views(found@),
            job_views(jobs@) == distinct_jobs(all.take(i as int)),
        decreases found.len() - i,
    {
        let job = match &found[i] {
            FoundPath::Text(path) => ConversionJob::new(path.as_str()),
            FoundPath::Unreadable(rendering) => ConversionJob::unreadable(rendering.as_str()),
        };
        assert(all.take(i + 1).drop_last() == all.take(i as int));
        assert(all.take(i + 1).last() == job@);
        let ghost before = job_views(jobs@);
        if !holds(&jobs, &job) {
            jobs.push(job);
            assert(job_views(jobs@) == before.push(job@));
        }
        i = i + 1;
    }
    assert(all.take(i as int) == all);
    jobs
}

/// The jobs of a search name no file twice. Every job is for a file that
/// was found, every file that was found has its job, and where no file was
/// found twice the jobs are the files as they were found.
pub proof fn lemma_distinct_jobs(found: Seq<JobView>)
    ensures
        distinct(sources(distinct_jobs(found))),
        distinct_jobs(found).len() <= found.len(),
        found.len() > 0 ==> distinct_jobs(found).len() > 0,
        forall|k: int|
            0 <= k < distinct_jobs(found).len() ==> found.contains(
                #[trigger] distinct_jobs(found)[k],
            ),
        forall|i: int|
            0 <= i < found.len() ==> sources(distinct_jobs(found)).contains(
                #[trigger] found[i].source,
            ),
        distinct(sources(found)) ==> distinct_jobs(found) == found,
    decreases found.len(),
{
    if found.len() > 0 {
        let front = found.drop_last();
        let last = found.last();
        let before = distinct_jobs(front);
        let jobs = distinct_jobs(found);
        lemma_distinct_jobs(front);
        assert forall|k: int| 0 <= k < jobs.len() implies found.contains(#[trigger] jobs[k]) by {
            if k < before.len() {
                assert(front.contains(before[k]));
                let at = choose|at: int| 0 <= at < front.len() && front[at] == before[k];
                assert(found[at] == before[k]);
            } else {
                assert(found[found.len() - 1] == jobs[k]);
            }
        }
        assert forall|i: int| 0 <= i < found.len() implies sources(jobs).contains(
            #[trigger] found[i].source,
        ) by {
            if i < front.len() {
                assert(front[i] == found[i]);
                assert(sources(before).contains(front[i].source));
                let at = choose|at: int|
                    0 <= at < sources(before).len() && sources(before)[at] == front[i].source;
                assert(sources(jobs)[at] == found[i].source);
            } else if sources(before).contains(last.source) {
            } else {
                assert(sources(jobs)[jobs.len() - 1] == last.source);
            }
        }
        assert forall|k: int, l: int| 0 <= k < l < jobs.len() implies sources(jobs)[k] != sources(
            jobs,
        )[l] by {
            if l < before.len() {
                assert(sources(before)[k] != sources(before)[l]);
            } else {
                assert(sources(before)[k] == sources(jobs)[k]);
            }
        }
        if distinct(sources(found)) {
            assert forall|k: int, l: int| 0 <= k < l < front.len() implies sources(front)[k]
                != sources(front)[l] by {
                assert(sources(found)[k] != sources(found)[l]);
            }
            assert(before == front);
            if sources(before).contains(last.source) {
                let at = choose|at: int|
                    0 <= at < sources(before).len() && sources(before)[at] == last.source;
                assert(sources(found)[at] != sources(found)[found.len() - 1]);
            }
            assert(jobs =~= found);
        }
    }
}

} // verus!
