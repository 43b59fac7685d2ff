//! Outcomes of single conversions and the summary of a whole run.

use vstd::prelude::*;

verus! {

/// A conversion that failed: the file it was asked for and why.
#[derive(Clone, Debug, PartialEq, Eq)]
pub struct Failure {
    pub source_path: String,
    pub message: String,
}

/// What a failure says, as plain text.
pub struct FailureView {
    pub source_path: Seq<char>,
    pub message: Seq<char>,
}

impl View for Failure {
    type V = FailureView;

    open spec fn view(&self) -> FailureView {
        FailureView { source_path: self.source_path@, message: self.message@ }
    }
}

/// How the conversion of one file ended.
#[derive(Clone, Debug, PartialEq, Eq)]
pub enum ConversionOutcome {
    Success,
    Failure(Failure),
}

/// An outcome as plain text: the failure, if it is one.
pub type OutcomeView = Option<FailureView>;

impl View for ConversionOutcome {
    type V = OutcomeView;

    open spec fn view(&self) -> OutcomeView {
        match self {
            ConversionOutcome::Success => None,
            ConversionOutcome::Failure(failure) => Some(failure@),
        }
    }
}

/// The views of a list of outcomes, one by one.
pub open spec fn outcome_views(outcomes: Seq<ConversionOutcome>) -> Seq<OutcomeView> {
    Seq::new(outcomes.len(), |i: int| outcomes[i]@)
}

/// The views of a list of failures, one by one.
pub open spec fn failure_views(failures: Seq<Failure>) -> Seq<FailureView> {
    Seq::new(failures.len(), |i: int| failures[i]@)
}

/// The failures among `outcomes`, in the order of the outcomes.
pub open spec fn failures_of(outcomes: Seq<OutcomeView>) -> Seq<FailureView>
    decreases outcomes.len(),
{
    if outcomes.len() == 0 {
        Seq::empty()
    } else {
        match outcomes.last() {
            Some(failure) => failures_of(outcomes.drop_last()).push(failure),
            None => failures_of(outcomes.drop_last()),
        }
    }
}

/// How many of `outcomes` are successes.
pub open spec fn successes_in(outcomes: Seq<OutcomeView>) -> nat
    decreases outcomes.len(),
{
    if outcomes.len() == 0 {
        0
    } else {
        successes_in(outcomes.drop_last()) + if outcomes.last() is None {
            1nat
        } else {
            0nat
        }
    }
}

/// Whether `outcomes` report on `jobs`: one outcome for each job, in the
/// order of the jobs, and each failure names the file of its job.
pub open spec fn reports_on(outcomes: Seq<OutcomeView>, jobs: Seq<Seq<char>>) -> bool {
    &&& outcomes.len() == jobs.len()
    &&& forall|i: int|
        0 <= i < outcomes.len() ==> (#[trigger] outcomes[i] matches Some(failure)
            ==> failure.source_path == jobs[i])
}

/// Whether no path occurs twice in `paths`.
pub open spec fn distinct(paths: Seq<Seq<char>>) -> bool {
    forall|i: int, j: int| 0 <= i < j < paths.len() ==> paths[i] != paths[j]
}

/// The files that a list of failures names, one by one.
pub open spec fn failed_paths(failures: Seq<FailureView>) -> Seq<Seq<char>> {
    Seq::new(failures.len(), |i: int| failures[i].source_path)
}

/// What one run did: how many files it attempted and which of them failed.
#[derive(Clone, Debug, PartialEq, Eq)]
pub struct RunSummary {
    attempted: usize,
    failures: Vec<Failure>,
}

/// A summary as plain values.
pub struct RunSummaryView {
    pub attempted: nat,
    pub failures: Seq<FailureView>,
}

impl View for RunSummary {
    type V = RunSummaryView;

    closed spec fn view(&self) -> RunSummaryView {
        RunSummaryView {
            attempted: self.attempted as nat,
            failures: failure_views(self.failures@),
        }
    }
}

/// The summary of a run whose jobs ended in `outcomes`.
pub open spec fn summary_of(outcomes: Seq<OutcomeView>) -> RunSummaryView {
    RunSummaryView { attempted: outcomes.len(), failures: failures_of(outcomes) }
}

impl RunSummary {
    /// Adds up the outcomes of a run, one for each file attempted.
    pub fn collect(outcomes: Vec<ConversionOutcome>) -> (summary: RunSummary)
        ensures
            summary@ == summary_of(outcome_views(outcomes@)),
    {
        let attempted = outcomes.len();
        let ghost all = outcome_views(outcomes@);
        let mut failures: Vec<Failure> = Vec::new();
        let mut i: usize = 0;
        for outcome in it: outcomes
            invariant
                i == it.index(),
                it.seq() == outcomes@,
                attempted == outcomes@.len(),
                all == outcome_views(outcomes@),
                failure_views(failures@) == failures_of(all.take(i as int)),
        {
            assert(all.take(i + 1).drop_last() == all.take(i as int));
            assert(all.take(i + 1).last() == outcome@);
            let ghost before = failure_views(failures@);
            match outcome {
                ConversionOutcome::Failure(failure) => {
                    failures.push(failure);
                    assert(failure_views(failures@) == before.push(failure@));
                },
                ConversionOutcome::Success => {},
            }
            i = i + 1;
        }
        assert(all.take(i as int) == all);
        RunSummary { attempted, failures }
    }

    /// How many files the run attempted.
    pub fn attempted(&self) -> (n: usize)
        ensures
            n == self@.attempted,
    {
        self.attempted
    }

    /// The conversions that failed.
    pub fn failures(&self) -> (failures: &Vec<Failure>)
        ensures
            failure_views(failures@) == self@.failures,
    {
        &self.failures
    }

    /// How many conversions failed.
    pub fn failed(&self) -> (n: usize)
        ensures
            n == self@.failures.len(),
    {
        self.failures.len()
    }

    /// Whether the run found no file to convert.
    pub fn found_nothing(&self) -> (b: bool)
        ensures
            b == (self@.attempted == 0),
    {
        self.attempted == 0
    }
}

/// Every outcome is a success or a failure: the failures of a run and its
/// successes add up to the files it attempted.
pub proof fn lemma_failures_and_successes(outcomes: Seq<OutcomeView>)
    ensures
        failures_of(outcomes).len() + successes_in(outcomes) == outcomes.len(),
    decreases outcomes.len(),
{
    if outcomes.len() > 0 {
        lemma_failures_and_successes(outcomes.drop_last());
    }
}

/// Each failure of a run belongs to one of its outcomes, and the failures
/// keep the order of the outcomes: there is a strictly rising choice of
/// positions that picks them out.
pub proof fn lemma_failures_positions(outcomes: Seq<OutcomeView>) -> (at: Seq<int>)
    ensures
        at.len() == failures_of(outcomes).len(),
        forall|k: int|
            0 <= k < at.len() ==> 0 <= #[trigger] at[k] < outcomes.len() && outcomes[at[k]]
                == Some(failures_of(outcomes)[k]),
        forall|k: int, l: int| 0 <= k < l < at.len() ==> at[k] < at[l],
    decreases outcomes.len(),
{
    if outcomes.len() == 0 {
        Seq::empty()
    } else {
        let front = outcomes.drop_last();
        let at = lemma_failures_positions(front);
        assert forall|k: int| 0 <= k < at.len() implies outcomes[#[trigger] at[k]] == front[at[k]] by {}
        match outcomes.last() {
            Some(failure) => at.push(outcomes.len() - 1),
            None => at,
        }
    }
}

/// The failures of a run are among the files it was given, and where no file
/// was given twice, no file fails twice.
pub proof fn lemma_failures_among_jobs(outcomes: Seq<OutcomeView>, jobs: Seq<Seq<char>>)
    requires
        reports_on(outcomes, jobs),
    ensures
        forall|k: int|
            0 <= k < failures_of(outcomes).len() ==> jobs.contains(
                #[trigger] failed_paths(failures_of(outcomes))[k],
            ),
        distinct(jobs) ==> distinct(failed_paths(failures_of(outcomes))),
{
    let at = lemma_failures_positions(outcomes);
    let failed = failed_paths(failures_of(outcomes));
    assert forall|k: int| 0 <= k < failed.len() implies jobs.contains(#[trigger] failed[k]) by {
        assert(outcomes[at[k]] == Some(failures_of(outcomes)[k]));
        assert(jobs[at[k]] == failed[k]);
    }
    if distinct(jobs) {
        assert forall|k: int, l: int| 0 <= k < l < failed.len() implies failed[k] != failed[l] by {
            assert(outcomes[at[k]] == Some(failures_of(outcomes)[k]));
            assert(outcomes[at[l]] == Some(failures_of(outcomes)[l]));
            assert(jobs[at[k]] == failed[k]);
            assert(jobs[at[l]] == failed[l]);
            assert(at[k] < at[l]);
        }
    }
}

} // verus!
