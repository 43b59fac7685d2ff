//! The batch run: check the paths, find the RAW files, have every one of
//! them converted and add up the outcomes.
//!
//! The run is a state machine. Its driver performs each action it is asked
//! for (looking at the file system, creating a directory, searching,
//! converting all files at once) and hands back what came of it.

use crate::discovery::{distinct_jobs, found_views, jobs_of, lemma_distinct_jobs, FoundPath};
use crate::paths::{glob_pattern, glob_pattern_of, match_rules, search_rules, MatchRules};
use crate::strategy::{attemptable, job_views, outcome_of, sources, ConversionJob, JobView};
use crate::summary::{
    distinct, failed_paths, lemma_failures_among_jobs, lemma_failures_and_successes,
    outcome_views, reports_on, successes_in, summary_of, ConversionOutcome, OutcomeView,
    RunSummary, RunSummaryView,
};
use crate::validate::{
    destination_ready, is_directory, source_check, validate_source, FatalError, PathProbe,
};
use vstd::prelude::*;

verus! {

/// What a run is configured with.
#[derive(Clone, Debug, PartialEq, Eq)]
pub struct Converter {
    start_dir: String,
    destination: String,
    recursive: bool,
}

/// A configuration as plain values.
pub struct ConverterView {
    pub start_dir: Seq<char>,
    pub destination: Seq<char>,
    pub recursive: bool,
}

impl View for Converter {
    type V = ConverterView;

    closed spec fn view(&self) -> ConverterView {
        ConverterView {
            start_dir: self.start_dir@,
            destination: self.destination@,
            recursive: self.recursive,
        }
    }
}

/// Where a run stands.
#[derive(Clone, Debug, PartialEq, Eq)]
pub enum RunState {
    /// Nothing was asked for yet.
    Idle,
    /// The source directory is being looked at.
    CheckingSource,
    /// The destination directory is being looked at.
    CheckingDestination,
    /// The destination directory is being created.
    CreatingDestination,
    /// The RAW files are being searched for.
    Discovering,
    /// These jobs are being done.
    Converting(Vec<ConversionJob>),
    /// The run has ended.
    Done,
}

/// What the driver reports.
#[derive(Clone, Debug, PartialEq, Eq)]
pub enum RunEvent {
    /// The run is to start.
    Start,
    /// The path that was to be looked at was found so.
    Probed(PathProbe),
    /// The directory was created, or not.
    Created(bool),
    /// The search found these files.
    Discovered(Vec<FoundPath>),
    /// The jobs ended so, one outcome for each job, in the order of the
    /// jobs.
    Converted(Vec<ConversionOutcome>),
}

/// What the run asks its driver to do.
#[derive(Debug, PartialEq, Eq)]
pub enum RunAction {
    /// Look at this path: is there anything, and is it a directory?
    Probe(String),
    /// Create this directory and every missing parent of it.
    CreateDir(String),
    /// Search the file system for the files that match `pattern` under
    /// `rules`.
    Discover { pattern: String, rules: MatchRules },
    /// Do all these jobs, in any order or at once, and wait for every one
    /// of them to end.
    ConvertAll(Vec<ConversionJob>),
    /// Nothing more: the run ended so.
    Finish(Result<RunSummary, FatalError>),
    /// Nothing: the event did not answer what was asked for.
    Rejected,
}

/// A state as plain values.
pub enum RunStateView {
    Idle,
    CheckingSource,
    CheckingDestination,
    CreatingDestination,
    Discovering,
    Converting(Seq<JobView>),
    Done,
}

/// An event as plain values.
pub enum RunEventView {
    Start,
    Probed(PathProbe),
    Created(bool),
    Discovered(Seq<JobView>),
    Converted(Seq<OutcomeView>),
}

/// An action as plain values.
pub enum RunActionView {
    Probe(Seq<char>),
    CreateDir(Seq<char>),
    Discover { pattern: Seq<char>, rules: MatchRules },
    ConvertAll(Seq<JobView>),
    Finish(Result<RunSummaryView, FatalError>),
    Rejected,
}

impl View for RunState {
    type V = RunStateView;

    open spec fn view(&self) -> RunStateView {
        match self {
            RunState::Idle => RunStateView::Idle,
            RunState::CheckingSource => RunStateView::CheckingSource,
            RunState::CheckingDestination => RunStateView::CheckingDestination,
            RunState::CreatingDestination => RunStateView::CreatingDestination,
            RunState::Discovering => RunStateView::Discovering,
            RunState::Converting(jobs) => RunStateView::Converting(job_views(jobs@)),
            RunState::Done => RunStateView::Done,
        }
    }
}

impl View for RunEvent {
    type V = RunEventView;

    open spec fn view(&self) -> RunEventView {
        match self {
            RunEvent::Start => RunEventView::Start,
            RunEvent::Probed(probe) => RunEventView::Probed(*probe),
            RunEvent::Created(ok) => RunEventView::Created(*ok),
            RunEvent::Discovered(found) => RunEventView::Discovered(found_views(found@)),
            RunEvent::Converted(outcomes) => RunEventView::Converted(outcome_views(outcomes@)),
        }
    }
}

impl View for RunAction {
    type V = RunActionView;

    open spec fn view(&self) -> RunActionView {
        match self {
            RunAction::Probe(path) => RunActionView::Probe(path@),
            RunAction::CreateDir(path) => RunActionView::CreateDir(path@),
            RunAction::Discover { pattern, rules } => RunActionView::Discover {
                pattern: pattern@,
                rules: *rules,
            },
            RunAction::ConvertAll(jobs) => RunActionView::ConvertAll(job_views(jobs@)),
            RunAction::Finish(Ok(summary)) => RunActionView::Finish(Ok(summary@)),
            RunAction::Finish(Err(error)) => RunActionView::Finish(Err(*error)),
            RunAction::Rejected => RunActionView::Rejected,
        }
    }
}

/// The search that a run asks for.
pub open spec fn discovery_of(config: ConverterView) -> RunActionView {
    RunActionView::Discover {
        pattern: glob_pattern_of(config.start_dir, config.recursive),
        rules: search_rules(),
    }
}

/// The run's next state and action.
///
/// The source is looked at first: where it is no directory the run ends
/// with a fatal error. Then the destination is looked at, and created where
/// it is no directory; where that fails the run ends with a fatal error.
/// Only then are the files searched for. Where none is found the run ends
/// with an empty summary; else there is one job for each file that was
/// found, none for a file twice, all of them are done, and the run ends
/// with the summary of their outcomes. An event that does not answer the
/// pending action, or outcomes that do not report on the jobs that were to
/// be done, change nothing.
pub open spec fn run_step(config: ConverterView, state: RunStateView, event: RunEventView) -> (
    RunStateView,
    RunActionView,
) {
    match (state, event) {
        (RunStateView::Idle, RunEventView::Start) => (
            RunStateView::CheckingSource,
            RunActionView::Probe(config.start_dir),
        ),
        (RunStateView::CheckingSource, RunEventView::Probed(probe)) => match source_check(probe) {
            Ok(_) => (RunStateView::CheckingDestination, RunActionView::Probe(config.destination)),
            Err(error) => (RunStateView::Done, RunActionView::Finish(Err(error))),
        },
        (RunStateView::CheckingDestination, RunEventView::Probed(probe)) => if is_directory(probe) {
            (RunStateView::Discovering, discovery_of(config))
        } else {
            (RunStateView::CreatingDestination, RunActionView::CreateDir(config.destination))
        },
        (RunStateView::CreatingDestination, RunEventView::Created(created)) => if created {
            (RunStateView::Discovering, discovery_of(config))
        } else {
            (RunStateView::Done, RunActionView::Finish(Err(FatalError::CannotCreate)))
        },
        (RunStateView::Discovering, RunEventView::Discovered(found)) => if found.len() == 0 {
            (RunStateView::Done, RunActionView::Finish(Ok(summary_of(Seq::empty()))))
        } else {
            (
                RunStateView::Converting(distinct_jobs(found)),
                RunActionView::ConvertAll(distinct_jobs(found)),
            )
        },
        (RunStateView::Converting(jobs), RunEventView::Converted(outcomes)) => if reports_on(
            outcomes,
            sources(jobs),
        ) {
            (RunStateView::Done, RunActionView::Finish(Ok(summary_of(outcomes))))
        } else {
            (state, RunActionView::Rejected)
        },
        _ => (state, RunActionView::Rejected),
    }
}

/// Whether `outcomes` report on `jobs`: one outcome for each job, in the
/// order of the jobs, and each failure names the file of its job.
fn report_fits(outcomes: &Vec<ConversionOutcome>, jobs: &Vec<ConversionJob>) -> (fits: bool)
    ensures
        fits == reports_on(outcome_views(outcomes@), sources(job_views(jobs@))),
{
    if outcomes.len() != jobs.len() {
        return false;
    }
    let mut i: usize = 0;
    while i < outcomes.len()
        invariant
            i <= outcomes.len(),
            outcomes.len() == jobs.len(),
            forall|k: int|
                0 <= k < i ==> (#[trigger] outcome_views(outcomes@)[k] matches Some(failure)
                    ==> failure.source_path == sources(job_views(jobs@))[k]),
        decreases outcomes.len() - i,
    {
        match &outcomes[i] {
            ConversionOutcome::Failure(failure) => {
                if !jobs[i].is_for(&failure.source_path) {
                    assert(outcome_views(outcomes@)[i as int] == Some(failure@));
                    assert(sources(job_views(jobs@))[i as int] == jobs[i as int]@.source);
                    return false;
                }
            },
            ConversionOutcome::Success => {},
        }
        i = i + 1;
    }
    true
}

/// A second list of the same jobs.
fn copy_jobs(jobs: &Vec<ConversionJob>) -> (copy: Vec<ConversionJob>)
    ensures
        job_views(copy@) == job_views(jobs@),
{
    let mut copy: Vec<ConversionJob> = Vec::new();
    let mut i: usize = 0;
    while i < jobs.len()
        invariant
            i <= jobs.len(),
            copy.len() == i,
            forall|k: int| 0 <= k < i ==> (#[trigger] copy[k])@ == jobs[k]@,
        decreases jobs.len() - i,
    {
        copy.push(jobs[i].copy());
        i = i + 1;
    }
    copy
}

impl RunState {
    /// The state of a run that has not begun.
    pub fn new() -> (state: RunState)
        ensures
            state@ == RunStateView::Idle,
    {
        RunState::Idle
    }
}

impl Converter {
    /// A run that converts the RAW files of `start_dir`, and of the
    /// directories below it where `recursive` is set, into `destination`.
    pub fn new(start_dir: &str, destination: &str, recursive: bool) -> (converter: Converter)
        ensures
            converter@ == (ConverterView {
                start_dir: start_dir@,
                destination: destination@,
                recursive,
            }),
    {
        Converter {
            start_dir: String::from_str(start_dir),
            destination: String::from_str(destination),
            recursive,
        }
    }

    /// The directory whose RAW files are converted.
    pub fn start_dir(&self) -> (path: &str)
        ensures
            path@ == self@.start_dir,
    {
        self.start_dir.as_str()
    }

    /// The directory that the JPEG files are written to.
    pub fn destination(&self) -> (path: &str)
        ensures
            path@ == self@.destination,
    {
        self.destination.as_str()
    }

    /// Whether the directories below the source are searched too.
    pub fn recursive(&self) -> (recursive: bool)
        ensures
            recursive == self@.recursive,
    {
        self.recursive
    }

    /// The search for the RAW files of this run.
    fn discovery(&self) -> (action: RunAction)
        ensures
            action@ == discovery_of(self@),
    {
        RunAction::Discover {
            pattern: glob_pattern(self.start_dir.as_str(), self.recursive),
            rules: match_rules(),
        }
    }

    /// Moves the run one step: takes what the driver reports and says what
    /// to do next.
    pub fn run(&self, state: RunState, event: RunEvent) -> (next: (RunState, RunAction))
        ensures
            (next.0@, next.1@) == run_step(self@, state@, event@),
    {
        match (state, event) {
            (RunState::Idle, RunEvent::Start) => (
                RunState::CheckingSource,
                RunAction::Probe(self.start_dir.clone()),
            ),
            (RunState::CheckingSource, RunEvent::Probed(probe)) => match validate_source(probe) {
                Ok(_) => (
                    RunState::CheckingDestination,
                    RunAction::Probe(self.destination.clone()),
                ),
                Err(error) => (RunState::Done, RunAction::Finish(Err(error))),
            },
            (RunState::CheckingDestination, RunEvent::Probed(probe)) => if destination_ready(
                probe,
            ) {
                (RunState::Discovering, self.discovery())
            } else {
                (RunState::CreatingDestination, RunAction::CreateDir(self.destination.clone()))
            },
            (RunState::CreatingDestination, RunEvent::Created(created)) => if created {
                (RunState::Discovering, self.discovery())
            } else {
                (RunState::Done, RunAction::Finish(Err(FatalError::CannotCreate)))
            },
            (RunState::Discovering, RunEvent::Discovered(found)) => if found.len() == 0 {
                let summary = RunSummary::collect(Vec::new());
                assert(outcome_views(Seq::<ConversionOutcome>::empty()) == Seq::<
                    OutcomeView,
                >::empty());
                (RunState::Done, RunAction::Finish(Ok(summary)))
            } else {
                let jobs = jobs_of(&found);
                let asked = copy_jobs(&jobs);
                (RunState::Converting(jobs), RunAction::ConvertAll(asked))
            },
            (RunState::Converting(jobs), RunEvent::Converted(outcomes)) => if report_fits(
                &outcomes,
                &jobs,
            ) {
                (RunState::Done, RunAction::Finish(Ok(RunSummary::collect(outcomes))))
            } else {
                (RunState::Converting(jobs), RunAction::Rejected)
            },
            (state, _) => (state, RunAction::Rejected),
        }
    }
}

/// What the file system and the backends answer in the course of one run.
pub struct Answers {
    /// How the source directory was found.
    pub source: PathProbe,
    /// How the destination directory was found.
    pub destination: PathProbe,
    /// Whether the destination directory could be created, where it had to
    /// be.
    pub created: bool,
    /// The files that the search found.
    pub found: Seq<JobView>,
    /// How the jobs for these files ended.
    pub outcomes: Seq<OutcomeView>,
}

/// How a run ends that gets these answers.
pub open spec fn run_result(answers: Answers) -> Result<RunSummaryView, FatalError> {
    if source_check(answers.source) is Err {
        Err(source_check(answers.source)->Err_0)
    } else if !is_directory(answers.destination) && !answers.created {
        Err(FatalError::CannotCreate)
    } else if answers.found.len() == 0 {
        Ok(RunSummaryView { attempted: 0, failures: Seq::empty() })
    } else {
        Ok(summary_of(answers.outcomes))
    }
}

/// A run from its start to its end. The driver that hands back the answers
/// to what it is asked is led through the checks, the search and the
/// conversions in this order, each only where the one before went well, and
/// is told at the end what `run_result` says. Two runs that are configured
/// alike and get the same answers therefore ask for the same and end alike.
pub proof fn lemma_run_to_end(config: ConverterView, answers: Answers)
    requires
        reports_on(answers.outcomes, sources(distinct_jobs(answers.found))),
    ensures
        ({
            let end = RunActionView::Finish(run_result(answers));
            let begun = run_step(config, RunStateView::Idle, RunEventView::Start);
            let checked = run_step(config, begun.0, RunEventView::Probed(answers.source));
            let looked = run_step(config, checked.0, RunEventView::Probed(answers.destination));
            let made = run_step(config, looked.0, RunEventView::Created(answers.created));
            let ready = if is_directory(answers.destination) {
                looked
            } else {
                made
            };
            let found = run_step(config, ready.0, RunEventView::Discovered(answers.found));
            let converted = run_step(config, found.0, RunEventView::Converted(answers.outcomes));
            &&& begun.1 == RunActionView::Probe(config.start_dir)
            &&& if source_check(answers.source) is Err {
                checked == (RunStateView::Done, end)
            } else {
                &&& checked.1 == RunActionView::Probe(config.destination)
                &&& !is_directory(answers.destination) ==> looked.1 == RunActionView::CreateDir(
                    config.destination,
                )
                &&& if !is_directory(answers.destination) && !answers.created {
                    made == (RunStateView::Done, end)
                } else {
                    &&& ready.1 == discovery_of(config)
                    &&& if answers.found.len() == 0 {
                        found == (RunStateView::Done, end)
                    } else {
                        &&& found.1 == RunActionView::ConvertAll(distinct_jobs(answers.found))
                        &&& converted == (RunStateView::Done, end)
                    }
                }
            }
        }),
{
    assert(summary_of(Seq::<OutcomeView>::empty()) == RunSummaryView {
        attempted: 0,
        failures: Seq::empty(),
    });
}

/// A run that converts reports every job it was given as attempted, and as
/// failed every one that did not end in success.
pub proof fn lemma_run_counts(config: ConverterView, jobs: Seq<JobView>, outcomes: Seq<OutcomeView>)
    requires
        reports_on(outcomes, sources(jobs)),
    ensures
        run_step(config, RunStateView::Converting(jobs), RunEventView::Converted(outcomes)).1
            matches RunActionView::Finish(Ok(summary)) && summary.attempted == jobs.len()
            && summary.failures.len() == jobs.len() - successes_in(outcomes),
{
    lemma_failures_and_successes(outcomes);
}

/// How each of `jobs` ends where the primary backend ends on it as
/// `primary` says and the fallback backend as `fallback` says.
pub open spec fn outcomes_of(jobs: Seq<JobView>, primary: Seq<bool>, fallback: Seq<bool>) -> Seq<
    OutcomeView,
> {
    Seq::new(jobs.len(), |i: int| outcome_of(jobs[i], primary[i], fallback[i]))
}

/// How many of `jobs` at least one backend converts.
pub open spec fn convertible_in(jobs: Seq<JobView>, primary: Seq<bool>, fallback: Seq<bool>) -> nat
    decreases jobs.len(),
{
    if jobs.len() == 0 {
        0
    } else {
        convertible_in(jobs.drop_last(), primary.drop_last(), fallback.drop_last()) + if attemptable(
            jobs.last(),
        ) && (primary.last() || fallback.last()) {
            1nat
        } else {
            0nat
        }
    }
}

/// The successes of a batch are the files that a backend converts.
proof fn lemma_successes_are_convertible(
    jobs: Seq<JobView>,
    primary: Seq<bool>,
    fallback: Seq<bool>,
)
    requires
        primary.len() == jobs.len(),
        fallback.len() == jobs.len(),
    ensures
        successes_in(outcomes_of(jobs, primary, fallback)) == convertible_in(
            jobs,
            primary,
            fallback,
        ),
    decreases jobs.len(),
{
    if jobs.len() > 0 {
        lemma_successes_are_convertible(
            jobs.drop_last(),
            primary.drop_last(),
            fallback.drop_last(),
        );
        assert(outcomes_of(jobs, primary, fallback).drop_last() == outcomes_of(
            jobs.drop_last(),
            primary.drop_last(),
            fallback.drop_last(),
        ));
    }
}

/// A run over N files of which at least one backend converts M reports N
/// files attempted and N - M failures.
pub proof fn lemma_batch_counts(
    config: ConverterView,
    jobs: Seq<JobView>,
    primary: Seq<bool>,
    fallback: Seq<bool>,
)
    requires
        primary.len() == jobs.len(),
        fallback.len() == jobs.len(),
    ensures
        run_step(
            config,
            RunStateView::Converting(jobs),
            RunEventView::Converted(outcomes_of(jobs, primary, fallback)),
        ).1 matches RunActionView::Finish(Ok(summary)) && summary.attempted == jobs.len()
            && summary.failures.len() == jobs.len() - convertible_in(jobs, primary, fallback),
{
    let outcomes = outcomes_of(jobs, primary, fallback);
    assert(reports_on(outcomes, sources(jobs)));
    lemma_successes_are_convertible(jobs, primary, fallback);
    lemma_failures_and_successes(outcomes);
}

/// No file appears twice in the summary of a run, whatever the search
/// handed over: the jobs that are asked for name no file twice, and each
/// failure of the summary names the file of one of them.
pub proof fn lemma_no_file_twice(
    config: ConverterView,
    found: Seq<JobView>,
    outcomes: Seq<OutcomeView>,
)
    requires
        found.len() > 0,
        reports_on(outcomes, sources(distinct_jobs(found))),
    ensures
        ({
            let asked = run_step(config, RunStateView::Discovering, RunEventView::Discovered(found));
            let ended = run_step(config, asked.0, RunEventView::Converted(outcomes));
            &&& asked.1 matches RunActionView::ConvertAll(jobs) && distinct(sources(jobs))
            &&& ended.1 matches RunActionView::Finish(Ok(summary)) && distinct(
                failed_paths(summary.failures),
            ) && (forall|k: int|
                0 <= k < summary.failures.len() ==> sources(distinct_jobs(found)).contains(
                    #[trigger] failed_paths(summary.failures)[k],
                ))
        }),
{
    lemma_distinct_jobs(found);
    lemma_failures_among_jobs(outcomes, sources(distinct_jobs(found)));
}

/// Nothing is searched for before the destination is known to be a
/// directory: the search is asked for only when the destination was found
/// to be one, or was created.
pub proof fn lemma_search_needs_destination(
    config: ConverterView,
    state: RunStateView,
    event: RunEventView,
)
    requires
        run_step(config, state, event).1 is Discover,
    ensures
        ({
            ||| state == RunStateView::CheckingDestination && (event matches RunEventView::Probed(
                probe,
            ) && is_directory(probe))
            ||| state == RunStateView::CreatingDestination && event == RunEventView::Created(true)
        }),
{
}

/// Nothing is converted but what the search found.
pub proof fn lemma_conversion_needs_search(
    config: ConverterView,
    state: RunStateView,
    event: RunEventView,
)
    requires
        run_step(config, state, event).1 is ConvertAll,
    ensures
        state == RunStateView::Discovering,
        event matches RunEventView::Discovered(found) && run_step(config, state, event).1
            == RunActionView::ConvertAll(distinct_jobs(found)),
{
}

/// A run that has ended asks for nothing more.
pub proof fn lemma_done_stays(config: ConverterView, event: RunEventView)
    ensures
        run_step(config, RunStateView::Done, event) == (
            RunStateView::Done,
            RunActionView::Rejected,
        ),
{
}

} // verus!
