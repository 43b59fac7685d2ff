//! How one file is converted: by the primary backend, and by the fallback
//! backend where the primary one fails.
//!
//! The strategy is a state machine. Its driver runs the backend it is asked
//! for and hands back whether the backend succeeded.

use crate::paths::{names_file, output_path, output_path_of};
use crate::summary::{ConversionOutcome, Failure, FailureView, OutcomeView};
use vstd::prelude::*;

verus! {

/// One unit of work: a RAW file to convert.
///
/// A file whose path is not valid text cannot be handed to a backend. The
/// job of such a file holds a rendering of the path, and fails without any
/// backend being tried.
#[derive(Clone, Debug, PartialEq, Eq)]
pub struct ConversionJob {
    source: String,
    readable: bool,
}

/// A job as plain values.
pub struct JobView {
    /// The path of the file, or its rendering.
    pub source: Seq<char>,
    /// Whether `source` is the path itself.
    pub readable: bool,
}

impl View for ConversionJob {
    type V = JobView;

    closed spec fn view(&self) -> JobView {
        JobView { source: self.source@, readable: self.readable }
    }
}

/// The plain values of a list of jobs, one by one.
pub open spec fn job_views(jobs: Seq<ConversionJob>) -> Seq<JobView> {
    Seq::new(jobs.len(), |i: int| jobs[i]@)
}

/// The files of a list of jobs, one by one.
pub open spec fn sources(jobs: Seq<JobView>) -> Seq<Seq<char>> {
    Seq::new(jobs.len(), |i: int| jobs[i].source)
}

/// Whether a backend can be tried on a job: its path is valid text and ends
/// in a file name.
pub open spec fn attemptable(job: JobView) -> bool {
    job.readable && names_file(job.source)
}

impl ConversionJob {
    /// The job of converting the file at `source`.
    pub fn new(source: &str) -> (job: ConversionJob)
        ensures
            job@ == (JobView { source: source@, readable: true }),
    {
        ConversionJob { source: String::from_str(source), readable: true }
    }

    /// The job of a file whose path is not valid text and is rendered as
    /// `rendering`.
    pub fn unreadable(rendering: &str) -> (job: ConversionJob)
        ensures
            job@ == (JobView { source: rendering@, readable: false }),
    {
        ConversionJob { source: String::from_str(rendering), readable: false }
    }

    /// The file to convert.
    pub fn source(&self) -> (source: &str)
        ensures
            source@ == self@.source,
    {
        self.source.as_str()
    }

    /// Whether the path of the file is valid text.
    pub fn readable(&self) -> (readable: bool)
        ensures
            readable == self@.readable,
    {
        self.readable
    }

    /// Whether the job is for the file called `source`.
    pub fn is_for(&self, source: &String) -> (same: bool)
        ensures
            same == (self@.source == source@),
    {
        self.source == *source
    }

    /// Whether two jobs are for the same file.
    pub fn same_file(&self, other: &ConversionJob) -> (same: bool)
        ensures
            same == (self@.source == other@.source),
    {
        self.source == other.source
    }

    /// A second job for the same file.
    pub fn copy(&self) -> (job: ConversionJob)
        ensures
            job@ == self@,
    {
        ConversionJob { source: self.source.clone(), readable: self.readable }
    }
}

/// The two ways to convert a file.
#[derive(Clone, Copy, Debug, PartialEq, Eq, Structural)]
pub enum Backend {
    /// The general image library, which is tried first.
    Primary,
    /// The RAW pipeline, which is tried where the primary backend failed.
    Fallback,
}

/// Where the conversion of a file stands.
#[derive(Clone, Copy, Debug, PartialEq, Eq, Structural)]
pub enum StrategyState {
    /// No backend was tried yet.
    Fresh,
    /// This backend is at work.
    Trying(Backend),
    /// The conversion has ended.
    Finished,
}

/// What the driver reports.
#[derive(Clone, Copy, Debug, PartialEq, Eq, Structural)]
pub enum StrategyEvent {
    /// The conversion is to start.
    Start,
    /// The backend that was asked for succeeded, or failed.
    Attempted(bool),
}

/// What the strategy asks its driver to do.
#[derive(Clone, Debug, PartialEq, Eq)]
pub enum StrategyAction {
    /// Run `backend` on the file at `source` and have it write `output`.
    Attempt { backend: Backend, source: String, output: String },
    /// Nothing more: the conversion ended so.
    Finish(ConversionOutcome),
    /// Nothing: the event did not answer what was asked for.
    Rejected,
}

/// An action as plain values.
pub enum StrategyActionView {
    Attempt { backend: Backend, source: Seq<char>, output: Seq<char> },
    Finish(OutcomeView),
    Rejected,
}

impl View for StrategyAction {
    type V = StrategyActionView;

    open spec fn view(&self) -> StrategyActionView {
        match self {
            StrategyAction::Attempt { backend, source, output } => StrategyActionView::Attempt {
                backend: *backend,
                source: source@,
                output: output@,
            },
            StrategyAction::Finish(outcome) => StrategyActionView::Finish(outcome@),
            StrategyAction::Rejected => StrategyActionView::Rejected,
        }
    }
}

/// What is said of a file that no backend could convert.
pub open spec fn failure_text() -> Seq<char> {
    "Could not convert image"@
}

/// The message of a failure: the file, a colon and the error.
pub open spec fn error_message_of(path: Seq<char>, error: Seq<char>) -> Seq<char> {
    path + ": "@ + error
}

/// The failure of the conversion of `source`.
pub open spec fn failure_of(source: Seq<char>) -> FailureView {
    FailureView { source_path: source, message: error_message_of(source, failure_text()) }
}

/// The strategy's next state and action, for the file of `job` and the
/// directory `destination`.
///
/// The primary backend is tried first. Where it succeeds the conversion
/// ends; where it fails the fallback backend is tried on the same file, and
/// its result is the result of the conversion. A job whose path is not
/// valid text, or names no file, fails without any backend being tried. An
/// event that does not answer the pending action changes nothing.
pub open spec fn strategy_step(
    destination: Seq<char>,
    job: JobView,
    state: StrategyState,
    event: StrategyEvent,
) -> (StrategyState, StrategyActionView) {
    let source = job.source;
    let output = output_path_of(destination, source);
    match (state, event) {
        (StrategyState::Fresh, StrategyEvent::Start) => if attemptable(job) {
            (
                StrategyState::Trying(Backend::Primary),
                StrategyActionView::Attempt { backend: Backend::Primary, source, output },
            )
        } else {
            (StrategyState::Finished, StrategyActionView::Finish(Some(failure_of(source))))
        },
        (StrategyState::Trying(_), StrategyEvent::Attempted(true)) => (
            StrategyState::Finished,
            StrategyActionView::Finish(None),
        ),
        (StrategyState::Trying(Backend::Primary), StrategyEvent::Attempted(false)) => if attemptable(
            job,
        ) {
            (
                StrategyState::Trying(Backend::Fallback),
                StrategyActionView::Attempt { backend: Backend::Fallback, source, output },
            )
        } else {
            (StrategyState::Finished, StrategyActionView::Finish(Some(failure_of(source))))
        },
        (StrategyState::Trying(Backend::Fallback), StrategyEvent::Attempted(false)) => (
            StrategyState::Finished,
            StrategyActionView::Finish(Some(failure_of(source))),
        ),
        _ => (state, StrategyActionView::Rejected),
    }
}

/// How the conversion of a job ends where the primary backend ends as
/// `primary` says and the fallback backend, if it is tried, as `fallback`
/// says: in success if a backend can be tried and either succeeds.
pub open spec fn outcome_of(job: JobView, primary: bool, fallback: bool) -> OutcomeView {
    if attemptable(job) && (primary || fallback) {
        None
    } else {
        Some(failure_of(job.source))
    }
}

/// The message of a failure: the file, a colon and the error.
pub fn generate_error_message(path: &str, error: &str) -> (message: String)
    ensures
        message@ == error_message_of(path@, error@),
{
    let mut message = String::from_str(path);
    message.append(": ");
    message.append(error);
    message
}

/// The failure of the conversion of `source`.
fn fail(source: &str) -> (outcome: ConversionOutcome)
    ensures
        outcome@ == Some(failure_of(source@)),
{
    ConversionOutcome::Failure(
        Failure {
            source_path: String::from_str(source),
            message: generate_error_message(source, "Could not convert image"),
        },
    )
}

/// The request to try `backend` on the file of `job`, or the failure of the
/// job where no backend can be tried on it.
fn attempt(destination: &str, job: &ConversionJob, backend: Backend) -> (next: (
    StrategyState,
    StrategyAction,
))
    ensures
        (next.0, next.1@) == if attemptable(job@) {
            (
                StrategyState::Trying(backend),
                StrategyActionView::Attempt {
                    backend,
                    source: job@.source,
                    output: output_path_of(destination@, job@.source),
                },
            )
        } else {
            (StrategyState::Finished, StrategyActionView::Finish(Some(failure_of(job@.source))))
        },
{
    let source = job.source();
    if !job.readable() {
        return (StrategyState::Finished, StrategyAction::Finish(fail(source)));
    }
    match output_path(destination, source) {
        Some(output) => (
            StrategyState::Trying(backend),
            StrategyAction::Attempt { backend, source: String::from_str(source), output },
        ),
        None => (StrategyState::Finished, StrategyAction::Finish(fail(source))),
    }
}

/// Moves the conversion of `job` one step: takes what the driver reports
/// and says what to do next.
pub fn convert(
    destination: &str,
    job: &ConversionJob,
    state: StrategyState,
    event: StrategyEvent,
) -> (next: (StrategyState, StrategyAction))
    ensures
        (next.0, next.1@) == strategy_step(destination@, job@, state, event),
{
    match (state, event) {
        (StrategyState::Fresh, StrategyEvent::Start) => attempt(
            destination,
            job,
            Backend::Primary,
        ),
        (StrategyState::Trying(_), StrategyEvent::Attempted(true)) => (
            StrategyState::Finished,
            StrategyAction::Finish(ConversionOutcome::Success),
        ),
        (StrategyState::Trying(Backend::Primary), StrategyEvent::Attempted(false)) => attempt(
            destination,
            job,
            Backend::Fallback,
        ),
        (StrategyState::Trying(Backend::Fallback), StrategyEvent::Attempted(false)) => (
            StrategyState::Finished,
            StrategyAction::Finish(fail(job.source())),
        ),
        (state, _) => (state, StrategyAction::Rejected),
    }
}

/// The primary backend is tried first, on the file itself, and is to write
/// where the file's name says.
pub proof fn lemma_primary_first(destination: Seq<char>, job: JobView)
    requires
        attemptable(job),
    ensures
        strategy_step(destination, job, StrategyState::Fresh, StrategyEvent::Start) == (
            StrategyState::Trying(Backend::Primary),
            StrategyActionView::Attempt {
                backend: Backend::Primary,
                source: job.source,
                output: output_path_of(destination, job.source),
            },
        ),
{
}

/// A conversion run to its end: the primary backend is tried, the fallback
/// backend only where the primary one failed, and the conversion ends as
/// `outcome_of` says. In particular a file that only the fallback backend
/// can convert ends in success, and a file whose path is not valid text
/// ends in failure before any backend is tried.
pub proof fn lemma_conversion_ends(
    destination: Seq<char>,
    job: JobView,
    primary: bool,
    fallback: bool,
)
    ensures
        ({
            let first = strategy_step(destination, job, StrategyState::Fresh, StrategyEvent::Start);
            let second = strategy_step(
                destination,
                job,
                first.0,
                StrategyEvent::Attempted(primary),
            );
            let third = strategy_step(
                destination,
                job,
                second.0,
                StrategyEvent::Attempted(fallback),
            );
            let end = StrategyActionView::Finish(outcome_of(job, primary, fallback));
            if !attemptable(job) {
                first == (StrategyState::Finished, end)
            } else if primary {
                &&& first.1 matches StrategyActionView::Attempt { backend: Backend::Primary, .. }
                &&& second == (StrategyState::Finished, end)
            } else {
                &&& first.1 matches StrategyActionView::Attempt { backend: Backend::Primary, .. }
                &&& second.1 matches StrategyActionView::Attempt {
                    backend: Backend::Fallback,
                    source: again,
                    ..
                }
                &&& again == job.source
                &&& third == (StrategyState::Finished, end)
            }
        }),
{
}

/// A conversion succeeds exactly where a backend can be tried on the file
/// and at least one backend converts it. A failure names the file.
pub proof fn lemma_success_needs_backend(job: JobView, primary: bool, fallback: bool)
    ensures
        outcome_of(job, primary, fallback) is None <==> attemptable(job) && (primary || fallback),
        outcome_of(job, primary, fallback) matches Some(failure) ==> failure.source_path
            == job.source,
{
}

/// Once a conversion has ended, no backend is ever asked for again.
pub proof fn lemma_finished_stays(destination: Seq<char>, job: JobView, event: StrategyEvent)
    ensures
        strategy_step(destination, job, StrategyState::Finished, event) == (
            StrategyState::Finished,
            StrategyActionView::Rejected,
        ),
{
}

} // verus!
