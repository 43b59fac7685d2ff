use cr2_to_jpg::strategy::{
    convert, generate_error_message, Backend, ConversionJob, StrategyAction, StrategyEvent,
    StrategyState,
};
use cr2_to_jpg::summary::{ConversionOutcome, Failure};

/// Converts one file with backends that end as told, and returns the
/// backends in the order in which they were asked for, and the outcome.
fn convert_with(source: &str, primary: bool, fallback: bool) -> (Vec<Backend>, ConversionOutcome) {
    let job = ConversionJob::new(source);
    let mut asked = Vec::new();
    let (mut state, mut action) = convert("out", &job, StrategyState::Fresh, StrategyEvent::Start);
    loop {
        match action {
            StrategyAction::Attempt { backend, source: asked_for, output } => {
                assert_eq!(asked_for, source);
                assert_eq!(output, "out/sample1.jpg");
                asked.push(backend);
                let ok = match backend {
                    Backend::Primary => primary,
                    Backend::Fallback => fallback,
                };
                let next = convert("out", &job, state, StrategyEvent::Attempted(ok));
                state = next.0;
                action = next.1;
            }
            StrategyAction::Finish(outcome) => {
                assert_eq!(state, StrategyState::Finished);
                return (asked, outcome);
            }
            StrategyAction::Rejected => panic!("an answer was rejected"),
        }
    }
}

fn failed(source: &str) -> ConversionOutcome {
    ConversionOutcome::Failure(Failure {
        source_path: source.to_string(),
        message: format!("{}: Could not convert image", source),
    })
}

#[test]
fn primary_success_ends_the_conversion() {
    let (asked, outcome) = convert_with("shots/sample1.cr2", true, false);
    assert_eq!(asked, vec![Backend::Primary]);
    assert_eq!(outcome, ConversionOutcome::Success);
    let (asked, outcome) = convert_with("shots/sample1.cr2", true, true);
    assert_eq!(asked, vec![Backend::Primary]);
    assert_eq!(outcome, ConversionOutcome::Success);
}

#[test]
fn fallback_rescues_a_primary_failure() {
    let (asked, outcome) = convert_with("shots/sample1.cr2", false, true);
    assert_eq!(asked, vec![Backend::Primary, Backend::Fallback]);
    assert_eq!(outcome, ConversionOutcome::Success);
}

#[test]
fn both_failing_is_a_failure() {
    let (asked, outcome) = convert_with("shots/sample1.cr2", false, false);
    assert_eq!(asked, vec![Backend::Primary, Backend::Fallback]);
    assert_eq!(outcome, failed("shots/sample1.cr2"));
}

#[test]
fn a_source_without_a_name_fails_at_once() {
    let job = ConversionJob::new("shots/");
    let (state, action) = convert("out", &job, StrategyState::Fresh, StrategyEvent::Start);
    assert_eq!(state, StrategyState::Finished);
    assert_eq!(action, StrategyAction::Finish(failed("shots/")));
}

#[test]
fn a_path_that_is_not_text_fails_at_once() {
    let job = ConversionJob::unreadable("shots/\u{fffd}.cr2");
    assert!(!job.readable());
    assert_eq!(job.source(), "shots/\u{fffd}.cr2");
    let (state, action) = convert("out", &job, StrategyState::Fresh, StrategyEvent::Start);
    assert_eq!(state, StrategyState::Finished);
    assert_eq!(action, StrategyAction::Finish(failed("shots/\u{fffd}.cr2")));
}

#[test]
fn jobs_know_their_file() {
    let job = ConversionJob::new("a/b.cr2");
    assert!(job.readable());
    assert!(job.is_for(&"a/b.cr2".to_string()));
    assert!(!job.is_for(&"a/c.cr2".to_string()));
    assert!(job.same_file(&ConversionJob::unreadable("a/b.cr2")));
    assert!(!job.same_file(&ConversionJob::new("a/B.cr2")));
    assert_eq!(job.copy(), job);
}

#[test]
fn nothing_follows_the_end() {
    let job = ConversionJob::new("shots/sample1.cr2");
    for event in [StrategyEvent::Start, StrategyEvent::Attempted(true), StrategyEvent::Attempted(false)] {
        let (state, action) = convert("out", &job, StrategyState::Finished, event);
        assert_eq!(state, StrategyState::Finished);
        assert_eq!(action, StrategyAction::Rejected);
    }
}

#[test]
fn answers_out_of_turn_are_rejected() {
    let job = ConversionJob::new("shots/sample1.cr2");
    let (state, action) = convert("out", &job, StrategyState::Fresh, StrategyEvent::Attempted(true));
    assert_eq!(state, StrategyState::Fresh);
    assert_eq!(action, StrategyAction::Rejected);
    let (state, action) =
        convert("out", &job, StrategyState::Trying(Backend::Primary), StrategyEvent::Start);
    assert_eq!(state, StrategyState::Trying(Backend::Primary));
    assert_eq!(action, StrategyAction::Rejected);
}

#[test]
fn job_keeps_its_source() {
    assert_eq!(ConversionJob::new("a/b.cr2").source(), "a/b.cr2");
}

#[test]
fn error_message_joins_path_and_error() {
    assert_eq!(
        generate_error_message("shots/sample1.cr2", "Could not convert image"),
        "shots/sample1.cr2: Could not convert image"
    );
    assert_eq!(generate_error_message("", ""), ": ");
}
