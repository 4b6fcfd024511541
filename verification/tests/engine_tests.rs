use vpaas::duration::FFMpegDuration;
use vpaas::engine::{Action, Event, JobError, ProgressEngine};
use vpaas::progress::{Percentage, ProgressState, ProgressUpdate};

const ANNOUNCEMENT: &str = "  Duration: 00:01:00.00, start: 0.000000, bitrate: 1205 kb/s";

fn in_progress(numerator: u128, denominator: u128) -> Action {
    Action::Emit(ProgressUpdate {
        percentage: Percentage::Known { numerator, denominator },
        state: ProgressState::InProgress,
    })
}

fn heartbeat() -> Action {
    Action::Emit(ProgressUpdate {
        percentage: Percentage::Unknown,
        state: ProgressState::InProgress,
    })
}

fn finished() -> Action {
    Action::Emit(ProgressUpdate {
        percentage: Percentage::Known { numerator: 1, denominator: 1 },
        state: ProgressState::Finished,
    })
}

fn as_float(action: &Action) -> f64 {
    match action {
        Action::Emit(ProgressUpdate { percentage: Percentage::Known { numerator, denominator }, .. }) => {
            *numerator as f64 / *denominator as f64
        }
        Action::Emit(_) => f64::NAN,
        _ => panic!("no update was emitted"),
    }
}

fn feed(engine: &mut ProgressEngine, lines: &[&str]) -> Vec<Action> {
    lines.iter().map(|line| engine.on_progress_line(line)).collect()
}

#[test]
fn new_engine_is_pending_and_knows_nothing() {
    let engine = ProgressEngine::new();
    assert_eq!(engine.state(), ProgressState::Pending);
    assert_eq!(engine.total_duration(), None);
    assert_eq!(engine.failure(), None);
    assert!(!engine.is_terminated());
}

#[test]
fn two_blocks_with_known_duration_give_half_then_all() {
    let mut engine = ProgressEngine::new();
    engine.on_diagnostic_line(ANNOUNCEMENT);
    let actions = feed(
        &mut engine,
        &[
            "out_time=00:00:30.00",
            "progress=continue",
            "out_time=00:01:00.00",
            "progress=end",
        ],
    );
    assert_eq!(actions[0], Action::Continue);
    assert_eq!(actions[1], in_progress(30, 60));
    assert_eq!(actions[2], Action::Continue);
    assert_eq!(actions[3], in_progress(1, 1));
    assert_eq!(as_float(&actions[1]), 0.5);
    assert_eq!(as_float(&actions[3]), 1.0);
    assert_eq!(engine.state(), ProgressState::InProgress);
    let last = engine.on_exit(Some(0));
    assert_eq!(last, finished());
    assert_eq!(as_float(&last), 1.0);
    assert_eq!(engine.state(), ProgressState::Finished);
    let emitted = actions.iter().filter(|action| matches!(action, Action::Emit(_))).count();
    assert_eq!(emitted, 2);
}

#[test]
fn unknown_duration_gives_heartbeats_and_still_finishes() {
    let mut engine = ProgressEngine::new();
    engine.on_diagnostic_line("Input #0, mov,mp4,m4a,3gp,3g2,mj2, from 'in.mov':");
    engine.on_diagnostic_line("  Metadata:");
    let actions = feed(
        &mut engine,
        &[
            "frame=10",
            "out_time=00:00:30.00",
            "progress=continue",
            "out_time=00:01:00.00",
            "progress=end",
        ],
    );
    assert_eq!(actions[2], heartbeat());
    assert_eq!(actions[4], heartbeat());
    assert!(as_float(&actions[2]).is_nan());
    assert_eq!(engine.total_duration(), None);
    assert_eq!(engine.state(), ProgressState::InProgress);
    assert_eq!(engine.on_exit(Some(0)), finished());
    assert_eq!(engine.state(), ProgressState::Finished);
}

#[test]
fn failed_exit_is_an_error_and_emits_no_finished_update() {
    let mut engine = ProgressEngine::new();
    engine.on_diagnostic_line(ANNOUNCEMENT);
    let actions = feed(&mut engine, &["out_time=00:00:30.00", "progress=continue"]);
    assert_eq!(actions[1], in_progress(30, 60));
    let last = engine.on_exit(Some(1));
    assert_eq!(last, Action::Abort(JobError::SubprocessExecution { status: Some(1) }));
    assert_eq!(engine.failure(), Some(JobError::SubprocessExecution { status: Some(1) }));
    assert_eq!(engine.state(), ProgressState::InProgress);
    assert!(engine.is_terminated());
    assert_eq!(engine.on_exit(Some(0)), Action::Continue);
    assert_eq!(engine.state(), ProgressState::InProgress);
}

#[test]
fn exit_without_status_is_an_error() {
    let mut engine = ProgressEngine::new();
    assert_eq!(
        engine.on_exit(None),
        Action::Abort(JobError::SubprocessExecution { status: None })
    );
    assert_eq!(engine.state(), ProgressState::Pending);
}

#[test]
fn negative_exit_status_is_an_error() {
    let mut engine = ProgressEngine::new();
    assert_eq!(
        engine.on_exit(Some(-1)),
        Action::Abort(JobError::SubprocessExecution { status: Some(-1) })
    );
}

#[test]
fn clean_exit_without_any_block_finishes() {
    let mut engine = ProgressEngine::new();
    assert_eq!(engine.on_exit(Some(0)), finished());
    assert_eq!(engine.state(), ProgressState::Finished);
    assert!(engine.is_terminated());
    assert_eq!(engine.failure(), None);
}

#[test]
fn nothing_is_emitted_after_finished() {
    let mut engine = ProgressEngine::new();
    engine.on_diagnostic_line(ANNOUNCEMENT);
    assert_eq!(engine.on_exit(Some(0)), finished());
    let actions = feed(&mut engine, &["out_time=00:00:30.00", "progress=continue", "broken"]);
    assert_eq!(actions, vec![Action::Continue, Action::Continue, Action::Continue]);
    assert_eq!(engine.on_exit(Some(0)), Action::Continue);
    assert_eq!(engine.on_exit(Some(3)), Action::Continue);
    assert_eq!(engine.on_launch_failure(), Action::Continue);
    assert_eq!(engine.state(), ProgressState::Finished);
    assert_eq!(engine.failure(), None);
}

#[test]
fn line_without_separator_aborts_the_job() {
    let mut engine = ProgressEngine::new();
    let actions = feed(&mut engine, &["frame=1", "this is no pair"]);
    assert_eq!(actions[0], Action::Continue);
    assert_eq!(actions[1], Action::Abort(JobError::ProgressStreamProtocol));
    assert_eq!(engine.failure(), Some(JobError::ProgressStreamProtocol));
    assert!(engine.is_terminated());
    let later = feed(&mut engine, &["out_time=00:00:30.00", "progress=continue"]);
    assert_eq!(later, vec![Action::Continue, Action::Continue]);
    assert_eq!(engine.on_exit(Some(0)), Action::Continue);
    assert_eq!(engine.state(), ProgressState::Pending);
}

#[test]
fn empty_progress_line_aborts_the_job() {
    let mut engine = ProgressEngine::new();
    assert_eq!(engine.on_progress_line(""), Action::Abort(JobError::ProgressStreamProtocol));
}

#[test]
fn launch_failure_is_an_error_without_updates() {
    let mut engine = ProgressEngine::new();
    assert_eq!(engine.on_launch_failure(), Action::Abort(JobError::SubprocessLaunch));
    assert_eq!(engine.failure(), Some(JobError::SubprocessLaunch));
    assert_eq!(engine.state(), ProgressState::Pending);
    assert_eq!(engine.on_exit(Some(0)), Action::Continue);
}

#[test]
fn block_without_elapsed_time_emits_nothing() {
    let mut engine = ProgressEngine::new();
    engine.on_diagnostic_line(ANNOUNCEMENT);
    let actions = feed(&mut engine, &["frame=10", "fps=25", "progress=continue"]);
    assert_eq!(actions, vec![Action::Continue, Action::Continue, Action::Continue]);
    assert_eq!(engine.state(), ProgressState::Pending);
}

#[test]
fn block_with_unreadable_elapsed_time_emits_nothing() {
    let mut engine = ProgressEngine::new();
    engine.on_diagnostic_line(ANNOUNCEMENT);
    let actions = feed(&mut engine, &["out_time=N/A", "progress=continue"]);
    assert_eq!(actions, vec![Action::Continue, Action::Continue]);
    assert!(!engine.is_terminated());
    let next = feed(&mut engine, &["out_time=00:00:15.00", "progress=continue"]);
    assert_eq!(next[1], in_progress(15, 60));
}

#[test]
fn delimiter_empties_the_block() {
    let mut engine = ProgressEngine::new();
    engine.on_diagnostic_line(ANNOUNCEMENT);
    let actions = feed(
        &mut engine,
        &["out_time=00:00:30.00", "progress=continue", "frame=12", "progress=continue"],
    );
    assert_eq!(actions[1], in_progress(30, 60));
    assert_eq!(actions[3], Action::Continue);
}

#[test]
fn later_elapsed_time_replaces_the_earlier_one_in_a_block() {
    let mut engine = ProgressEngine::new();
    engine.on_diagnostic_line(ANNOUNCEMENT);
    let actions = feed(
        &mut engine,
        &["out_time=00:00:10.00", "out_time=00:00:20.00", "progress=continue"],
    );
    assert_eq!(actions[2], in_progress(20, 60));
}

#[test]
fn any_line_that_begins_with_the_marker_is_a_delimiter() {
    let mut engine = ProgressEngine::new();
    let actions = feed(&mut engine, &["out_time=00:00:10.00", "progress=", "progress"]);
    assert_eq!(actions[1], heartbeat());
    assert_eq!(actions[2], Action::Abort(JobError::ProgressStreamProtocol));
}

#[test]
fn elapsed_time_beyond_the_total_is_all_of_it() {
    let mut engine = ProgressEngine::new();
    engine.on_diagnostic_line(ANNOUNCEMENT);
    let actions = feed(&mut engine, &["out_time=00:02:00.00", "progress=continue"]);
    assert_eq!(actions[1], in_progress(1, 1));
}

#[test]
fn announcement_is_found_behind_white_space_only() {
    let mut engine = ProgressEngine::new();
    engine.on_diagnostic_line("x Duration: 00:01:00.00");
    assert_eq!(engine.total_duration(), None);
    engine.on_diagnostic_line("Duration:00:01:00.00");
    assert_eq!(engine.total_duration(), None);
    engine.on_diagnostic_line("\t Duration: 00:01:00.00");
    assert_eq!(engine.total_duration(), Some(FFMpegDuration { seconds: 60, fraction: 0 }));
}

#[test]
fn announcement_holds_the_span_and_not_the_line() {
    let mut engine = ProgressEngine::new();
    engine.on_diagnostic_line("Duration: 01:02:03.500000, start: 0.000000");
    assert_eq!(
        engine.total_duration(),
        Some(FFMpegDuration { seconds: 3723, fraction: 500000 })
    );
}

#[test]
fn announcement_takes_at_most_six_fraction_digits() {
    let mut engine = ProgressEngine::new();
    engine.on_diagnostic_line("Duration: 00:00:10.12345678");
    assert_eq!(
        engine.total_duration(),
        Some(FFMpegDuration { seconds: 10, fraction: 123456 })
    );
}

#[test]
fn announcement_that_is_no_time_span_is_passed_over() {
    let mut engine = ProgressEngine::new();
    engine.on_diagnostic_line("Duration: 00:01:00x00");
    assert_eq!(engine.total_duration(), None);
    engine.on_diagnostic_line("Duration: N/A, bitrate: N/A");
    assert_eq!(engine.total_duration(), None);
    engine.on_diagnostic_line(ANNOUNCEMENT);
    assert_eq!(engine.total_duration(), Some(FFMpegDuration { seconds: 60, fraction: 0 }));
}

#[test]
fn total_duration_is_written_once() {
    let mut engine = ProgressEngine::new();
    engine.on_diagnostic_line(ANNOUNCEMENT);
    engine.on_diagnostic_line("  Duration: 00:05:00.00, start: 0.000000");
    assert_eq!(engine.total_duration(), Some(FFMpegDuration { seconds: 60, fraction: 0 }));
    engine.record_announcement(Some("00:07:00.00"));
    assert_eq!(engine.total_duration(), Some(FFMpegDuration { seconds: 60, fraction: 0 }));
}

#[test]
fn record_announcement_reads_the_captured_text() {
    let mut engine = ProgressEngine::new();
    engine.record_announcement(None);
    assert_eq!(engine.total_duration(), None);
    engine.record_announcement(Some("not a span"));
    assert_eq!(engine.total_duration(), None);
    engine.record_announcement(Some("00:00:42.10"));
    assert_eq!(engine.total_duration(), Some(FFMpegDuration { seconds: 42, fraction: 10 }));
}

#[test]
fn announcement_after_the_end_is_ignored() {
    let mut engine = ProgressEngine::new();
    assert_eq!(engine.on_exit(Some(2)), Action::Abort(JobError::SubprocessExecution { status: Some(2) }));
    engine.on_diagnostic_line(ANNOUNCEMENT);
    assert_eq!(engine.total_duration(), None);
    engine.record_announcement(Some("00:00:42.10"));
    assert_eq!(engine.total_duration(), None);
}

#[test]
fn duration_announced_between_blocks_counts_from_then_on() {
    let mut engine = ProgressEngine::new();
    let first = feed(&mut engine, &["out_time=00:00:15.00", "progress=continue"]);
    assert_eq!(first[1], heartbeat());
    engine.on_diagnostic_line(ANNOUNCEMENT);
    let second = feed(&mut engine, &["out_time=00:00:45.00", "progress=continue"]);
    assert_eq!(second[1], in_progress(45, 60));
}

#[test]
fn step_takes_each_kind_of_event() {
    let mut engine = ProgressEngine::new();
    let events = vec![
        Event::DiagnosticLine(ANNOUNCEMENT.to_string()),
        Event::ProgressLine("out_time=00:00:30.00".to_string()),
        Event::ProgressLine("progress=continue".to_string()),
        Event::Exited(Some(0)),
        Event::LaunchFailed,
        Event::ProgressLine("progress=end".to_string()),
    ];
    let actions: Vec<Action> = events.iter().map(|event| engine.step(event)).collect();
    assert_eq!(
        actions,
        vec![
            Action::Continue,
            Action::Continue,
            in_progress(30, 60),
            finished(),
            Action::Continue,
            Action::Continue,
        ]
    );
}

#[test]
fn stage_never_goes_back() {
    let mut engine = ProgressEngine::new();
    let events = vec![
        Event::ProgressLine("frame=1".to_string()),
        Event::ProgressLine("out_time=00:00:01.00".to_string()),
        Event::ProgressLine("progress=continue".to_string()),
        Event::ProgressLine("frame=2".to_string()),
        Event::ProgressLine("progress=continue".to_string()),
        Event::DiagnosticLine(ANNOUNCEMENT.to_string()),
        Event::Exited(Some(0)),
        Event::ProgressLine("out_time=00:00:02.00".to_string()),
        Event::Exited(Some(1)),
    ];
    let rank = |state: ProgressState| match state {
        ProgressState::Pending => 0,
        ProgressState::InProgress => 1,
        ProgressState::Finished => 2,
    };
    let mut last = rank(engine.state());
    let mut stages = Vec::new();
    for event in &events {
        engine.step(event);
        let now = rank(engine.state());
        assert!(now >= last);
        last = now;
        stages.push(now);
    }
    assert_eq!(stages, vec![0, 0, 1, 1, 1, 1, 2, 2, 2]);
}

#[test]
fn every_known_share_lies_between_zero_and_one() {
    let mut engine = ProgressEngine::new();
    engine.on_diagnostic_line("Duration: 00:00:10.250");
    for line in [
        "out_time=00:00:00.00",
        "progress=continue",
        "out_time=00:00:05.333333",
        "progress=continue",
        "out_time=00:00:10.251",
        "progress=continue",
        "out_time=99:00:00.999999",
        "progress=end",
    ] {
        if let Action::Emit(update) = engine.on_progress_line(line) {
            match update.percentage {
                Percentage::Known { numerator, denominator } => {
                    assert!(denominator > 0);
                    assert!(numerator <= denominator);
                }
                Percentage::Unknown => panic!("the total is known"),
            }
            assert_eq!(update.state, ProgressState::InProgress);
        }
    }
}
