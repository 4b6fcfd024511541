//! The progress engine: what one job execution knows, and what it does when
//! the transcoder writes a line or exits.
//!
//! The engine does no I/O. Its caller starts the transcoder, reads its two
//! output channels and waits for its exit; it hands each thing that happens
//! to [`ProgressEngine::step`] as an [`Event`] and carries out the
//! [`Action`] that comes back.

use vstd::prelude::*;

use crate::block::{key_value_of, split_key_value, ProgressBlock};
use crate::duration::{duration_of_text, FFMpegDuration};
use crate::pattern::{announced_duration_text, first_group, DURATION_PATTERN};
use crate::progress::{Percentage, ProgressState, ProgressUpdate};
use crate::text::{chars_of, starts_with};

verus! {

/// Why a job execution was given up.
#[derive(Debug, Clone, Copy, PartialEq, Eq)]
pub enum JobError {
    /// A line of the progress channel was neither a delimiter nor `key=value`.
    ProgressStreamProtocol,
    /// The transcoder could not be started.
    SubprocessLaunch,
    /// The transcoder ended with a status other than zero; `status` is `None`
    /// where it ended without one.
    SubprocessExecution { status: Option<i32> },
}

/// Something that happened to the transcoder.
#[derive(Debug, PartialEq, Eq)]
pub enum Event {
    /// The transcoder wrote a line to its diagnostic channel.
    DiagnosticLine(String),
    /// The transcoder wrote a line to its progress channel.
    ProgressLine(String),
    /// The transcoder ended, with this exit status if it had one.
    Exited(Option<i32>),
    /// The transcoder could not be started.
    LaunchFailed,
}

/// What the caller of the engine has to do after an event.
#[derive(Debug, Clone, Copy, PartialEq, Eq)]
pub enum Action {
    /// Nothing; go on reading.
    Continue,
    /// Hand this update to the progress sink.
    Emit(ProgressUpdate),
    /// Give the job up with this error.
    Abort(JobError),
}

/// What a job execution knows, as a mathematical value.
pub struct EngineState {
    /// The total duration of the input, once the diagnostic channel has
    /// announced it.
    pub total: Option<FFMpegDuration>,
    /// The keys and values of the progress block that is coming in.
    pub block: Map<Seq<char>, Seq<char>>,
    /// The stage that the last update reported.
    pub state: ProgressState,
    /// The error with which the job was given up.
    pub failure: Option<JobError>,
}

impl EngineState {
    /// What an execution knows before anything has happened.
    pub open spec fn initial() -> EngineState {
        EngineState {
            total: None,
            block: Map::empty(),
            state: ProgressState::Pending,
            failure: None,
        }
    }

    /// Whether the job has finished or was given up.
    pub open spec fn is_terminated(self) -> bool {
        self.state == ProgressState::Finished || self.failure is Some
    }

    /// The state after a diagnostic line in which the search for the
    /// announcement found `captured`. The first announcement that is a time
    /// span is recorded; once one is recorded, and once the job has ended,
    /// nothing changes.
    pub open spec fn after_announcement(self, captured: Option<Seq<char>>) -> EngineState {
        if self.is_terminated() || self.total is Some {
            self
        } else {
            match captured {
                Some(text) => EngineState { total: duration_of_text(text), ..self },
                None => self,
            }
        }
    }

    /// The elapsed time that the current block reports under `out_time`.
    pub open spec fn elapsed(self) -> Option<FFMpegDuration> {
        if self.block.contains_key("out_time"@) {
            duration_of_text(self.block["out_time"@])
        } else {
            None
        }
    }

    /// The update that the current block gives rise to: none without an
    /// elapsed time, the elapsed share of the total where the total is known,
    /// and an update of unknown percentage where it is not.
    pub open spec fn block_update(self) -> Option<ProgressUpdate> {
        match self.elapsed() {
            Some(elapsed) => Some(
                ProgressUpdate {
                    percentage: match self.total {
                        Some(total) => elapsed.spec_share_of(total),
                        None => Percentage::Unknown,
                    },
                    state: ProgressState::InProgress,
                },
            ),
            None => None,
        }
    }

    /// The state and the action after a line of the progress channel.
    ///
    /// A delimiter closes the block: its update, if it has one, is emitted
    /// and the block is emptied. Any other line is taken apart at its first
    /// `=` and added to the block; a line without `=` ends the job.
    pub open spec fn after_progress_line(self, line: Seq<char>) -> (EngineState, Action) {
        if self.is_terminated() {
            (self, Action::Continue)
        } else if is_delimiter(line) {
            match self.block_update() {
                Some(update) => (
                    EngineState { block: Map::empty(), state: ProgressState::InProgress, ..self },
                    Action::Emit(update),
                ),
                None => (EngineState { block: Map::empty(), ..self }, Action::Continue),
            }
        } else {
            match key_value_of(line) {
                Some((key, value)) => (
                    EngineState { block: self.block.insert(key, value), ..self },
                    Action::Continue,
                ),
                None => (
                    EngineState { failure: Some(JobError::ProgressStreamProtocol), ..self },
                    Action::Abort(JobError::ProgressStreamProtocol),
                ),
            }
        }
    }

    /// The state and the action after the transcoder has ended with
    /// `status`: status zero finishes the job with one last update, any other
    /// ending is an error.
    pub open spec fn after_exit(self, status: Option<i32>) -> (EngineState, Action) {
        if self.is_terminated() {
            (self, Action::Continue)
        } else if status == Some(0i32) {
            (
                EngineState { state: ProgressState::Finished, ..self },
                Action::Emit(
                    ProgressUpdate {
                        percentage: Percentage::Known { numerator: 1, denominator: 1 },
                        state: ProgressState::Finished,
                    },
                ),
            )
        } else {
            (
                EngineState { failure: Some(JobError::SubprocessExecution { status }), ..self },
                Action::Abort(JobError::SubprocessExecution { status }),
            )
        }
    }

    /// The state and the action after the transcoder could not be started.
    pub open spec fn after_launch_failure(self) -> (EngineState, Action) {
        if self.is_terminated() {
            (self, Action::Continue)
        } else {
            (
                EngineState { failure: Some(JobError::SubprocessLaunch), ..self },
                Action::Abort(JobError::SubprocessLaunch),
            )
        }
    }

    /// The state and the action after `event`.
    pub open spec fn step(self, event: Event) -> (EngineState, Action) {
        match event {
            Event::DiagnosticLine(line) => (
                self.after_announcement(announced_duration_text(line@)),
                Action::Continue,
            ),
            Event::ProgressLine(line) => self.after_progress_line(line@),
            Event::Exited(status) => self.after_exit(status),
            Event::LaunchFailed => self.after_launch_failure(),
        }
    }
}

/// Whether `line` is the line that ends a progress block.
pub open spec fn is_delimiter(line: Seq<char>) -> bool {
    "progress="@.is_prefix_of(line)
}

/// The state of one job execution.
pub struct ProgressEngine {
    total: Option<FFMpegDuration>,
    block: ProgressBlock,
    state: ProgressState,
    failure: Option<JobError>,
}

impl View for ProgressEngine {
    type V = EngineState;

    closed spec fn view(&self) -> EngineState {
        EngineState {
            total: self.total,
            block: self.block@,
            state: self.state,
            failure: self.failure,
        }
    }
}

impl ProgressEngine {
    /// The engine of a job that has not started.
    pub fn new() -> (engine: ProgressEngine)
        ensures
            engine@ == EngineState::initial(),
    {
        ProgressEngine {
            total: None,
            block: ProgressBlock::new(),
            state: ProgressState::Pending,
            failure: None,
        }
    }

    /// The stage that the last update reported.
    pub fn state(&self) -> (state: ProgressState)
        ensures
            state == self@.state,
    {
        self.state
    }

    /// The total duration of the input, if it has been announced.
    pub fn total_duration(&self) -> (total: Option<FFMpegDuration>)
        ensures
            total == self@.total,
    {
        self.total
    }

    /// The error with which the job was given up, if it was.
    pub fn failure(&self) -> (failure: Option<JobError>)
        ensures
            failure == self@.failure,
    {
        self.failure
    }

    /// Tells whether the job has finished or was given up.
    pub fn is_terminated(&self) -> (terminated: bool)
        ensures
            terminated == self@.is_terminated(),
    {
        let finished = match self.state {
            ProgressState::Finished => true,
            _ => false,
        };
        finished || self.failure.is_some()
    }

    /// Takes in what the search for the announcement found in a diagnostic
    /// line: the announced time span as text, or nothing.
    pub fn record_announcement(&mut self, captured: Option<&str>)
        ensures
            final(self)@ == old(self)@.after_announcement(
                match captured {
                    Some(text) => Some(text@),
                    None => None,
                },
            ),
    {
        if self.is_terminated() || self.total.is_some() {
            return ;
        }
        if let Some(text) = captured {
            match FFMpegDuration::from_str(text) {
                Ok(duration) => {
                    self.total = Some(duration);
                },
                Err(_) => {},
            }
        }
    }

    /// Takes in one line of the diagnostic channel.
    pub fn on_diagnostic_line(&mut self, line: &str)
        ensures
            final(self)@ == old(self)@.after_announcement(announced_duration_text(line@)),
    {
        if self.is_terminated() || self.total.is_some() {
            return ;
        }
        match first_group(DURATION_PATTERN, line) {
            Some(text) => self.record_announcement(Some(text.as_str())),
            None => self.record_announcement(None),
        }
    }

    /// Takes in one line of the progress channel.
    pub fn on_progress_line(&mut self, line: &str) -> (action: Action)
        ensures
            (final(self)@, action) == old(self)@.after_progress_line(line@),
    {
        if self.is_terminated() {
            return Action::Continue;
        }
        let chars = chars_of(line);
        let marker = chars_of("progress=");
        if starts_with(chars.as_slice(), marker.as_slice()) {
            let elapsed = match self.block.get("out_time") {
                Some(text) => match FFMpegDuration::from_str(text.as_str()) {
                    Ok(elapsed) => Some(elapsed),
                    Err(_) => None,
                },
                None => None,
            };
            self.block.clear();
            match elapsed {
                Some(elapsed) => {
                    let percentage = match &self.total {
                        Some(total) => elapsed.share_of(total),
                        None => Percentage::Unknown,
                    };
                    self.state = ProgressState::InProgress;
                    Action::Emit(ProgressUpdate { percentage, state: ProgressState::InProgress })
                },
                None => Action::Continue,
            }
        } else {
            match split_key_value(line) {
                Some((key, value)) => {
                    self.block.insert(key, value);
                    Action::Continue
                },
                None => {
                    self.failure = Some(JobError::ProgressStreamProtocol);
                    Action::Abort(JobError::ProgressStreamProtocol)
                },
            }
        }
    }

    /// Takes in the end of the transcoder, with its exit status if it had
    /// one.
    pub fn on_exit(&mut self, status: Option<i32>) -> (action: Action)
        ensures
            (final(self)@, action) == old(self)@.after_exit(status),
    {
        if self.is_terminated() {
            return Action::Continue;
        }
        let success = match status {
            Some(code) => code == 0,
            None => false,
        };
        if success {
            self.state = ProgressState::Finished;
            Action::Emit(
                ProgressUpdate {
                    percentage: Percentage::complete(),
                    state: ProgressState::Finished,
                },
            )
        } else {
            let error = JobError::SubprocessExecution { status };
            self.failure = Some(error);
            Action::Abort(error)
        }
    }

    /// Takes in that the transcoder could not be started.
    pub fn on_launch_failure(&mut self) -> (action: Action)
        ensures
            (final(self)@, action) == old(self)@.after_launch_failure(),
    {
        if self.is_terminated() {
            return Action::Continue;
        }
        self.failure = Some(JobError::SubprocessLaunch);
        Action::Abort(JobError::SubprocessLaunch)
    }

    /// Takes in `event` and says what to do.
    pub fn step(&mut self, event: &Event) -> (action: Action)
        ensures
            (final(self)@, action) == old(self)@.step(*event),
    {
        match event {
            Event::DiagnosticLine(line) => {
                self.on_diagnostic_line(line.as_str());
                Action::Continue
            },
            Event::ProgressLine(line) => self.on_progress_line(line.as_str()),
            Event::Exited(status) => self.on_exit(*status),
            Event::LaunchFailed => self.on_launch_failure(),
        }
    }
}

} // verus!
