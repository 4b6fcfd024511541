//! What holds of every job execution, whatever the transcoder writes and in
//! whatever order the events come in.

use vstd::prelude::*;

use crate::engine::{Action, EngineState, Event, JobError};
use crate::progress::{Percentage, ProgressState, ProgressUpdate};

verus! {

/// The state after the events `events`, taken in from the state `start`.
pub open spec fn run(start: EngineState, events: Seq<Event>) -> EngineState
    decreases events.len(),
{
    if events.len() == 0 {
        start
    } else {
        run(start, events.drop_last()).step(events.last()).0
    }
}

/// The actions that the events `events` give rise to, one for each event,
/// when they are taken in from the state `start`.
pub open spec fn actions(start: EngineState, events: Seq<Event>) -> Seq<Action>
    decreases events.len(),
{
    if events.len() == 0 {
        Seq::empty()
    } else {
        actions(start, events.drop_last()).push(
            run(start, events.drop_last()).step(events.last()).1,
        )
    }
}

/// Whether `action` ends the job: the update of a finished job, or an error.
pub open spec fn is_final(action: Action) -> bool {
    match action {
        Action::Continue => false,
        Action::Emit(update) => update.state == ProgressState::Finished,
        Action::Abort(_) => true,
    }
}

/// The sink is handed only shares between zero and one, each with the stage
/// in progress or finished, and the update of a finished job says that all
/// of it is done.
pub open spec fn is_sound_update(update: ProgressUpdate) -> bool {
    &&& update.percentage.wf()
    &&& update.state != ProgressState::Pending
    &&& update.state == ProgressState::Finished ==> update.percentage == (Percentage::Known {
        numerator: 1,
        denominator: 1,
    })
}

/// There is one action for each event.
pub proof fn lemma_one_action_per_event(start: EngineState, events: Seq<Event>)
    ensures
        actions(start, events).len() == events.len(),
    decreases events.len(),
{
    if events.len() > 0 {
        lemma_one_action_per_event(start, events.drop_last());
    }
}

/// The action for the event at `i` is the one that the engine takes in the
/// state that the events before `i` have led to.
pub proof fn lemma_action_at(start: EngineState, events: Seq<Event>, i: int)
    requires
        0 <= i < events.len(),
    ensures
        actions(start, events).len() == events.len(),
        actions(start, events)[i] == run(start, events.take(i)).step(events[i]).1,
    decreases events.len(),
{
    lemma_one_action_per_event(start, events);
    lemma_one_action_per_event(start, events.drop_last());
    if i == events.len() - 1 {
        assert(events.take(i) == events.drop_last());
    } else {
        lemma_action_at(start, events.drop_last(), i);
        assert(events.drop_last().take(i) == events.take(i));
    }
}

/// Taking in the events up to `i` and then the event at `i` is taking in the
/// events up to `i + 1`.
pub proof fn lemma_run_extends(start: EngineState, events: Seq<Event>, i: int)
    requires
        0 <= i < events.len(),
    ensures
        run(start, events.take(i + 1)) == run(start, events.take(i)).step(events[i]).0,
{
    assert(events.take(i + 1).drop_last() == events.take(i));
}

/// Actions are never taken back: more events add actions and leave the
/// earlier ones as they were.
pub proof fn lemma_actions_are_never_retracted(start: EngineState, events: Seq<Event>, n: int)
    requires
        0 <= n <= events.len(),
    ensures
        actions(start, events.take(n)) == actions(start, events).take(n),
    decreases events.len(),
{
    lemma_one_action_per_event(start, events);
    if n == events.len() {
        assert(events.take(n) == events);
        assert(actions(start, events).take(n) == actions(start, events));
    } else {
        lemma_actions_are_never_retracted(start, events.drop_last(), n);
        lemma_one_action_per_event(start, events.drop_last());
        assert(events.drop_last().take(n) == events.take(n));
        assert(actions(start, events.drop_last()).take(n) == actions(start, events).take(n));
    }
}

/// The stage never goes back: after any event it is the stage before, or a
/// later one.
pub proof fn lemma_step_advances(state: EngineState, event: Event)
    ensures
        state.step(event).0.state.rank() >= state.state.rank(),
{
}

/// The stage never goes back, whatever events come in.
pub proof fn lemma_state_only_advances(start: EngineState, events: Seq<Event>)
    ensures
        run(start, events).state.rank() >= start.state.rank(),
    decreases events.len(),
{
    if events.len() > 0 {
        lemma_state_only_advances(start, events.drop_last());
        lemma_step_advances(run(start, events.drop_last()), events.last());
    }
}

/// A job that has ended stays as it is: events change nothing and call for
/// no action.
pub proof fn lemma_terminated_is_inert(start: EngineState, events: Seq<Event>)
    requires
        start.is_terminated(),
    ensures
        run(start, events) == start,
        forall|i: int| 0 <= i < events.len() ==> actions(start, events)[i] == Action::Continue,
    decreases events.len(),
{
    lemma_one_action_per_event(start, events);
    if events.len() > 0 {
        lemma_terminated_is_inert(start, events.drop_last());
        lemma_one_action_per_event(start, events.drop_last());
    }
}

/// The engine ends the job exactly when its action is final: by the update
/// of a finished job or by an error.
pub proof fn lemma_final_action_terminates(state: EngineState, event: Event)
    requires
        !state.is_terminated(),
    ensures
        state.step(event).0.is_terminated() <==> is_final(state.step(event).1),
{
}

/// After the update of a finished job, and after an error, the sink is not
/// called again and no second error is raised: every later action is
/// `Continue`.
pub proof fn lemma_nothing_follows_the_end(
    start: EngineState,
    events: Seq<Event>,
    i: int,
    j: int,
)
    requires
        0 <= i < j < events.len(),
        is_final(actions(start, events)[i]),
    ensures
        actions(start, events)[j] == Action::Continue,
{
    lemma_action_at(start, events, i);
    lemma_action_at(start, events, j);
    let before = run(start, events.take(i));
    let middle = events.subrange(i + 1, j);
    if before.is_terminated() {
        assert(actions(start, events)[i] == Action::Continue);
    } else {
        lemma_final_action_terminates(before, events[i]);
        lemma_run_extends(start, events, i);
        let ended = run(start, events.take(i + 1));
        lemma_run_splits(start, events.take(j), i + 1);
        assert(events.take(j).take(i + 1) == events.take(i + 1));
        assert(events.take(j).skip(i + 1) == middle);
        lemma_terminated_is_inert(ended, middle);
    }
}

/// Taking in a sequence of events is taking in its first `n` and then the
/// rest.
pub proof fn lemma_run_splits(start: EngineState, events: Seq<Event>, n: int)
    requires
        0 <= n <= events.len(),
    ensures
        run(start, events) == run(run(start, events.take(n)), events.skip(n)),
    decreases events.len(),
{
    if n == events.len() {
        assert(events.take(n) == events);
        assert(events.skip(n).len() == 0);
    } else {
        lemma_run_splits(start, events.drop_last(), n);
        assert(events.drop_last().take(n) == events.take(n));
        assert(events.drop_last().skip(n) == events.skip(n).drop_last());
        assert(events.skip(n).last() == events.last());
    }
}

/// A job that fails emits no update of a finished job: once an error is
/// raised, no later action hands anything to the sink.
pub proof fn lemma_failure_emits_nothing_more(
    start: EngineState,
    events: Seq<Event>,
    i: int,
    j: int,
)
    requires
        0 <= i < j < events.len(),
        actions(start, events)[i] is Abort,
    ensures
        !(actions(start, events)[j] is Emit),
{
    lemma_nothing_follows_the_end(start, events, i, j);
}

/// When the transcoder ends with a status other than zero while the job is
/// running, the engine raises the execution error that holds that status,
/// and hands nothing to the sink.
pub proof fn lemma_failed_exit_is_an_error(state: EngineState, status: Option<i32>)
    requires
        !state.is_terminated(),
        status != Some(0i32),
    ensures
        state.step(Event::Exited(status)).1 == Action::Abort(
            JobError::SubprocessExecution { status },
        ),
        state.step(Event::Exited(status)).0.failure == Some(
            JobError::SubprocessExecution { status },
        ),
        state.step(Event::Exited(status)).0.state == state.state,
{
}

/// When the transcoder ends with status zero while the job is running, the
/// engine emits the update of a finished job, with all of the job done.
pub proof fn lemma_clean_exit_finishes(state: EngineState)
    requires
        !state.is_terminated(),
    ensures
        state.step(Event::Exited(Some(0i32))).1 == Action::Emit(
            ProgressUpdate {
                percentage: Percentage::Known { numerator: 1, denominator: 1 },
                state: ProgressState::Finished,
            },
        ),
        state.step(Event::Exited(Some(0i32))).0.state == ProgressState::Finished,
{
}

/// Every update that is handed to the sink is sound.
pub proof fn lemma_updates_are_sound(start: EngineState, events: Seq<Event>, i: int)
    requires
        0 <= i < events.len(),
    ensures
        actions(start, events)[i] matches Action::Emit(update) ==> is_sound_update(update),
{
    lemma_action_at(start, events, i);
    let before = run(start, events.take(i));
    if let Some(elapsed) = before.elapsed() {
        if let Some(total) = before.total {
            crate::duration::lemma_share_is_sound(elapsed, total);
        }
    }
}

/// The total duration is written at most once: a recorded total stays what
/// it is, whatever events follow.
pub proof fn lemma_total_is_written_once(start: EngineState, events: Seq<Event>)
    requires
        start.total is Some,
    ensures
        run(start, events).total == start.total,
    decreases events.len(),
{
    if events.len() > 0 {
        lemma_total_is_written_once(start, events.drop_last());
    }
}

/// Whether the diagnostic channel announces a time span in `events`.
pub open spec fn announces_duration(events: Seq<Event>) -> bool {
    exists|i: int|
        0 <= i < events.len() && (#[trigger] events[i] matches Event::DiagnosticLine(line)
            && crate::pattern::announced_duration_text(line@) is Some)
}

/// Without an announcement the total stays unknown.
pub proof fn lemma_no_announcement_no_total(start: EngineState, events: Seq<Event>)
    requires
        start.total is None,
        !announces_duration(events),
    ensures
        run(start, events).total is None,
    decreases events.len(),
{
    if events.len() > 0 {
        let earlier = events.drop_last();
        assert forall|i: int| 0 <= i < earlier.len() implies !(#[trigger] earlier[i]
            matches Event::DiagnosticLine(line) && crate::pattern::announced_duration_text(line@)
            is Some) by {
            assert(earlier[i] == events[i]);
        }
        lemma_no_announcement_no_total(start, earlier);
        assert(events.last() == events[events.len() - 1]);
    }
}

/// Where the diagnostic channel never announces a time span, every update
/// of a job in progress has an unknown percentage, and the job still
/// finishes with all of it done.
pub proof fn lemma_unknown_duration_unknown_percentage(
    start: EngineState,
    events: Seq<Event>,
    i: int,
)
    requires
        start.total is None,
        !announces_duration(events),
        0 <= i < events.len(),
    ensures
        actions(start, events)[i] matches Action::Emit(update) ==> (update.state
            == ProgressState::InProgress ==> update.percentage == Percentage::Unknown) && (
        update.state == ProgressState::Finished ==> update.percentage == (Percentage::Known {
            numerator: 1,
            denominator: 1,
        })),
{
    lemma_action_at(start, events, i);
    let earlier = events.take(i);
    assert forall|k: int| 0 <= k < earlier.len() implies !(#[trigger] earlier[k]
        matches Event::DiagnosticLine(line) && crate::pattern::announced_duration_text(line@)
        is Some) by {
        assert(earlier[k] == events[k]);
    }
    lemma_no_announcement_no_total(start, earlier);
}

} // verus!
