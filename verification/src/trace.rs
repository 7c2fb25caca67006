//! The dispatch trace: a ghost record of the events one run hands to its
//! observer, and the laws every run obeys.
//!
//! The engine appends one step to the trace at the very point it dispatches
//! an event, so the trace is the dispatched event sequence.  (`KillRequested`
//! is a side channel: the observer itself raises it by calling
//! `ProcessData::kill` mid-event, outside the engine's loop, so it is not a
//! step of this trace.)

use vstd::prelude::*;

use crate::result::ProcessResult;
use crate::ProcessEvent;

verus! {

/// One dispatched event: what the observation showed at dispatch time (the
/// event, the `line_number` counter, the `line` content, and the id of the
/// request the observation carried) and what the observer answered (a fresh
/// result when none is registered).
pub ghost struct TraceStep {
    pub event: ProcessEvent,
    pub line_number: int,
    pub line: Seq<char>,
    pub request_id: int,
    pub answer: ProcessResult,
}

/// The step's visible head: its event and its line number.
pub open spec fn is_step(s: TraceStep, event: ProcessEvent, line_number: int) -> bool {
    s.event == event && s.line_number == line_number
}

/// The request was rejected before anything was spawned: one lone
/// `StartError` and nothing else.
pub open spec fn is_rejection_trace(t: Seq<TraceStep>) -> bool {
    t.len() == 1 && is_step(t[0], ProcessEvent::StartError, 0)
}

/// The chain could not be opened: `Starting`, then a terminal `StartError`
/// whose line renders the operating-system error.
pub open spec fn is_open_failure_trace(t: Seq<TraceStep>) -> bool {
    t.len() == 2 && is_step(t[0], ProcessEvent::Starting, 0) && is_step(
        t[1],
        ProcessEvent::StartError,
        0,
    )
}

/// Positions 2, 3, ..., 2 + k - 1 of the trace carry the `IOData` events,
/// numbered 1, 2, ..., k — consecutive, without gaps or repeats — and each
/// delivers a line with at least one character.
pub open spec fn data_steps_ok(t: Seq<TraceStep>, k: int) -> bool {
    forall|i: int|
        2 <= i < 2 + k ==> {
            &&& (#[trigger] t[i]).event == ProcessEvent::IOData
            &&& t[i].line_number == i - 1
            &&& t[i].line.len() > 0
        }
}

/// A stop answer on a data event is honoured, and the loop never stops
/// without one: a data step's answer carries `should_exit == Some(true)`
/// exactly when it is the last data step (position k + 1) and the loop-exit
/// event right after it (position k + 2) is `ExitRequested`.
pub open spec fn stop_honoured(t: Seq<TraceStep>, k: int) -> bool {
    forall|i: int|
        2 <= i < 2 + k ==> ((#[trigger] t[i]).answer.should_exit == Some(true) <==> i == k + 1
            && t[k + 2].event == ProcessEvent::ExitRequested)
}

/// The event that ended the read loop after `k` data lines: the end of the
/// output (with nothing in `line`), a read error (its diagnostic in `line`),
/// or — only after at least one line — an exit request honoured.
pub open spec fn is_loop_exit(s: TraceStep, k: int) -> bool {
    s.line_number == k && ((s.event == ProcessEvent::IOEof && s.line.len() == 0) || s.event
        == ProcessEvent::IOError || (s.event == ProcessEvent::ExitRequested && k >= 1))
}

/// The unconditional teardown event after `k` data lines: the chain was
/// reaped (`Exited`) or could not be killed (`KillError`); `line` is cleared.
pub open spec fn is_teardown(s: TraceStep, k: int) -> bool {
    s.line_number == k && s.line.len() == 0 && (s.event == ProcessEvent::Exited || s.event
        == ProcessEvent::KillError)
}

/// A full session: `Starting`, `Started` (line cleared), some number of
/// `IOData` steps numbered consecutively from 1, exactly one loop-exit event,
/// and exactly one teardown event.  The loop exits with `ExitRequested` if
/// and only if the last data step's answer asked to stop, and the
/// `ExitRequested` step still shows the line that was being delivered.
pub open spec fn is_session_trace(t: Seq<TraceStep>) -> bool {
    &&& t.len() >= 4
    &&& is_step(t[0], ProcessEvent::Starting, 0)
    &&& is_step(t[1], ProcessEvent::Started, 0)
    &&& t[1].line.len() == 0
    &&& data_steps_ok(t, t.len() - 4)
    &&& stop_honoured(t, t.len() - 4)
    &&& is_loop_exit(t[t.len() - 2], t.len() - 4)
    &&& is_teardown(t[t.len() - 1], t.len() - 4)
    &&& t[t.len() - 2].event == ProcessEvent::ExitRequested ==> t[t.len() - 2].line == t[t.len()
        - 3].line
}

/// Every run dispatches one of the three shapes: a rejection, an open
/// failure, or a full session.
pub open spec fn trace_ok(t: Seq<TraceStep>) -> bool {
    is_rejection_trace(t) || is_open_failure_trace(t) || is_session_trace(t)
}

/// The step whose answer the engine keeps as the run's result — the most
/// recent answer the observer gave before the run reached its teardown: the
/// lone `StartError` of a rejection, the terminal `StartError` when the chain
/// could not be opened, and in a full session the most recent
/// `Starting`/`Started`/`IOData` answer, the step just before the loop-exit
/// event.  Answers of loop-exit and teardown events are dispatched but not
/// kept.
pub open spec fn result_index(t: Seq<TraceStep>) -> int {
    if is_rejection_trace(t) {
        0
    } else if is_open_failure_trace(t) {
        1
    } else {
        t.len() - 3
    }
}

/// Law: in every run, the `IOData` events are exactly the middle of a full
/// session, and their line numbers are exactly 1, 2, ..., N in order, with no
/// gaps and no repeats — the event at position i carries line number i - 1 —
/// and none of them delivers an empty line.
pub proof fn lemma_io_data_lines(t: Seq<TraceStep>)
    requires
        trace_ok(t),
    ensures
        forall|i: int|
            0 <= i < t.len() ==> ((#[trigger] t[i]).event == ProcessEvent::IOData
                <==> is_session_trace(t) && 2 <= i < t.len() - 2),
        is_session_trace(t) ==> forall|i: int|
            2 <= i < t.len() - 2 ==> (#[trigger] t[i]).line_number == i - 1 && t[i].line.len()
                > 0,
{
}

/// Law: every run ends in exactly one terminal event — `StartError` for a
/// run that never started, else `Exited` or `KillError` from the
/// unconditional teardown — and in every run that was not rejected outright,
/// `Starting` fires exactly once, first, before any other event, and
/// `Started` only ever directly after it.
pub proof fn lemma_terminal_event(t: Seq<TraceStep>)
    requires
        trace_ok(t),
    ensures
        t.len() >= 1,
        t[t.len() - 1].event == ProcessEvent::StartError || t[t.len() - 1].event
            == ProcessEvent::Exited || t[t.len() - 1].event == ProcessEvent::KillError,
        is_session_trace(t) ==> (t[t.len() - 1].event == ProcessEvent::Exited || t[t.len()
            - 1].event == ProcessEvent::KillError),
        forall|j: int|
            0 <= j < t.len() - 1 ==> {
                &&& (#[trigger] t[j]).event != ProcessEvent::StartError
                &&& t[j].event != ProcessEvent::Exited
                &&& t[j].event != ProcessEvent::KillError
            },
        !is_rejection_trace(t) ==> t[0].event == ProcessEvent::Starting,
        forall|j: int| 1 <= j < t.len() ==> (#[trigger] t[j]).event != ProcessEvent::Starting,
        forall|j: int|
            0 <= j < t.len() && (#[trigger] t[j]).event == ProcessEvent::Started ==> j == 1,
{
}

/// Law: when the observer's stop signal is honoured, exactly one
/// `ExitRequested` event is dispatched; it directly follows the `IOData`
/// event that carried the stop signal — whose answer indeed asked to stop —
/// and shows the same line and number, no `IOData` event comes after it, and
/// the run still tears down with a final `Exited` or `KillError`.
pub proof fn lemma_exit_control(t: Seq<TraceStep>, p: int)
    requires
        trace_ok(t),
        0 <= p < t.len(),
        t[p].event == ProcessEvent::ExitRequested,
    ensures
        is_session_trace(t),
        p == t.len() - 2,
        t[p].line_number >= 1,
        t[p - 1].event == ProcessEvent::IOData,
        t[p - 1].line_number == t[p].line_number,
        t[p - 1].line == t[p].line,
        t[p - 1].answer.should_exit == Some(true),
        forall|j: int| p < j < t.len() ==> (#[trigger] t[j]).event != ProcessEvent::IOData,
        t[t.len() - 1].event == ProcessEvent::Exited || t[t.len() - 1].event
            == ProcessEvent::KillError,
        forall|j: int|
            0 <= j < t.len() && (#[trigger] t[j]).event == ProcessEvent::ExitRequested ==> j == p,
{
    assert(!is_rejection_trace(t));
    assert(!is_open_failure_trace(t));
    let k = t.len() - 4;
    assert(forall|i: int| 2 <= i < 2 + k ==> (#[trigger] t[i]).event == ProcessEvent::IOData);
    assert(p == t.len() - 2);
    assert(t[p - 1].event == ProcessEvent::IOData && t[p - 1].line_number == k);
}

/// Law: a stop answer on a data event is honoured: if any `IOData` step's
/// answer carries `should_exit == Some(true)`, that step is the run's last
/// data event, the very next event is `ExitRequested`, and no `IOData` event
/// follows.
pub proof fn lemma_stop_honoured(t: Seq<TraceStep>, i: int)
    requires
        trace_ok(t),
        0 <= i < t.len(),
        t[i].event == ProcessEvent::IOData,
        t[i].answer.should_exit == Some(true),
    ensures
        is_session_trace(t),
        i == t.len() - 3,
        t[i + 1].event == ProcessEvent::ExitRequested,
        forall|j: int| i < j < t.len() ==> (#[trigger] t[j]).event != ProcessEvent::IOData,
{
    assert(!is_rejection_trace(t));
    assert(!is_open_failure_trace(t));
    let k = t.len() - 4;
    assert(2 <= i < 2 + k);
}

} // verus!
