//! The execution driver: validates a request, opens its chain, drives the
//! read loop, dispatches the life-cycle events, and assembles the result.

use std::sync::Arc;
use vstd::prelude::*;

use crate::data::ProcessData;
use crate::pipeline::handle_pipeline;
use crate::process_io::{
    arc_clone, buf_reader_new, duct_reader, duct_stderr_to_stdout, read_one_line, reader_kill,
};
use crate::request::{later_stages_nonempty, stages_wf, ProcessObserver, ProcessRequest};
use crate::result::ProcessResult;
use crate::trace::{
    data_steps_ok, is_loop_exit, is_rejection_trace, result_index, stop_honoured, trace_ok,
    TraceStep,
};
use crate::ProcessEvent;

verus! {

/// Dispatch one event: hand it to the request's observer if one is
/// registered, else answer with a fresh result.
pub(crate) fn check_and_trigger_callback<'a, C: ProcessObserver>(
    request: &Arc<ProcessRequest<C>>,
    event: &ProcessEvent,
    data: &ProcessData<'a, C>,
) -> (r: ProcessResult)
    ensures
        (*request).callback is None ==> r.is_fresh(),
{
    match &request.callback {
        Some(callback) => callback.on_event(event, data),
        None => ProcessResult::new(),
    }
}

/// Run one request on the calling thread and return the assembled result
/// together with the trace of the events that were dispatched.
///
/// The trace always has one of the three shapes of `trace_ok`: a lone
/// `StartError` exactly when the stage list is invalid (nothing is spawned
/// then); `Starting` then `StartError` when the chain cannot be opened; or a
/// full session — `Starting`, `Started`, the `IOData` events numbered
/// 1, 2, ... without gaps, one loop-exit event (`ExitRequested` if and only
/// if the last data answer asked to stop), and one unconditional teardown
/// event.  Every step carries the submitted request's id: each dispatch is
/// correlated to this run's request and nothing else.
///
/// The result is the recorded answer of the trace's `result_index` step: the
/// observer's answer to the most recent dispatch before teardown.  Answers of
/// loop-exit and teardown events are dispatched but not kept; with no
/// observer registered the result stays fresh.
pub fn start_process<C: ProcessObserver>(request: Arc<ProcessRequest<C>>) -> (r: (
    ProcessResult,
    Ghost<Seq<TraceStep>>,
))
    requires
        (*request).use_shell || later_stages_nonempty((*request).cmd_line.deep_view()),
    ensures
        trace_ok(r.1@),
        is_rejection_trace(r.1@) <==> !stages_wf((*request).cmd_line.deep_view()),
        r.0 == r.1@[result_index(r.1@)].answer,
        forall|i: int|
            0 <= i < r.1@.len() ==> (#[trigger] r.1@[i]).request_id == (*request).request_id
                as int,
        (*request).callback is None ==> r.0.is_fresh(),
{
    let ghost mut trace: Seq<TraceStep> = Seq::empty();
    let mut process_result = ProcessResult::new();
    let mut process_data: ProcessData<C> = ProcessData {
        request: Some(arc_clone(&request)),
        line_number: 0,
        line: String::new(),
        reader: None,
    };

    if request.cmd_line.len() == 0 || request.cmd_line[0].len() == 0 {
        process_data.line = "Command line - arguments are unavailable!".to_owned();
        let result = check_and_trigger_callback(&request, &ProcessEvent::StartError, &process_data);
        proof {
            trace = trace.push(
                TraceStep {
                    event: ProcessEvent::StartError,
                    line_number: 0,
                    line: process_data.line@,
                    request_id: (*request).request_id as int,
                    answer: result,
                },
            );
        }
        return (result, Ghost(trace));
    }

    process_data.line = "Executing the process request".to_owned();
    process_result = check_and_trigger_callback(&request, &ProcessEvent::Starting, &process_data);
    proof {
        trace = trace.push(
            TraceStep {
                event: ProcessEvent::Starting,
                line_number: 0,
                line: process_data.line@,
                request_id: (*request).request_id as int,
                answer: process_result,
            },
        );
    }

    let expression = handle_pipeline(&request.cmd_line, request.use_shell);
    let merged = duct_stderr_to_stdout(&expression);
    match duct_reader(&merged) {
        Err(message) => {
            process_data.line = message;
            process_result = check_and_trigger_callback(
                &request,
                &ProcessEvent::StartError,
                &process_data,
            );
            proof {
                trace = trace.push(
                    TraceStep {
                        event: ProcessEvent::StartError,
                        line_number: 0,
                        line: process_data.line@,
                        request_id: (*request).request_id as int,
                        answer: process_result,
                    },
                );
            }
            process_data.request = None;
            (process_result, Ghost(trace))
        },
        Ok(reader) => {
            process_data.reader = Some(&reader);
            process_data.line = String::new();
            process_result = check_and_trigger_callback(
                &request,
                &ProcessEvent::Started,
                &process_data,
            );
            proof {
                trace = trace.push(
                    TraceStep {
                        event: ProcessEvent::Started,
                        line_number: 0,
                        line: process_data.line@,
                        request_id: (*request).request_id as int,
                        answer: process_result,
                    },
                );
            }
            let mut buffer_reader = buf_reader_new(&reader);
            loop
                invariant_except_break
                    process_data.request == Some(request),
                    process_data.reader is Some,
                    0 <= process_data.line_number,
                    trace.len() == 2 + process_data.line_number as int,
                    trace[0].event == ProcessEvent::Starting && trace[0].line_number == 0,
                    trace[1].event == ProcessEvent::Started && trace[1].line_number == 0,
                    trace[1].line.len() == 0,
                    data_steps_ok(trace, process_data.line_number as int),
                    forall|i: int|
                        2 <= i < trace.len() as int ==> (#[trigger] trace[i]).answer.should_exit
                            != Some(true),
                    forall|i: int|
                        0 <= i < trace.len() as int ==> (#[trigger] trace[i]).request_id == (
                        *request).request_id as int,
                    process_result == trace[trace.len() - 1].answer,
                    (*request).callback is None ==> process_result.is_fresh(),
                ensures
                    process_data.request == Some(request),
                    process_data.reader is Some,
                    0 <= process_data.line_number,
                    trace.len() == 3 + process_data.line_number as int,
                    trace[0].event == ProcessEvent::Starting && trace[0].line_number == 0,
                    trace[1].event == ProcessEvent::Started && trace[1].line_number == 0,
                    trace[1].line.len() == 0,
                    data_steps_ok(trace, process_data.line_number as int),
                    stop_honoured(trace, process_data.line_number as int),
                    is_loop_exit(trace[trace.len() - 1], process_data.line_number as int),
                    trace[trace.len() - 1].event == ProcessEvent::ExitRequested ==> trace[trace.len()
                        - 1].line == trace[trace.len() - 2].line,
                    forall|i: int|
                        0 <= i < trace.len() as int ==> (#[trigger] trace[i]).request_id == (
                        *request).request_id as int,
                    process_result == trace[trace.len() - 2].answer,
                    (*request).callback is None ==> process_result.is_fresh(),
                decreases i64::MAX - process_data.line_number,
            {
                process_data.line = String::new();
                let read_result = read_one_line(&mut buffer_reader, &mut process_data.line);
                match read_result {
                    Ok(bytes_read) => {
                        if bytes_read == 0 {
                            let late = check_and_trigger_callback(
                                &request,
                                &ProcessEvent::IOEof,
                                &process_data,
                            );
                            proof {
                                trace = trace.push(
                                    TraceStep {
                                        event: ProcessEvent::IOEof,
                                        line_number: process_data.line_number as int,
                                        line: process_data.line@,
                                        request_id: (*request).request_id as int,
                                        answer: late,
                                    },
                                );
                            }
                            break;
                        } else if process_data.line_number == i64::MAX {
                            // The line counter cannot grow further; end the
                            // run as a read failure rather than miscount.
                            process_data.line = "Line counter exhausted".to_owned();
                            let late = check_and_trigger_callback(
                                &request,
                                &ProcessEvent::IOError,
                                &process_data,
                            );
                            proof {
                                trace = trace.push(
                                    TraceStep {
                                        event: ProcessEvent::IOError,
                                        line_number: process_data.line_number as int,
                                        line: process_data.line@,
                                        request_id: (*request).request_id as int,
                                        answer: late,
                                    },
                                );
                            }
                            break;
                        } else {
                            process_data.line_number = process_data.line_number + 1;
                            process_result = check_and_trigger_callback(
                                &request,
                                &ProcessEvent::IOData,
                                &process_data,
                            );
                            proof {
                                trace = trace.push(
                                    TraceStep {
                                        event: ProcessEvent::IOData,
                                        line_number: process_data.line_number as int,
                                        line: process_data.line@,
                                        request_id: (*request).request_id as int,
                                        answer: process_result,
                                    },
                                );
                            }
                            let stop = match process_result.should_exit {
                                Some(flag) => flag,
                                None => false,
                            };
                            if stop {
                                let late = check_and_trigger_callback(
                                    &request,
                                    &ProcessEvent::ExitRequested,
                                    &process_data,
                                );
                                proof {
                                    trace = trace.push(
                                        TraceStep {
                                            event: ProcessEvent::ExitRequested,
                                            line_number: process_data.line_number as int,
                                            line: process_data.line@,
                                            request_id: (*request).request_id as int,
                                            answer: late,
                                        },
                                    );
                                }
                                break;
                            }
                        }
                    },
                    Err(message) => {
                        process_data.line = message;
                        let late = check_and_trigger_callback(
                            &request,
                            &ProcessEvent::IOError,
                            &process_data,
                        );
                        proof {
                            trace = trace.push(
                                TraceStep {
                                    event: ProcessEvent::IOError,
                                    line_number: process_data.line_number as int,
                                    line: process_data.line@,
                                    request_id: (*request).request_id as int,
                                    answer: late,
                                },
                            );
                        }
                        break;
                    },
                }
            }
            process_data.line = String::new();
            match reader_kill(&reader) {
                Ok(_) => {
                    let late = check_and_trigger_callback(
                        &request,
                        &ProcessEvent::Exited,
                        &process_data,
                    );
                    proof {
                        trace = trace.push(
                            TraceStep {
                                event: ProcessEvent::Exited,
                                line_number: process_data.line_number as int,
                                line: process_data.line@,
                                request_id: (*request).request_id as int,
                                answer: late,
                            },
                        );
                    }
                },
                Err(_) => {
                    let late = check_and_trigger_callback(
                        &request,
                        &ProcessEvent::KillError,
                        &process_data,
                    );
                    proof {
                        trace = trace.push(
                            TraceStep {
                                event: ProcessEvent::KillError,
                                line_number: process_data.line_number as int,
                                line: process_data.line@,
                                request_id: (*request).request_id as int,
                                answer: late,
                            },
                        );
                    }
                },
            }
            process_data.request = None;
            process_data.reader = None;
            (process_result, Ghost(trace))
        },
    }
}

} // verus!
