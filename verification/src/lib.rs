//! A process-execution engine: runs one or more external programs, optionally
//! chained as a pipeline, streams their merged output line by line to a
//! caller-supplied observer, and lets the observer inspect, redirect or
//! terminate the run mid-flight through the events it receives.
//!
//! The underlying process-spawning substrate is the `duct` crate, trusted
//! through the narrow boundary in `process_io`.  Everything else — pipeline
//! construction, the event-dispatch state machine, line counting, result
//! assembly — is verified: `start_process` returns, beside the result, a
//! ghost trace of the dispatched events, and its contract pins the trace to
//! the shapes of `trace_ok`.
//!
//! Scheduling is the embedding's concern: the engine always runs where it is
//! called, and the request's `non_blocking_mode` flag is only carried along
//! as a hint for an outer scheduler.  Delivered lines keep their trailing
//! newline.

use vstd::prelude::*;

mod data;
mod engine;
mod pipeline;
mod process_io;
mod request;
mod result;
mod trace;

pub use data::ProcessData;
pub use engine::start_process;
pub use pipeline::{joined_tokens, pipeline_cmds, shell_argv, stage_argv};
pub use process_io::expr_cmds;
pub use request::{later_stages_nonempty, stages_wf, NullObserver, ProcessObserver, ProcessRequest};
pub use result::ProcessResult;
pub use trace::{
    data_steps_ok, is_loop_exit, is_open_failure_trace, is_rejection_trace, is_session_trace,
    is_step, is_teardown, lemma_exit_control, lemma_io_data_lines, lemma_stop_honoured,
    lemma_terminal_event, result_index, stop_honoured, trace_ok, TraceStep,
};

verus! {

/// Events of a process run's life cycle.
#[derive(Debug, Clone, Copy, PartialEq, Eq, Structural)]
pub enum ProcessEvent {
    /// Default value placeholder
    _Unknown,
    /// Process is starting but not yet started
    Starting,
    /// Process is started
    Started,
    /// Error occurred while starting the process itself
    StartError,
    /// Process started but an error occurred while reading its output
    IOError,
    /// The output reader reached the end of the process's output
    IOEof,
    /// A line of the process's output is available
    IOData,
    /// The observer asked to stop the run
    ExitRequested,
    /// The kill operation was used on the running process
    KillRequested,
    /// A process that was started earlier has now exited
    Exited,
    /// An error occurred while killing the process
    KillError,
}

} // verus!
