//! The request that starts a run, and the observer capability it may carry.

use std::sync::Arc;
use vstd::prelude::*;

use crate::data::ProcessData;
use crate::result::ProcessResult;
use crate::ProcessEvent;

verus! {

/// The capability of receiving one life-cycle event together with the run's
/// current observation, and answering with a control decision (`should_exit`)
/// and an optional result payload.
///
/// Implementations live with the caller; the engine promises nothing about
/// what they return and keeps only the most recent answer.
pub trait ProcessObserver: Sized {
    /// Receive one event.  `data` is valid only for the duration of the call.
    fn on_event<'a>(&self, event: &ProcessEvent, data: &ProcessData<'a, Self>) -> ProcessResult;
}

/// An observer that ignores every event and answers with a fresh result.
pub struct NullObserver;

impl ProcessObserver for NullObserver {
    fn on_event<'a>(&self, event: &ProcessEvent, data: &ProcessData<'a, Self>) -> ProcessResult {
        ProcessResult::new()
    }
}

/// A request to run one command, or a pipeline of commands, streaming the
/// merged output line by line to the observer.
pub struct ProcessRequest<C> {
    /// Caller-assigned id, relating the callbacks of one run; never inspected
    /// by the engine
    pub request_id: u32,
    /// Shell-interpret each stage, rather than direct-exec its first token
    pub use_shell: bool,
    /// A hint to the embedding scheduler: run on a dedicated worker thread
    /// rather than on the caller's thread.  The engine itself always runs
    /// where it is called; scheduling belongs to the embedding.
    pub non_blocking_mode: bool,
    /// The stages, one command line each: the tokens of a program and its
    /// arguments, or the tokens handed to the shell.  An empty outer vector
    /// or an empty first stage is invalid and is rejected with `StartError`.
    pub cmd_line: Vec<Vec<String>>,
    /// The observer that receives the run's events, or `None` for no
    /// callbacks
    pub callback: Option<Arc<C>>,
}

/// A stage list the engine accepts: at least one stage, and a first stage
/// with at least one token.
pub open spec fn stages_wf(stages: Seq<Seq<Seq<char>>>) -> bool {
    stages.len() > 0 && stages[0].len() > 0
}

/// Every stage after the first has a program token.  Direct execution reads
/// the first token of each stage as the program path, so a run without shell
/// interpretation needs this of its stages.
pub open spec fn later_stages_nonempty(stages: Seq<Seq<Seq<char>>>) -> bool {
    forall|i: int| 1 <= i < stages.len() ==> stages[i].len() > 0
}

impl<C: ProcessObserver> ProcessRequest<C> {
    /// Run the request on the calling thread: validate it, build the chain,
    /// stream its output to the observer, and assemble the final result.
    ///
    /// This entry point is `crate::start_process` with the trace dropped: the
    /// dispatched events follow one of the shapes of `crate::trace_ok` — a
    /// rejection exactly when the stage list is invalid — and the result is
    /// the answer recorded at the trace's `crate::result_index` step.
    pub fn start(process_request: ProcessRequest<C>) -> (r: ProcessResult)
        requires
            process_request.use_shell || later_stages_nonempty(
                process_request.cmd_line.deep_view(),
            ),
        ensures
            exists|t: Seq<crate::trace::TraceStep>|
                {
                    &&& #[trigger] crate::trace::trace_ok(t)
                    &&& (crate::trace::is_rejection_trace(t) <==> !stages_wf(
                        process_request.cmd_line.deep_view(),
                    ))
                    &&& r == t[crate::trace::result_index(t)].answer
                },
            process_request.callback is None ==> r.is_fresh(),
    {
        let request = Arc::new(process_request);
        let (result, trace) = crate::engine::start_process(request);
        proof {
            let t = trace@;
            assert(crate::trace::trace_ok(t) && result == t[crate::trace::result_index(t)].answer);
        }
        result
    }
}

} // verus!
