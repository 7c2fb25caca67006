//! The per-event observation handed to the observer.

use std::sync::Arc;
use vstd::prelude::*;

use crate::process_io::{reader_kill, reader_pids};
use crate::request::{ProcessObserver, ProcessRequest};
use crate::ProcessEvent;

verus! {

/// What the observer sees at each event: the run's request, the line counter,
/// the current line (or a diagnostic message), and — only while the chain is
/// running — a non-owning handle for killing the chain and listing its
/// children.
pub struct ProcessData<'a, C> {
    /// The request this run serves
    pub request: Option<Arc<ProcessRequest<C>>>,
    /// 1-based count of the output lines delivered so far; 0 before the first
    pub line_number: i64,
    /// One line of the merged output, or a diagnostic message for non-data
    /// events; empty otherwise
    pub line: String,
    /// Handle of the running chain.  The engine lends it out only during the
    /// read phase and takes it away at teardown; it is never owned here.
    pub reader: Option<&'a duct::ReaderHandle>,
}

impl<'a, C> ProcessData<'a, C> {
    /// Whether the observation carries a live reader handle.  It does only
    /// while the engine is inside the run's read phase.
    pub open spec fn is_live(self) -> bool {
        self.reader is Some
    }

    /// Create an empty observation: no request, no reader, counter at zero.
    pub fn new() -> (r: Self)
        ensures
            r.request is None,
            r.line_number == 0,
            r.line@ == Seq::<char>::empty(),
            !r.is_live(),
    {
        Self { request: None, line_number: 0, line: String::new(), reader: None }
    }
}

impl<'a, C: ProcessObserver> ProcessData<'a, C> {
    /// Kill the running chain.  Dispatches `KillRequested` to the run's
    /// observer first.  Once the run has torn down (no live reader), killing
    /// is a successful no-op and no event is dispatched.
    pub fn kill(&self) -> (r: Result<(), std::io::Error>)
        ensures
            !self.is_live() ==> r is Ok,
    {
        match self.reader {
            Some(reader) => {
                match &self.request {
                    Some(request) => {
                        crate::engine::check_and_trigger_callback(
                            request,
                            &ProcessEvent::KillRequested,
                            self,
                        );
                    },
                    None => {},
                }
                reader_kill(reader)
            },
            None => Ok(()),
        }
    }

    /// The ids of the chain's child processes, in pipeline order; empty once
    /// the run has torn down.
    pub fn child_pids(&self) -> (r: Vec<u32>)
        ensures
            !self.is_live() ==> r@ == Seq::<u32>::empty(),
    {
        match self.reader {
            Some(reader) => reader_pids(reader),
            None => Vec::new(),
        }
    }
}

} // verus!
