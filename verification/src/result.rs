//! The result a run hands back to its caller.

use vstd::prelude::*;

verus! {

/// Data produced by one process run, returned to the caller.
///
/// The engine keeps the return value of the most recent observer call made
/// for a `Starting`, `Started` or `IOData` event; the observer fills the
/// `data_*` fields to smuggle its own findings out of the event stream.
#[derive(Debug)]
pub struct ProcessResult {
    /// Whether the observer asked to stop the run early
    pub should_exit: Option<bool>,
    /// Whether the run reached the outcome the observer wanted, or the
    /// operating-system error that prevented it
    pub success: Result<bool, std::io::Error>,
    /// Observer-supplied data: a list of strings
    pub data_vec_str: Option<Vec<String>>,
    /// Observer-supplied data: a truth value
    pub data_bool: Option<bool>,
    /// Observer-supplied data: an integer
    pub data_num: Option<i128>,
    /// Observer-supplied data: the bit pattern of an IEEE 754 binary64 number
    pub data_decimal: Option<u64>,
}

impl ProcessResult {
    /// A result that carries nothing yet: no exit request, no success claim,
    /// no data.
    pub open spec fn is_fresh(self) -> bool {
        &&& self.should_exit is None
        &&& self.success matches Ok(b) && !b
        &&& self.data_vec_str is None
        &&& self.data_bool is None
        &&& self.data_num is None
        &&& self.data_decimal is None
    }

    /// Create a fresh result.
    pub fn new() -> (r: Self)
        ensures
            r.is_fresh(),
    {
        Self {
            should_exit: None,
            success: Ok(false),
            data_vec_str: None,
            data_bool: None,
            data_num: None,
            data_decimal: None,
        }
    }

    /// Record the observer's stop decision and success claim, leaving the
    /// data fields as they are.
    pub fn set_exit_flag_and_success(
        &mut self,
        should_exit: bool,
        success: Result<bool, std::io::Error>,
    )
        ensures
            final(self).should_exit == Some(should_exit),
            final(self).success == success,
            final(self).data_vec_str == old(self).data_vec_str,
            final(self).data_bool == old(self).data_bool,
            final(self).data_num == old(self).data_num,
            final(self).data_decimal == old(self).data_decimal,
    {
        self.should_exit = Some(should_exit);
        self.success = success;
    }
}

} // verus!
