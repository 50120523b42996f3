//! What one execution of a lesson's entry point produced.

use vstd::prelude::*;
use vstd::string::StringExecFns;

verus! {

/// The observable outcome of running one lesson's entry point: the bytes it
/// wrote to standard output, whether it terminated abnormally, and, if it
/// did, whatever diagnostic message was available. Built by the caller that
/// actually ran the entry point, then handed to the comparator.
pub struct ExecutionResult {
    pub lesson_id: String,
    pub captured_stdout: Vec<u8>,
    pub terminated_abnormally: bool,
    pub termination_message: Option<String>,
}

impl ExecutionResult {
    /// The outcome of an entry point that ran to completion, having written
    /// the given bytes.
    pub fn completed(lesson_id: String, captured_stdout: Vec<u8>) -> (result: Self)
        ensures
            result.lesson_id == lesson_id,
            result.captured_stdout == captured_stdout,
            !result.terminated_abnormally,
            result.termination_message is None,
    {
        ExecutionResult {
            lesson_id,
            captured_stdout,
            terminated_abnormally: false,
            termination_message: None,
        }
    }

    /// The outcome of an entry point that terminated abnormally after
    /// writing the given bytes, with whatever diagnostic was available.
    pub fn aborted(
        lesson_id: String,
        captured_stdout: Vec<u8>,
        termination_message: Option<String>,
    ) -> (result: Self)
        ensures
            result.lesson_id == lesson_id,
            result.captured_stdout == captured_stdout,
            result.terminated_abnormally,
            result.termination_message == termination_message,
    {
        ExecutionResult {
            lesson_id,
            captured_stdout,
            terminated_abnormally: true,
            termination_message,
        }
    }

    /// The outcome of an entry point that was still running when its time
    /// allowance expired: an abnormal termination whose diagnostic is the
    /// word `timeout`, with nothing captured.
    pub fn timed_out(lesson_id: String) -> (result: Self)
        ensures
            result.lesson_id == lesson_id,
            result.captured_stdout@ == Seq::<u8>::empty(),
            result.terminated_abnormally,
            result.termination_message matches Some(m) && m@ == "timeout"@,
    {
        ExecutionResult {
            lesson_id,
            captured_stdout: Vec::new(),
            terminated_abnormally: true,
            termination_message: Some(String::from_str("timeout")),
        }
    }
}

} // verus!
