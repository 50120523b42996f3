//! The description of a single lesson, and the error raised when two
//! lessons share an id.

use vstd::prelude::*;

verus! {

/// What a registered lesson promises: an id that is unique within its
/// registry, the exact bytes its entry point is expected to write to
/// standard output, and whether it is expected to terminate abnormally.
///
/// The entry point itself is not part of this description: the harness's
/// caller keeps the pairing from id to callable and hands each execution
/// back as an [`crate::outcome::ExecutionResult`].
pub struct Lesson {
    pub id: String,
    pub expected_stdout: Vec<u8>,
    pub expect_abnormal_termination: bool,
}

/// Raised by [`crate::registry::LessonRegistry::register`] when the given
/// lesson's id is already registered. Carries the offending id.
#[derive(Debug)]
pub struct DuplicateIdError {
    pub id: String,
}

} // verus!
