//! A lesson execution and verification harness.
//!
//! A course is a sequence of lessons; each lesson pairs an entry point with
//! the transcript it is expected to produce on standard output and a flag
//! saying whether it is expected to terminate abnormally. The harness keeps
//! the lessons in a registry with unique ids, records one execution result
//! per lesson, compares each result against the lesson's expectation, and
//! aggregates one verdict per lesson, in registration order.
//!
//! Running the entry points themselves (redirecting output, catching
//! abnormal termination, enforcing timeouts) is the caller's concern: the
//! caller hands each execution back as an [`outcome::ExecutionResult`] and
//! the library does the bookkeeping and the comparison.

pub mod comparator;
pub mod lesson;
pub mod outcome;
pub mod registry;
pub mod report;
pub mod samples;
