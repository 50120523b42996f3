//! Comparing an execution result against a lesson's expectation.
//!
//! Comparison is a pure, total function: it never fails, it only classifies.
//! A lesson passes when the captured bytes equal the expected bytes and the
//! termination status equals the expected status; on a mismatch the verdict
//! carries a diff naming the first differing byte offset, or the
//! termination-status mismatch.

use vstd::prelude::*;

use crate::lesson::Lesson;
use crate::outcome::ExecutionResult;

verus! {

/// What a failed verdict points at: either the first byte offset at which
/// the captured output departs from the expected output (the length of the
/// shorter side, when one is a strict prefix of the other), or a
/// termination-status mismatch.
#[derive(Clone, Copy, PartialEq, Eq, Debug)]
pub enum Diff {
    Stdout { offset: usize },
    Termination { expected_abnormal: bool, actual_abnormal: bool },
}

/// The outcome of comparing one execution result against one lesson:
/// passed, or failed with a diff.
#[derive(Debug)]
pub struct Verdict {
    pub lesson_id: String,
    pub passed: bool,
    pub diff: Option<Diff>,
}

/// Whether the captured output is exactly the expected output.
pub open spec fn stdout_matches(lesson: Lesson, result: ExecutionResult) -> bool {
    result.captured_stdout@ == lesson.expected_stdout@
}

/// Whether the execution terminated the way the lesson expects.
pub open spec fn termination_matches(lesson: Lesson, result: ExecutionResult) -> bool {
    result.terminated_abnormally == lesson.expect_abnormal_termination
}

/// A lesson passes exactly when both the output and the termination status
/// match the expectation.
pub open spec fn lesson_passes(lesson: Lesson, result: ExecutionResult) -> bool {
    stdout_matches(lesson, result) && termination_matches(lesson, result)
}

/// `offset` is the first position at which `expected` and `actual` differ:
/// they agree on everything before it, and either both still have a byte
/// there and those bytes differ, or one sequence ends there while the other
/// goes on. No offset satisfies this for equal sequences, and for unequal
/// ones exactly one does ([`lemma_first_mismatch_unique`]).
pub open spec fn is_first_mismatch(expected: Seq<u8>, actual: Seq<u8>, offset: int) -> bool {
    &&& 0 <= offset <= expected.len()
    &&& offset <= actual.len()
    &&& forall|j: int| 0 <= j < offset ==> expected[j] == actual[j]
    &&& (offset < expected.len() && offset < actual.len() ==> expected[offset] != actual[offset])
    &&& ((offset == expected.len() || offset == actual.len()) ==> expected.len() != actual.len())
}

/// The first mismatch offset is unique: the comparator's contract pins it.
pub proof fn lemma_first_mismatch_unique(expected: Seq<u8>, actual: Seq<u8>, a: int, b: int)
    requires
        is_first_mismatch(expected, actual, a),
        is_first_mismatch(expected, actual, b),
    ensures
        a == b,
{
}

/// Everything [`compare`] promises of a verdict, as one predicate, so that
/// callers aggregating verdicts can restate it verbatim.
pub open spec fn verdict_matches(verdict: Verdict, lesson: Lesson, result: ExecutionResult) -> bool {
    &&& verdict.lesson_id@ == lesson.id@
    &&& verdict.passed == lesson_passes(lesson, result)
    &&& (verdict.passed <==> verdict.diff is None)
    &&& (!stdout_matches(lesson, result) ==> {
        &&& verdict.diff matches Some(Diff::Stdout { offset })
        &&& is_first_mismatch(lesson.expected_stdout@, result.captured_stdout@, offset as int)
    })
    &&& (stdout_matches(lesson, result) && !termination_matches(lesson, result)
        ==> verdict.diff == Some(Diff::Termination {
            expected_abnormal: lesson.expect_abnormal_termination,
            actual_abnormal: result.terminated_abnormally,
        }))
}

/// The first offset at which the two byte vectors differ, or `None` when
/// they are equal.
pub fn first_mismatch(expected: &Vec<u8>, actual: &Vec<u8>) -> (found: Option<usize>)
    ensures
        found is None <==> expected@ == actual@,
        found matches Some(offset) ==> is_first_mismatch(expected@, actual@, offset as int),
{
    let shorter: usize = if expected.len() <= actual.len() {
        expected.len()
    } else {
        actual.len()
    };
    let mut i: usize = 0;
    while i < shorter
        invariant
            i <= shorter,
            shorter <= expected@.len(),
            shorter <= actual@.len(),
            shorter == expected@.len() || shorter == actual@.len(),
            forall|j: int| 0 <= j < i ==> expected@[j] == actual@[j],
        decreases shorter - i,
    {
        if expected[i] != actual[i] {
            return Some(i);
        }
        i += 1;
    }
    if expected.len() != actual.len() {
        Some(shorter)
    } else {
        proof {
            assert(expected@ =~= actual@);
        }
        None
    }
}

/// Classifies one execution result against one lesson. Pure and total: it
/// passes exactly when the captured output and the termination status both
/// match the expectation, and otherwise carries the diff that
/// [`verdict_matches`] describes, the output mismatch taking precedence.
pub fn compare(lesson: &Lesson, result: &ExecutionResult) -> (verdict: Verdict)
    ensures
        verdict_matches(verdict, *lesson, *result),
{
    let lesson_id = lesson.id.clone();
    match first_mismatch(&lesson.expected_stdout, &result.captured_stdout) {
        Some(offset) => Verdict {
            lesson_id,
            passed: false,
            diff: Some(Diff::Stdout { offset }),
        },
        None => {
            if result.terminated_abnormally == lesson.expect_abnormal_termination {
                Verdict { lesson_id, passed: true, diff: None }
            } else {
                Verdict {
                    lesson_id,
                    passed: false,
                    diff: Some(Diff::Termination {
                        expected_abnormal: lesson.expect_abnormal_termination,
                        actual_abnormal: result.terminated_abnormally,
                    }),
                }
            }
        },
    }
}

} // verus!
