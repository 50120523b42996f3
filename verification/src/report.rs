//! Aggregating verdicts into a report, one per registered lesson, in
//! registration order.

use vstd::prelude::*;

use crate::comparator::compare;
use crate::comparator::lemma_first_mismatch_unique;
use crate::comparator::verdict_matches;
use crate::comparator::Verdict;
use crate::lesson::Lesson;
use crate::outcome::ExecutionResult;
use crate::registry::LessonRegistry;

verus! {

/// One verdict per registered lesson, in registration order.
pub struct Report {
    pub verdicts: Vec<Verdict>,
}

/// Whether some execution result in the sequence carries the given
/// lesson id.
pub open spec fn has_result(results: Seq<ExecutionResult>, id: Seq<char>) -> bool {
    exists|j: int| 0 <= j < results.len() && (#[trigger] results[j]).lesson_id@ == id
}

/// `j` is the position of the first execution result carrying the given
/// lesson id. At most one position satisfies this.
pub open spec fn is_first_result(results: Seq<ExecutionResult>, id: Seq<char>, j: int) -> bool {
    &&& 0 <= j < results.len()
    &&& results[j].lesson_id@ == id
    &&& forall|k: int| 0 <= k < j ==> (#[trigger] results[k]).lesson_id@ != id
}

/// Wherever some result carries the id, a first such result exists.
pub proof fn lemma_first_result_exists(results: Seq<ExecutionResult>, id: Seq<char>)
    requires
        has_result(results, id),
    ensures
        exists|j: int| is_first_result(results, id, j),
{
    let j = choose|j: int| 0 <= j < results.len() && (#[trigger] results[j]).lesson_id@ == id;
    lemma_first_result_at_or_before(results, id, j);
}

proof fn lemma_first_result_at_or_before(results: Seq<ExecutionResult>, id: Seq<char>, j: int)
    requires
        0 <= j < results.len(),
        results[j].lesson_id@ == id,
    ensures
        exists|k: int| is_first_result(results, id, k),
    decreases j,
{
    if forall|k: int| 0 <= k < j ==> (#[trigger] results[k]).lesson_id@ != id {
        assert(is_first_result(results, id, j));
    } else {
        let k = choose|k: int| 0 <= k < j && (#[trigger] results[k]).lesson_id@ == id;
        lemma_first_result_at_or_before(results, id, k);
    }
}

/// Everything [`build_report`] promises of a report built from the given
/// registry and results: one verdict per lesson, in registration order,
/// each agreeing with the comparison of its lesson against the first
/// result that carries the lesson's id.
pub open spec fn report_built_from(
    registry: LessonRegistry,
    results: Seq<ExecutionResult>,
    report: Report,
) -> bool {
    &&& report.verdicts@.len() == registry@.len()
    &&& forall|i: int|
        0 <= i < registry@.len() ==> (#[trigger] report.verdicts@[i]).lesson_id@
            == registry@[i].id@
    &&& forall|i: int, j: int|
        0 <= i < registry@.len() && #[trigger] is_first_result(results, registry@[i].id@, j)
            ==> verdict_matches(report.verdicts@[i], registry@[i], results[j])
}

/// The position of the first execution result carrying the given lesson
/// id, or `None` when no result does.
pub fn find_result(results: &Vec<ExecutionResult>, id: &String) -> (found: Option<usize>)
    ensures
        found is None <==> !has_result(results@, id@),
        found matches Some(j) ==> is_first_result(results@, id@, j as int),
{
    let n = results.len();
    let mut j: usize = 0;
    while j < n
        invariant
            j <= n,
            n == results@.len(),
            forall|k: int| 0 <= k < j ==> (#[trigger] results@[k]).lesson_id@ != id@,
        decreases n - j,
    {
        if results[j].lesson_id == *id {
            return Some(j);
        }
        j += 1;
    }
    None
}

/// Builds the report for one harness invocation: for each registered
/// lesson, in registration order, the verdict of comparing it against the
/// first execution result that carries its id. Every registered lesson
/// must have been handed a result; none is skipped or duplicated.
pub fn build_report(registry: &LessonRegistry, results: &Vec<ExecutionResult>) -> (report: Report)
    requires
        forall|i: int|
            0 <= i < registry@.len() ==> has_result(results@, (#[trigger] registry@[i]).id@),
    ensures
        report_built_from(*registry, results@, report),
{
    let n = registry.len();
    let mut verdicts: Vec<Verdict> = Vec::new();
    let mut i: usize = 0;
    while i < n
        invariant
            i <= n,
            n == registry@.len(),
            verdicts@.len() == i,
            forall|p: int|
                0 <= p < registry@.len() ==> has_result(results@, (#[trigger] registry@[p]).id@),
            forall|p: int|
                0 <= p < i ==> (#[trigger] verdicts@[p]).lesson_id@ == registry@[p].id@,
            forall|p: int, q: int|
                0 <= p < i && #[trigger] is_first_result(results@, registry@[p].id@, q)
                    ==> verdict_matches(verdicts@[p], registry@[p], results@[q]),
        decreases n - i,
    {
        let lesson = registry.get(i);
        let j = find_result(results, &lesson.id).unwrap();
        let verdict = compare(lesson, &results[j]);
        proof {
            assert forall|q: int| is_first_result(results@, registry@[i as int].id@, q)
                implies q == j as int by {
                if q < j as int {
                    assert(results@[q].lesson_id@ != registry@[i as int].id@);
                } else if q > j as int {
                    assert(results@[j as int].lesson_id@ != registry@[i as int].id@);
                }
            }
        }
        verdicts.push(verdict);
        i += 1;
    }
    Report { verdicts }
}

/// Two verdicts that satisfy the comparator's contract for the same lesson
/// and the same result agree on everything observable: comparison is
/// deterministic.
pub proof fn lemma_verdict_determined(
    lesson: Lesson,
    result: ExecutionResult,
    a: Verdict,
    b: Verdict,
)
    requires
        verdict_matches(a, lesson, result),
        verdict_matches(b, lesson, result),
    ensures
        a.lesson_id@ == b.lesson_id@,
        a.passed == b.passed,
        a.diff == b.diff,
{
    if !crate::comparator::stdout_matches(lesson, result) {
        let offset_a = a.diff->Some_0->Stdout_offset;
        let offset_b = b.diff->Some_0->Stdout_offset;
        lemma_first_mismatch_unique(
            lesson.expected_stdout@,
            result.captured_stdout@,
            offset_a as int,
            offset_b as int,
        );
    }
}

/// The harness is idempotent: two reports built from the same registry and
/// the same execution results agree on every verdict — same length, same
/// ids, same pass flags, same diffs.
pub proof fn lemma_report_deterministic(
    registry: LessonRegistry,
    results: Seq<ExecutionResult>,
    first: Report,
    second: Report,
)
    requires
        forall|i: int|
            0 <= i < registry@.len() ==> has_result(results, (#[trigger] registry@[i]).id@),
        report_built_from(registry, results, first),
        report_built_from(registry, results, second),
    ensures
        first.verdicts@.len() == second.verdicts@.len(),
        forall|i: int|
            0 <= i < registry@.len() ==> {
                &&& (#[trigger] first.verdicts@[i]).lesson_id@ == second.verdicts@[i].lesson_id@
                &&& first.verdicts@[i].passed == second.verdicts@[i].passed
                &&& first.verdicts@[i].diff == second.verdicts@[i].diff
            },
{
    assert forall|i: int| 0 <= i < registry@.len() implies {
        &&& (#[trigger] first.verdicts@[i]).lesson_id@ == second.verdicts@[i].lesson_id@
        &&& first.verdicts@[i].passed == second.verdicts@[i].passed
        &&& first.verdicts@[i].diff == second.verdicts@[i].diff
    } by {
        lemma_first_result_exists(results, registry@[i].id@);
        let j = choose|j: int| is_first_result(results, registry@[i].id@, j);
        assert(verdict_matches(first.verdicts@[i], registry@[i], results[j]));
        assert(verdict_matches(second.verdicts@[i], registry@[i], results[j]));
        lemma_verdict_determined(registry@[i], results[j], first.verdicts@[i], second.verdicts@[i]);
    }
}

/// No lesson id appears twice in a report whose registry holds pairwise
/// distinct ids.
pub proof fn lemma_one_verdict_per_lesson(
    registry: LessonRegistry,
    results: Seq<ExecutionResult>,
    report: Report,
    a: int,
    b: int,
)
    requires
        registry.wf(),
        report_built_from(registry, results, report),
        0 <= a < report.verdicts@.len(),
        0 <= b < report.verdicts@.len(),
        report.verdicts@[a].lesson_id@ == report.verdicts@[b].lesson_id@,
    ensures
        a == b,
{
}

} // verus!
