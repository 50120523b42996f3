use lesson_harness::comparator::compare;
use lesson_harness::comparator::Diff;
use lesson_harness::lesson::Lesson;
use lesson_harness::outcome::ExecutionResult;
use lesson_harness::registry::LessonRegistry;
use lesson_harness::report::build_report;

fn lesson(id: &str, expected_stdout: &[u8], expect_abnormal_termination: bool) -> Lesson {
    Lesson {
        id: id.to_string(),
        expected_stdout: expected_stdout.to_vec(),
        expect_abnormal_termination,
    }
}

#[test]
fn hello_world_lesson_passes() {
    let l = lesson("hello-world", b"Hello, world!\n", false);
    let r = ExecutionResult::completed("hello-world".to_string(), b"Hello, world!\n".to_vec());
    let v = compare(&l, &r);
    assert!(v.passed);
    assert_eq!(v.lesson_id, "hello-world");
    assert_eq!(v.diff, None);
}

#[test]
fn expected_abnormal_termination_passes() {
    let l = lesson("assert-fails", b"", true);
    let r = ExecutionResult::aborted(
        "assert-fails".to_string(),
        Vec::new(),
        Some("assertion failed".to_string()),
    );
    assert!(r.terminated_abnormally);
    let v = compare(&l, &r);
    assert!(v.passed);
    assert_eq!(v.diff, None);
}

#[test]
fn unexpected_abnormal_termination_fails() {
    let l = lesson("hello-world", b"", false);
    let r = ExecutionResult::aborted("hello-world".to_string(), Vec::new(), None);
    let v = compare(&l, &r);
    assert!(!v.passed);
    assert_eq!(
        v.diff,
        Some(Diff::Termination { expected_abnormal: false, actual_abnormal: true })
    );
}

#[test]
fn missing_abnormal_termination_fails() {
    let l = lesson("assert-fails", b"", true);
    let r = ExecutionResult::completed("assert-fails".to_string(), Vec::new());
    let v = compare(&l, &r);
    assert!(!v.passed);
    assert_eq!(
        v.diff,
        Some(Diff::Termination { expected_abnormal: true, actual_abnormal: false })
    );
}

#[test]
fn stdout_diff_names_first_differing_offset() {
    let l = lesson("basic-math", b"abc", false);
    let r = ExecutionResult::completed("basic-math".to_string(), b"abd".to_vec());
    let v = compare(&l, &r);
    assert!(!v.passed);
    assert_eq!(v.diff, Some(Diff::Stdout { offset: 2 }));
}

#[test]
fn stdout_diff_on_strict_prefix_is_shorter_length() {
    let l = lesson("basic-math", b"ab", false);
    let r = ExecutionResult::completed("basic-math".to_string(), b"abc".to_vec());
    let v = compare(&l, &r);
    assert_eq!(v.diff, Some(Diff::Stdout { offset: 2 }));

    let l = lesson("basic-math", b"abc", false);
    let r = ExecutionResult::completed("basic-math".to_string(), b"ab".to_vec());
    let v = compare(&l, &r);
    assert_eq!(v.diff, Some(Diff::Stdout { offset: 2 }));
}

#[test]
fn stdout_mismatch_takes_precedence_over_termination() {
    let l = lesson("basic-math", b"abc", false);
    let r = ExecutionResult::aborted("basic-math".to_string(), b"ax".to_vec(), None);
    let v = compare(&l, &r);
    assert!(!v.passed);
    assert_eq!(v.diff, Some(Diff::Stdout { offset: 1 }));
}

#[test]
fn empty_transcripts_compare_equal() {
    let l = lesson("quiet", b"", false);
    let r = ExecutionResult::completed("quiet".to_string(), Vec::new());
    let v = compare(&l, &r);
    assert!(v.passed);
}

#[test]
fn duplicate_id_is_rejected_without_partial_state() {
    let mut registry = LessonRegistry::new();
    assert!(registry.register(lesson("lesson-1", b"one\n", false)).is_ok());
    let err = registry.register(lesson("lesson-1", b"two\n", true)).unwrap_err();
    assert_eq!(err.id, "lesson-1");
    assert_eq!(registry.len(), 1);
    let kept = registry.get(0);
    assert_eq!(kept.id, "lesson-1");
    assert_eq!(kept.expected_stdout, b"one\n".to_vec());
    assert!(!kept.expect_abnormal_termination);
}

#[test]
fn registry_keeps_registration_order() {
    let mut registry = LessonRegistry::new();
    registry.register(lesson("a", b"", false)).unwrap();
    registry.register(lesson("b", b"", false)).unwrap();
    registry.register(lesson("c", b"", false)).unwrap();
    assert_eq!(registry.len(), 3);
    assert_eq!(registry.get(0).id, "a");
    assert_eq!(registry.get(1).id, "b");
    assert_eq!(registry.get(2).id, "c");
}

#[test]
fn timeout_result_carries_timeout_diagnostic() {
    let r = ExecutionResult::timed_out("slow".to_string());
    assert!(r.terminated_abnormally);
    assert_eq!(r.termination_message, Some("timeout".to_string()));
    assert!(r.captured_stdout.is_empty());

    let l = lesson("slow", b"done\n", false);
    let v = compare(&l, &r);
    assert!(!v.passed);
}

#[test]
fn timed_out_lesson_does_not_block_the_next_one() {
    let mut registry = LessonRegistry::new();
    registry.register(lesson("slow", b"done\n", false)).unwrap();
    registry.register(lesson("hello-world", b"Hello, world!\n", false)).unwrap();
    let results = vec![
        ExecutionResult::timed_out("slow".to_string()),
        ExecutionResult::completed("hello-world".to_string(), b"Hello, world!\n".to_vec()),
    ];
    let report = build_report(&registry, &results);
    assert_eq!(report.verdicts.len(), 2);
    assert!(!report.verdicts[0].passed);
    assert!(report.verdicts[1].passed);
}

#[test]
fn report_holds_one_verdict_per_lesson_in_registry_order() {
    let mut registry = LessonRegistry::new();
    registry.register(lesson("a", b"1", false)).unwrap();
    registry.register(lesson("b", b"2", false)).unwrap();
    registry.register(lesson("c", b"3", true)).unwrap();
    // Results arrive in completion order, not registration order.
    let results = vec![
        ExecutionResult::completed("c".to_string(), b"3".to_vec()),
        ExecutionResult::completed("a".to_string(), b"1".to_vec()),
        ExecutionResult::completed("b".to_string(), b"x".to_vec()),
    ];
    let report = build_report(&registry, &results);
    assert_eq!(report.verdicts.len(), 3);
    assert_eq!(report.verdicts[0].lesson_id, "a");
    assert_eq!(report.verdicts[1].lesson_id, "b");
    assert_eq!(report.verdicts[2].lesson_id, "c");
    assert!(report.verdicts[0].passed);
    assert!(!report.verdicts[1].passed);
    assert!(!report.verdicts[2].passed);
}

#[test]
fn report_uses_first_result_for_an_id() {
    let mut registry = LessonRegistry::new();
    registry.register(lesson("a", b"1", false)).unwrap();
    let results = vec![
        ExecutionResult::completed("a".to_string(), b"1".to_vec()),
        ExecutionResult::completed("a".to_string(), b"other".to_vec()),
    ];
    let report = build_report(&registry, &results);
    assert_eq!(report.verdicts.len(), 1);
    assert!(report.verdicts[0].passed);
}

#[test]
fn building_the_report_twice_yields_identical_reports() {
    let mut registry = LessonRegistry::new();
    registry.register(lesson("a", b"1", false)).unwrap();
    registry.register(lesson("b", b"2", true)).unwrap();
    let results = vec![
        ExecutionResult::completed("a".to_string(), b"1".to_vec()),
        ExecutionResult::aborted("b".to_string(), b"2".to_vec(), Some("boom".to_string())),
    ];
    let first = build_report(&registry, &results);
    let second = build_report(&registry, &results);
    assert_eq!(first.verdicts.len(), second.verdicts.len());
    for (u, w) in first.verdicts.iter().zip(second.verdicts.iter()) {
        assert_eq!(u.lesson_id, w.lesson_id);
        assert_eq!(u.passed, w.passed);
        assert_eq!(u.diff, w.diff);
    }
}
