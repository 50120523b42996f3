use lesson_harness::samples::add_two_numbers;
use lesson_harness::samples::calculate;
use lesson_harness::samples::call_me;
use lesson_harness::samples::many_operations;

#[test]
fn add_two_numbers_adds() {
    assert_eq!(add_two_numbers(69, 420), 489);
    assert_eq!(add_two_numbers(-1, 1), 0);
    assert_eq!(add_two_numbers(i32::MAX, 0), i32::MAX);
}

#[test]
fn calculate_is_fixed() {
    assert_eq!(calculate(), 37);
}

#[test]
fn trivial_entry_points_run() {
    call_me();
    many_operations(0, 1, 2, 3);
}
