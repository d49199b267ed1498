use timer_cli::{color, db_path, deadline_passed, format_hms, remaining_secs, u64_to_decimal};

#[test]
fn db_path_is_fixed() {
    assert_eq!(db_path(), "/tmp/timer_cli.db");
}

#[test]
fn decimal_rendering() {
    assert_eq!(u64_to_decimal(0), "0");
    assert_eq!(u64_to_decimal(7), "7");
    assert_eq!(u64_to_decimal(42), "42");
    assert_eq!(u64_to_decimal(1234567890), "1234567890");
    assert_eq!(u64_to_decimal(u64::MAX), "18446744073709551615");
}

#[test]
fn clock_formatting() {
    assert_eq!(format_hms(0), "00:00:00");
    assert_eq!(format_hms(59), "00:00:59");
    assert_eq!(format_hms(60), "00:01:00");
    assert_eq!(format_hms(3661), "01:01:01");
    assert_eq!(format_hms(100 * 3600 + 61), "100:01:01");
}

#[test]
fn color_wraps_text_in_escapes() {
    assert_eq!(color("hi", "red"), "\x1B[38;5;210mhi\x1B[0m");
    assert_eq!(color("go", "green"), "\x1B[38;5;151mgo\x1B[0m");
    assert_eq!(color("x", "gray"), "\x1B[38;5;250mx\x1B[0m");
}

#[test]
fn color_names_fold_case() {
    assert_eq!(color("hi", "RED"), color("hi", "red"));
    assert_eq!(color("hi", "Purple"), "\x1B[38;5;183mhi\x1B[0m");
}

#[test]
fn unknown_color_names_paint_white() {
    assert_eq!(color("hi", "chartreuse"), "\x1B[38;5;15mhi\x1B[0m");
    assert_eq!(color("hi", ""), "\x1B[38;5;15mhi\x1B[0m");
}

#[test]
fn deadline_tests() {
    assert!(!deadline_passed(1000, 10, 1009));
    assert!(deadline_passed(1000, 10, 1010));
    assert!(deadline_passed(1000, 10, 1011));
    assert!(!deadline_passed(2000, 10, 1000));
}

#[test]
fn remaining_time() {
    assert_eq!(remaining_secs(1000, 10, 1004), 6);
    assert_eq!(remaining_secs(1000, 10, 1010), 0);
    assert_eq!(remaining_secs(1000, 10, 5000), 0);
    assert_eq!(remaining_secs(2000, 10, 1000), 1010);
    assert_eq!(remaining_secs(u64::MAX, u64::MAX, 0), u64::MAX);
}
