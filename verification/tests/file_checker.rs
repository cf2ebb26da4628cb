use shelly_remote_helper::file_checker::{ChangeEvent, FileChecker, FileStamp, ModTime};

fn at(seconds: i64, nanos: u32) -> ModTime {
    ModTime { seconds, nanos }
}

fn stamp(path: &str, seconds: i64) -> FileStamp {
    FileStamp { path: String::from(path), modified: at(seconds, 0) }
}

fn event(path: &str) -> ChangeEvent {
    ChangeEvent { path: String::from(path) }
}

#[test]
fn later_than_orders_by_seconds_then_nanos() {
    assert!(at(2, 0).is_later_than(&at(1, 999_999_999)));
    assert!(at(1, 1).is_later_than(&at(1, 0)));
    assert!(!at(1, 0).is_later_than(&at(1, 0)));
    assert!(!at(1, 0).is_later_than(&at(1, 1)));
    assert!(!at(-5, 0).is_later_than(&at(-4, 0)));
    assert!(at(-4, 0).is_later_than(&at(-5, 500)));
}

#[test]
fn new_checker_has_seen_nothing() {
    let checker = FileChecker::new();
    assert_eq!(checker.last_seen("a.js"), None);
}

#[test]
fn first_sight_is_recorded_and_is_no_change() {
    let mut checker = FileChecker::new();
    assert!(!checker.observe("a.js", at(100, 0)));
    assert_eq!(checker.last_seen("a.js"), Some(at(100, 0)));
    assert!(!checker.observe("b.js", at(50, 0)));
    assert_eq!(checker.last_seen("b.js"), Some(at(50, 0)));
    assert_eq!(checker.last_seen("a.js"), Some(at(100, 0)));
}

#[test]
fn newer_time_is_a_change_exactly_once() {
    let mut checker = FileChecker::new();
    assert!(!checker.observe("a.js", at(100, 0)));
    assert!(checker.observe("a.js", at(100, 1)));
    assert_eq!(checker.last_seen("a.js"), Some(at(100, 1)));
    assert!(!checker.observe("a.js", at(100, 1)));
    assert!(checker.observe("a.js", at(101, 0)));
    assert!(!checker.observe("a.js", at(101, 0)));
}

#[test]
fn equal_or_older_time_is_no_change_and_keeps_the_record() {
    let mut checker = FileChecker::new();
    assert!(!checker.observe("a.js", at(100, 5)));
    assert!(!checker.observe("a.js", at(100, 5)));
    assert!(!checker.observe("a.js", at(99, 9)));
    assert_eq!(checker.last_seen("a.js"), Some(at(100, 5)));
}

#[test]
fn check_directory_reports_nothing_on_the_first_listing() {
    let mut checker = FileChecker::new();
    let files = vec![stamp("a.js", 1), stamp("b.js", 2), stamp("c.txt", 3)];
    assert_eq!(checker.check_directory(&files, 0), None);
    assert_eq!(checker.last_seen("a.js"), Some(at(1, 0)));
    assert_eq!(checker.last_seen("b.js"), Some(at(2, 0)));
    assert_eq!(checker.last_seen("c.txt"), Some(at(3, 0)));
    assert_eq!(checker.check_directory(&files, 0), None);
}

#[test]
fn check_directory_reports_each_change_in_listing_order() {
    let mut checker = FileChecker::new();
    let first = vec![stamp("a.js", 1), stamp("b.js", 2), stamp("c.js", 3)];
    assert_eq!(checker.check_directory(&first, 0), None);
    let second = vec![stamp("a.js", 5), stamp("b.js", 2), stamp("c.js", 4), stamp("d.js", 9)];
    assert_eq!(checker.check_directory(&second, 0), Some((1, event("a.js"))));
    assert_eq!(checker.last_seen("c.js"), Some(at(3, 0)));
    assert_eq!(checker.check_directory(&second, 1), Some((3, event("c.js"))));
    assert_eq!(checker.check_directory(&second, 3), None);
    assert_eq!(checker.last_seen("d.js"), Some(at(9, 0)));
    assert_eq!(checker.check_directory(&second, 0), None);
}

#[test]
fn check_directory_at_the_end_of_a_listing_does_nothing() {
    let mut checker = FileChecker::new();
    let files = vec![stamp("a.js", 1)];
    assert_eq!(checker.check_directory(&files, 1), None);
    assert_eq!(checker.last_seen("a.js"), None);
    assert_eq!(checker.check_directory(&files, 7), None);
    assert_eq!(checker.last_seen("a.js"), None);
    assert_eq!(checker.check_directory(&vec![], 0), None);
}
