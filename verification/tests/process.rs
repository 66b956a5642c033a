use std::time::{Duration, UNIX_EPOCH};

use process_cache::clock::{seconds_of, LAST_STAMPED_SECOND};
use process_cache::process::{clone_optional_strings, clone_strings};
use process_cache::{
    create_process, create_process_at, current_timestamp, get_current_time, timestamp_at,
    update_process, update_process_partial, update_process_partial_at, Process,
};

fn tags(list: &[&str]) -> Option<Vec<String>> {
    Some(list.iter().map(|t| t.to_string()).collect())
}

#[test]
fn create_process_at_sets_every_field() {
    let p = create_process_at("p1", true, tags(&["x", "y"]), "2024-11-18 09:34:41".to_string());
    assert_eq!(
        p,
        Process {
            name: "p1".to_string(),
            run: true,
            tags: Some(vec!["x".to_string(), "y".to_string()]),
            effective: "2024-11-18 09:34:41".to_string(),
        }
    );
}

#[test]
fn create_process_keeps_name_run_and_tags() {
    let p = create_process("p2", false, None);
    assert_eq!(p.name, "p2");
    assert!(!p.run);
    assert_eq!(p.tags, None);
    assert_eq!(p.effective.len(), 19);
}

#[test]
fn timestamp_has_the_pattern_shape() {
    let stamp = current_timestamp();
    let bytes = stamp.as_bytes();
    assert_eq!(bytes.len(), 19);
    for (i, b) in bytes.iter().enumerate() {
        match i {
            4 | 7 => assert_eq!(*b, b'-'),
            10 => assert_eq!(*b, b' '),
            13 | 16 => assert_eq!(*b, b':'),
            _ => assert!(b.is_ascii_digit()),
        }
    }
    assert_ne!(stamp, "%Y-%m-%d %H:%M:%S");
}

fn has_stamp_shape(stamp: &str) -> bool {
    let bytes = stamp.as_bytes();
    bytes.len() == 19
        && bytes.iter().enumerate().all(|(i, b)| match i {
            4 | 7 => *b == b'-',
            10 => *b == b' ',
            13 | 16 => *b == b':',
            _ => b.is_ascii_digit(),
        })
}

#[test]
fn stamp_of_a_given_second() {
    let stamp = timestamp_at(1_700_000_000);
    assert!(has_stamp_shape(&stamp), "{stamp}");
    assert!(stamp.starts_with("2023-11-14") || stamp.starts_with("2023-11-15"), "{stamp}");
    assert_eq!(timestamp_at(1_700_000_000), stamp);
    assert_ne!(timestamp_at(1_700_000_001), stamp);
}

#[test]
fn stamp_of_the_epoch() {
    let stamp = timestamp_at(0);
    assert!(has_stamp_shape(&stamp), "{stamp}");
    assert!(stamp.starts_with("1970-01-01") || stamp.starts_with("1969-12-31"), "{stamp}");
}

#[test]
fn stamps_a_day_apart_differ_in_the_date_only() {
    let first = timestamp_at(1_000_000_000);
    let second = timestamp_at(1_000_000_000 + 86_400);
    assert!(has_stamp_shape(&first) && has_stamp_shape(&second));
    assert_ne!(first[..10], second[..10]);
}

#[test]
fn seconds_after_the_last_stamped_one_are_stamped_as_it() {
    let last = timestamp_at(LAST_STAMPED_SECOND);
    assert!(last.starts_with("9999-12-31") || last.starts_with("+10000-01-01"), "{last}");
    assert_eq!(timestamp_at(LAST_STAMPED_SECOND + 1), last);
    assert_eq!(timestamp_at(u64::MAX), last);
    assert_ne!(timestamp_at(LAST_STAMPED_SECOND - 1), last);
}

#[test]
fn current_stamp_is_of_the_present() {
    let before = get_current_time();
    let stamp = current_timestamp();
    let after = get_current_time();
    assert!((before..=after).any(|second| timestamp_at(second) == stamp), "{stamp}");
}

#[test]
fn current_time_is_after_2020() {
    let now = get_current_time();
    assert!(now > 1_577_836_800);
    let again = get_current_time();
    assert!(again >= now);
}

#[test]
fn clock_reading_counts_whole_seconds() {
    assert_eq!(seconds_of(Ok(Duration::from_secs(1_700_000_000))), 1_700_000_000);
    assert_eq!(seconds_of(Ok(Duration::from_millis(61_999))), 61);
    assert_eq!(seconds_of(Ok(Duration::from_nanos(999_999_999))), 0);
    assert_eq!(seconds_of(Ok(Duration::MAX)), u64::MAX);
}

#[test]
fn clock_set_before_the_epoch_reads_as_zero() {
    let later = UNIX_EPOCH + Duration::from_secs(10);
    let reading = UNIX_EPOCH.duration_since(later);
    assert!(reading.is_err());
    assert_eq!(seconds_of(reading), 0);
}

#[test]
fn partial_update_with_both_fields() {
    let mut p = create_process_at("p", true, tags(&["a"]), "old".to_string());
    update_process_partial_at(&mut p, Some(false), tags(&["b", "c"]), "new".to_string());
    assert_eq!(p, create_process_at("p", false, tags(&["b", "c"]), "new".to_string()));
}

#[test]
fn partial_update_with_run_only_keeps_tags() {
    let mut p = create_process_at("p", true, tags(&["a"]), "old".to_string());
    update_process_partial_at(&mut p, Some(false), None, "new".to_string());
    assert_eq!(p, create_process_at("p", false, tags(&["a"]), "new".to_string()));
}

#[test]
fn partial_update_with_tags_only_keeps_run() {
    let mut p = create_process_at("p", true, None, "old".to_string());
    update_process_partial_at(&mut p, None, tags(&[]), "new".to_string());
    assert_eq!(p, create_process_at("p", true, tags(&[]), "new".to_string()));
}

#[test]
fn partial_update_with_nothing_renews_the_stamp_only() {
    let mut p = create_process_at("p", true, tags(&["a"]), "old".to_string());
    update_process_partial_at(&mut p, None, None, "new".to_string());
    assert_eq!(p, create_process_at("p", true, tags(&["a"]), "new".to_string()));
}

#[test]
fn partial_update_stamps_with_the_clock() {
    let mut p = create_process_at("p", true, None, "old".to_string());
    update_process_partial(&mut p, Some(false), None);
    assert_eq!(p.name, "p");
    assert!(!p.run);
    assert_eq!(p.tags, None);
    assert_ne!(p.effective, "old");
    assert_eq!(p.effective.len(), 19);
}

#[test]
fn full_update_always_sets_run() {
    let mut p = create_process_at("p", true, tags(&["a"]), "old".to_string());
    update_process(&mut p, false, None);
    assert!(!p.run);
    assert_eq!(p.tags, tags(&["a"]));
    assert_ne!(p.effective, "old");
    update_process(&mut p, true, tags(&["z"]));
    assert!(p.run);
    assert_eq!(p.tags, tags(&["z"]));
}

#[test]
fn clone_is_equal_and_independent() {
    let p = create_process_at("p", true, tags(&["a", "b"]), "t".to_string());
    let mut q = p.clone();
    assert_eq!(p, q);
    q.run = false;
    assert_ne!(p, q);
    assert!(p.run);
}

#[test]
fn string_lists_are_copied_in_order() {
    let list = vec!["b".to_string(), "a".to_string(), "b".to_string()];
    assert_eq!(clone_strings(&list), list);
    assert_eq!(clone_strings(&Vec::new()), Vec::<String>::new());
    assert_eq!(clone_optional_strings(&None), None);
    assert_eq!(clone_optional_strings(&Some(list.clone())), Some(list));
}
