use clipboard_history::content::ContentType;
use clipboard_history::event::{ClipboardEvent, Timestamp};
use clipboard_history::watcher::ClipboardWatcher;

#[test]
fn two_different_texts_give_two_events_in_order() {
    let mut watcher = ClipboardWatcher::new();
    let first = watcher.watch(Some("alpha".to_string())).expect("a change");
    let second = watcher.watch(Some("beta".to_string())).expect("a change");
    assert_eq!(first.content, "alpha");
    assert_eq!(second.content, "beta");
    assert_eq!(watcher.last_seen(), "beta");
}

#[test]
fn the_same_text_twice_gives_one_event() {
    let mut watcher = ClipboardWatcher::new();
    assert!(watcher.watch(Some("alpha".to_string())).is_some());
    assert!(watcher.watch(Some("alpha".to_string())).is_none());
    assert!(watcher.watch(Some("alpha".to_string())).is_none());
    assert_eq!(watcher.last_seen(), "alpha");
}

#[test]
fn a_returning_text_is_reported_again() {
    let mut watcher = ClipboardWatcher::new();
    assert!(watcher.watch(Some("a".to_string())).is_some());
    assert!(watcher.watch(Some("b".to_string())).is_some());
    let again = watcher.watch(Some("a".to_string())).expect("a change");
    assert_eq!(again.content, "a");
}

#[test]
fn failed_and_empty_reads_give_nothing() {
    let mut watcher = ClipboardWatcher::new();
    assert_eq!(watcher.last_seen(), "");
    assert!(watcher.watch(None).is_none());
    assert!(watcher.watch(Some(String::new())).is_none());
    assert_eq!(watcher.last_seen(), "");
    assert!(watcher.watch(Some("x".to_string())).is_some());
    assert!(watcher.watch(None).is_none());
    assert!(watcher.watch(Some(String::new())).is_none());
    assert_eq!(watcher.last_seen(), "x");
    assert!(watcher.watch(Some("x".to_string())).is_none());
}

#[test]
fn events_are_classified_and_untagged() {
    let mut watcher = ClipboardWatcher::new();
    let url = watcher.watch(Some("https://x".to_string())).expect("a change");
    assert_eq!(url.content_type, ContentType::Url);
    assert!(url.tags.is_empty());
    let code = watcher.watch(Some("{}".to_string())).expect("a change");
    assert_eq!(code.content_type, ContentType::Code);
    let text = watcher.watch(Some("hello".to_string())).expect("a change");
    assert_eq!(text.content_type, ContentType::Text);
    assert!(text.create_time.nanos < 1_000_000_000);
    assert!(url.create_time.millis() <= text.create_time.millis());
}

#[test]
fn new_event_keeps_what_it_is_given() {
    let event = ClipboardEvent::new("payload".to_string(), ContentType::Code);
    assert_eq!(event.content, "payload");
    assert_eq!(event.content_type, ContentType::Code);
    assert!(event.tags.is_empty());
    assert!(event.create_time.nanos < 1_000_000_000);
    // The clock of a running machine reads later than the year 2001.
    assert!(event.create_time.secs > 1_000_000_000);
}

#[test]
fn new_events_get_different_keys() {
    let a = ClipboardEvent::new("a".to_string(), ContentType::Text);
    let b = ClipboardEvent::new("a".to_string(), ContentType::Text);
    let c = ClipboardEvent::new("a".to_string(), ContentType::Text);
    assert!(a.id != b.id || b.id != c.id);
}

#[test]
fn assembled_event_has_the_given_parts() {
    let at = Timestamp::from_parts(5, 7);
    let event = ClipboardEvent::assemble(9, at, "c".to_string(), ContentType::Url);
    assert_eq!(event.id, 9);
    assert_eq!(event.create_time, at);
    assert_eq!(event.content, "c");
    assert_eq!(event.content_type, ContentType::Url);
    assert!(event.tags.is_empty());
}

#[test]
fn milliseconds_are_rounded_down() {
    assert_eq!(Timestamp::from_parts(0, 0).millis(), 0);
    assert_eq!(Timestamp::from_parts(1, 999_999_999).millis(), 1999);
    assert_eq!(Timestamp::from_parts(2, 1_000_000).millis(), 2001);
    assert_eq!(Timestamp::from_parts(2, 999_999).millis(), 2000);
    assert_eq!(Timestamp::from_parts(u64::MAX, 999_999_999).millis(), 18446744073709551615000 + 999);
}

#[test]
fn timestamp_from_milliseconds() {
    let t = Timestamp::from_millis(1234);
    assert_eq!(t, Timestamp { secs: 1, nanos: 234_000_000 });
    assert_eq!(t.millis(), 1234);
    assert_eq!(Timestamp::from_millis(u64::MAX).millis(), u64::MAX as u128);
    assert_eq!(Timestamp::from_millis(0).millis(), 0);
}

#[test]
fn clock_reading_is_well_formed() {
    let a = Timestamp::now();
    let b = Timestamp::now();
    assert!(a.nanos < 1_000_000_000);
    assert!(a.secs > 1_000_000_000);
    assert!(a.secs <= b.secs);
}

#[test]
fn point_for_a_clock_reading() {
    assert_eq!(Timestamp::from_elapsed(Some((5, 7))), Timestamp { secs: 5, nanos: 7 });
    assert_eq!(
        Timestamp::from_elapsed(Some((u64::MAX, 999_999_999))),
        Timestamp { secs: u64::MAX, nanos: 999_999_999 }
    );
    assert_eq!(Timestamp::from_elapsed(None), Timestamp { secs: 0, nanos: 0 });
    assert_eq!(Timestamp::from_elapsed(None).millis(), 0);
}
