//! Points in time and the clipboard event.

use vstd::prelude::*;
use crate::content::{classify, classify_chars, ContentType};
use crate::text::chars_of;

verus! {

/// `std::time::SystemTime`, carried as an opaque value.
#[verifier::external_type_specification]
#[verifier::external_body]
pub struct ExSystemTime(std::time::SystemTime);

/// `std::time::SystemTime::now`: the system clock as it reads at the call.
/// Nothing is claimed of the reading.
pub assume_specification[ std::time::SystemTime::now ]() -> (reading: std::time::SystemTime)
;

/// `std::time::SystemTime::duration_since`, measured from
/// `std::time::UNIX_EPOCH`: the time elapsed since the epoch, or `None`
/// where the reading lies before it. Nothing is claimed of the result.
#[verifier::external_body]
fn elapsed_since_epoch(reading: &std::time::SystemTime) -> (elapsed: Option<std::time::Duration>) {
    reading.duration_since(std::time::UNIX_EPOCH).ok()
}

/// `std::time::Duration::as_secs`: the whole seconds of a duration.
/// Nothing is claimed of the result.
#[verifier::external_body]
fn whole_seconds(elapsed: &std::time::Duration) -> (secs: u64) {
    elapsed.as_secs()
}

/// `std::time::Duration::subsec_nanos`: the fractional part of a duration
/// in nanoseconds, which std documents to be less than one second.
#[verifier::external_body]
fn subsecond_nanos(elapsed: &std::time::Duration) -> (nanos: u32)
    ensures
        nanos < 1_000_000_000,
{
    elapsed.subsec_nanos()
}

/// `rand::random::<u64>`: a number drawn from the thread's generator.
/// Nothing is claimed of the result.
#[verifier::external_body]
fn random_id() -> (id: u64) {
    rand::random::<u64>()
}

/// A point in time, as the time elapsed since the Unix epoch.
#[derive(Debug, Clone, Copy, PartialEq, Eq, Structural)]
pub struct Timestamp {
    pub secs: u64,
    pub nanos: u32,
}

impl Timestamp {
    /// The fractional part is less than one second.
    pub open spec fn wf(self) -> bool {
        self.nanos < 1_000_000_000
    }

    /// Whole milliseconds since the epoch, rounded down.
    pub open spec fn millis_spec(self) -> nat {
        (self.secs * 1000 + self.nanos / 1_000_000) as nat
    }

    /// Whole milliseconds since the epoch, rounded down.
    pub fn millis(&self) -> (ms: u128)
        ensures
            ms == self.millis_spec(),
    {
        let whole: u128 = self.secs as u128 * 1000;
        let part: u128 = (self.nanos / 1_000_000) as u128;
        whole + part
    }

    /// The point `secs` seconds and `nanos` nanoseconds after the epoch.
    pub fn from_parts(secs: u64, nanos: u32) -> (t: Timestamp)
        requires
            nanos < 1_000_000_000,
        ensures
            t == (Timestamp { secs, nanos }),
            t.wf(),
    {
        Timestamp { secs, nanos }
    }

    /// The point `ms` milliseconds after the epoch.
    pub fn from_millis(ms: u64) -> (t: Timestamp)
        ensures
            t.wf(),
            t.millis_spec() == ms,
            t.secs == ms / 1000,
            t.nanos == (ms % 1000) * 1_000_000,
    {
        let part: u32 = (ms % 1000) as u32;
        Timestamp { secs: ms / 1000, nanos: part * 1_000_000 }
    }

    /// The system clock's reading. A clock that reads earlier than the
    /// epoch is taken as the epoch itself.
    pub fn now() -> (t: Timestamp)
        ensures
            t.wf(),
    {
        let reading = std::time::SystemTime::now();
        match elapsed_since_epoch(&reading) {
            Some(elapsed) => Timestamp::from_elapsed(
                Some((whole_seconds(&elapsed), subsecond_nanos(&elapsed))),
            ),
            None => Timestamp::from_elapsed(None),
        }
    }

    /// The point for what a clock read: the given whole seconds and
    /// nanoseconds after the epoch, or the epoch itself where the clock
    /// read earlier than the epoch and so gave no elapsed time.
    pub fn from_elapsed(elapsed: Option<(u64, u32)>) -> (t: Timestamp)
        requires
            elapsed matches Some(parts) ==> parts.1 < 1_000_000_000,
        ensures
            t.wf(),
            match elapsed {
                Some(parts) => t == (Timestamp { secs: parts.0, nanos: parts.1 }),
                None => t == (Timestamp { secs: 0, nanos: 0 }),
            },
    {
        match elapsed {
            Some(parts) => Timestamp::from_parts(parts.0, parts.1),
            None => Timestamp::from_parts(0, 0),
        }
    }
}

/// One detected change of the clipboard's text.
#[derive(Debug, Clone)]
pub struct ClipboardEvent {
    pub id: u64,
    pub content: String,
    pub content_type: ContentType,
    pub create_time: Timestamp,
    pub tags: Vec<String>,
}

impl ClipboardEvent {
    /// An event as the watcher makes it: it carries a payload, and its time is well formed.
    pub open spec fn wf(self) -> bool {
        self.content@.len() > 0 && self.create_time.wf()
    }

    /// The event with the given key and time, and no tags.
    pub fn assemble(id: u64, create_time: Timestamp, content: String, content_type: ContentType) -> (event:
        ClipboardEvent)
        ensures
            event.id == id,
            event.create_time == create_time,
            event.content == content,
            event.content_type == content_type,
            event.tags@.len() == 0,
    {
        ClipboardEvent { id, content, content_type, create_time, tags: Vec::new() }
    }

    /// A new event for `content`: a random key, the clock's reading, no tags.
    pub fn new(content: String, content_type: ContentType) -> (event: ClipboardEvent)
        ensures
            event.content == content,
            event.content_type == content_type,
            event.tags@.len() == 0,
            event.create_time.wf(),
    {
        let id = random_id();
        let create_time = Timestamp::now();
        ClipboardEvent::assemble(id, create_time, content, content_type)
    }

    /// The kind of a text, by the rule `classify`.
    pub fn detect_content_type(content: &str) -> (kind: ContentType)
        ensures
            kind == classify(content@),
    {
        let chars = chars_of(content);
        classify_chars(&chars)
    }
}

} // verus!
