//! Change detection: which clipboard readings become events.

use vstd::prelude::*;
use crate::content::classify;
use crate::event::ClipboardEvent;
use crate::text::text_of;

verus! {

/// The pause between two polls of the clipboard, in milliseconds.
pub const POLL_INTERVAL_MS: u64 = 100;

/// How many events may wait between the watcher and the store.
pub const CHANNEL_CAPACITY: usize = 100;

/// A reading is a change when the read succeeded and gave a text that is
/// neither empty nor the text seen last.
pub open spec fn emits(last: Seq<char>, reading: Option<Seq<char>>) -> bool {
    reading is Some && reading->0.len() > 0 && reading->0 != last
}

/// The text remembered after a reading: the reading itself where it is a
/// change, the old text otherwise.
pub open spec fn next_last(last: Seq<char>, reading: Option<Seq<char>>) -> Seq<char> {
    if emits(last, reading) {
        reading->0
    } else {
        last
    }
}

/// What one reading gives: its text where it is a change, nothing otherwise.
pub open spec fn reported(last: Seq<char>, reading: Option<Seq<char>>) -> Seq<Seq<char>> {
    if emits(last, reading) {
        seq![reading->0]
    } else {
        Seq::empty()
    }
}

/// The payloads of the events that a run of readings gives, in order,
/// starting from the remembered text `last`.
pub open spec fn emitted(last: Seq<char>, readings: Seq<Option<Seq<char>>>) -> Seq<Seq<char>>
    decreases readings.len(),
{
    if readings.len() == 0 {
        Seq::empty()
    } else {
        reported(last, readings[0]) + emitted(
            next_last(last, readings[0]),
            readings.drop_first(),
        )
    }
}

/// The watcher's memory: the text of the last change it reported.
#[derive(Debug, Clone)]
pub struct ClipboardWatcher {
    last_content: String,
}

impl View for ClipboardWatcher {
    type V = Seq<char>;

    /// The remembered text.
    closed spec fn view(&self) -> Seq<char> {
        self.last_content@
    }
}

impl ClipboardWatcher {
    /// A watcher that has seen nothing yet.
    pub fn new() -> (watcher: ClipboardWatcher)
        ensures
            watcher@ == Seq::<char>::empty(),
    {
        ClipboardWatcher { last_content: String::new() }
    }

    /// The remembered text: the payload of the last event, or nothing
    /// before the first.
    pub fn last_seen(&self) -> (text: &str)
        ensures
            text@ == self@,
    {
        self.last_content.as_str()
    }

    /// One cycle of the watch: takes what the poll read and decides whether
    /// it is a change. A change yields an event with the text as payload,
    /// classified, and becomes the remembered text; anything else yields
    /// nothing and leaves the memory as it was.
    pub fn watch(&mut self, reading: Option<String>) -> (event: Option<ClipboardEvent>)
        ensures
            event is Some <==> emits(old(self)@, text_of(reading)),
            final(self)@ == next_last(old(self)@, text_of(reading)),
            event matches Some(e) ==> e.content@ == reading->0@ && e.content_type == classify(
                reading->0@,
            ) && e.tags@.len() == 0 && e.wf(),
    {
        match reading {
            Some(content) => {
                if !content.as_str().is_empty() && !(content == self.last_content) {
                    let content_type = ClipboardEvent::detect_content_type(content.as_str());
                    let event = ClipboardEvent::new(content.clone(), content_type);
                    self.last_content = content;
                    Some(event)
                } else {
                    None
                }
            },
            None => None,
        }
    }
}

/// Two different non-empty texts, read one after the other by a watcher
/// that has seen nothing, give two events, the first text's and then the
/// second's. The same text read twice in a row gives one event.
pub proof fn lemma_changes_are_reported_once(a: Seq<char>, b: Seq<char>)
    requires
        a.len() > 0,
        b.len() > 0,
        a != b,
    ensures
        emits(Seq::empty(), Some(a)),
        next_last(Seq::empty(), Some(a)) == a,
        emits(a, Some(b)),
        !emits(a, Some(a)),
        emitted(Seq::empty(), seq![Some(a), Some(b)]) == seq![a, b],
        emitted(Seq::empty(), seq![Some(a), Some(a)]) == seq![a],
{
    let fresh = Seq::<char>::empty();
    lemma_two_readings(fresh, Some(a), Some(b));
    lemma_two_readings(fresh, Some(a), Some(a));
    assert(seq![a] + seq![b] =~= seq![a, b]);
    assert(seq![a] + Seq::<Seq<char>>::empty() =~= seq![a]);
}

/// A text that comes back after another one is reported again: the
/// watcher remembers one text only.
pub proof fn lemma_returning_text_is_reported(a: Seq<char>, b: Seq<char>)
    requires
        a.len() > 0,
        b.len() > 0,
        a != b,
    ensures
        emits(next_last(a, Some(b)), Some(a)),
{
}

/// A run of two readings gives what the first gives, then what the
/// second gives to the watcher as the first left it.
pub proof fn lemma_two_readings(
    last: Seq<char>,
    first: Option<Seq<char>>,
    second: Option<Seq<char>>,
)
    ensures
        emitted(last, seq![first, second]) == reported(last, first) + reported(
            next_last(last, first),
            second,
        ),
{
    let tail = seq![first, second].drop_first();
    assert(tail =~= seq![second]);
    assert(tail.drop_first() =~= Seq::<Option<Seq<char>>>::empty());
    reveal_with_fuel(emitted, 3);
    assert(emitted(next_last(last, first), tail) =~= reported(next_last(last, first), second));
}

} // verus!
