//! The textual form in which an event is kept in the history table, and
//! the record handed to readers of the history.

use vstd::prelude::*;
use crate::content::kind_named;
use crate::content::lemma_name_round_trip;
use crate::event::ClipboardEvent;
use crate::text::{
    decimal, decimal_text, lemma_decimal_injective, lemma_decimal_order, text_before, text_of,
};

verus! {

/// The JSON text that `serde_json::to_string` writes for a list of
/// strings; `None` where it reports an error.
pub uninterp spec fn tags_json(tags: Seq<Seq<char>>) -> Option<Seq<char>>;

/// The list of strings that `serde_json::from_str` reads from a text;
/// `None` where the text is not a JSON array of strings.
pub uninterp spec fn tags_parsed(text: Seq<char>) -> Option<Seq<Seq<char>>>;

/// The characters of each string of a list.
pub open spec fn texts_of(tags: Seq<String>) -> Seq<Seq<char>> {
    Seq::new(tags.len(), |i: int| tags[i]@)
}

/// `serde_json::to_string` on a list of strings. The claim is only that
/// the outcome is a function of the list: the text it wrote, or `None`
/// for its error, is what `tags_json` names.
#[verifier::external_body]
fn write_tags(tags: &Vec<String>) -> (written: Option<String>)
    ensures
        match written {
            Some(text) => tags_json(texts_of(tags@)) == Some(text@),
            None => tags_json(texts_of(tags@)) is None,
        },
{
    serde_json::to_string(tags).ok()
}

/// `serde_json::from_str` at the type of a list of strings. The claim is
/// only that the outcome is a function of the text: the list it read, or
/// `None` for its error, is what `tags_parsed` names.
#[verifier::external_body]
fn read_tags(text: &str) -> (read: Option<Vec<String>>)
    ensures
        match read {
            Some(tags) => tags_parsed(text@) == Some(texts_of(tags@)),
            None => tags_parsed(text@) is None,
        },
{
    serde_json::from_str::<Vec<String>>(text).ok()
}

/// The text kept in the `tags` column: the JSON written, or nothing
/// where writing failed.
pub open spec fn stored_tags(written: Option<Seq<char>>) -> Seq<char> {
    match written {
        Some(text) => text,
        None => Seq::empty(),
    }
}

/// The tags handed to a reader: those read from the column, or none
/// where the column does not parse.
pub open spec fn presented_tags(read: Option<Seq<Seq<char>>>) -> Seq<Seq<char>> {
    match read {
        Some(tags) => tags,
        None => Seq::empty(),
    }
}

/// The text for the `tags` column, given what writing the tags gave.
pub fn tags_column(written: Option<String>) -> (text: String)
    ensures
        text@ == stored_tags(text_of(written)),
{
    match written {
        Some(text) => text,
        None => String::new(),
    }
}

/// The tags of a record, given what reading the `tags` column gave.
pub fn tags_or_none(read: Option<Vec<String>>) -> (tags: Vec<String>)
    ensures
        texts_of(tags@) == presented_tags(
            match read {
                Some(list) => Some(texts_of(list@)),
                None => None,
            },
        ),
{
    match read {
        Some(list) => list,
        None => {
            let tags: Vec<String> = Vec::new();
            assert(texts_of(tags@) =~= Seq::<Seq<char>>::empty());
            tags
        },
    }
}

/// One row of the history table: every column is text.
#[derive(Debug, Clone)]
pub struct StoredRecord {
    pub id: String,
    pub content: String,
    pub content_type: String,
    pub create_time: String,
    pub tags: String,
}

/// One entry of the history as readers get it.
#[derive(Debug, Clone)]
pub struct HistoryRecord {
    pub id: String,
    pub content: String,
    pub content_type: String,
    pub create_time: String,
    pub tags: Vec<String>,
}

impl StoredRecord {
    /// The row is the textual form of `event`: the key and the whole
    /// milliseconds since the epoch as decimal numerals, the payload as it
    /// is, the kind by its tag, and the tags as JSON.
    pub open spec fn encodes(self, event: ClipboardEvent) -> bool {
        &&& self.id@ == decimal(event.id as nat)
        &&& self.content@ == event.content@
        &&& self.content_type@ == event.content_type.name_spec()
        &&& self.create_time@ == decimal(event.create_time.millis_spec())
        &&& self.tags@ == stored_tags(tags_json(texts_of(event.tags@)))
    }

    /// The row for `event`.
    pub fn of_event(event: &ClipboardEvent) -> (row: StoredRecord)
        ensures
            row.encodes(*event),
    {
        StoredRecord {
            id: decimal_text(event.id as u128),
            content: event.content.clone(),
            content_type: String::from_str(event.content_type.name()),
            create_time: decimal_text(event.create_time.millis()),
            tags: tags_column(write_tags(&event.tags)),
        }
    }

    /// The five columns in the order of the table: `id`, `content`,
    /// `content_type`, `create_time`, `tags`.
    pub fn columns(self) -> (values: Vec<String>)
        ensures
            values@ == seq![self.id, self.content, self.content_type, self.create_time, self.tags],
    {
        let mut values: Vec<String> = Vec::new();
        values.push(self.id);
        values.push(self.content);
        values.push(self.content_type);
        values.push(self.create_time);
        values.push(self.tags);
        assert(values@ =~= seq![
            self.id,
            self.content,
            self.content_type,
            self.create_time,
            self.tags,
        ]);
        values
    }
}

impl HistoryRecord {
    /// The entry shows `row`: four columns as they are, and the tags read
    /// from the fifth.
    pub open spec fn presents(self, row: StoredRecord) -> bool {
        &&& self.id@ == row.id@
        &&& self.content@ == row.content@
        &&& self.content_type@ == row.content_type@
        &&& self.create_time@ == row.create_time@
        &&& texts_of(self.tags@) == presented_tags(tags_parsed(row.tags@))
    }

    /// The entry for `row`.
    pub fn of_row(row: &StoredRecord) -> (entry: HistoryRecord)
        ensures
            entry.presents(*row),
    {
        HistoryRecord {
            id: row.id.clone(),
            content: row.content.clone(),
            content_type: row.content_type.clone(),
            create_time: row.create_time.clone(),
            tags: tags_or_none(read_tags(row.tags.as_str())),
        }
    }
}

/// The entries show the rows, one for one and in the same order.
pub open spec fn present_all(entries: Seq<HistoryRecord>, rows: Seq<StoredRecord>) -> bool {
    &&& entries.len() == rows.len()
    &&& forall|i: int| 0 <= i < rows.len() ==> (#[trigger] entries[i]).presents(rows[i])
}

/// The entries show some rows of the table: each has four columns of a
/// row as they are, and the tags read from its fifth.
pub open spec fn present_some(entries: Seq<HistoryRecord>) -> bool {
    exists|rows: Seq<StoredRecord>| #[trigger] present_all(entries, rows)
}

/// The entries for the rows that a query gave, in the same order.
pub fn history_of_rows(rows: &Vec<StoredRecord>) -> (entries: Vec<HistoryRecord>)
    ensures
        present_all(entries@, rows@),
{
    let mut entries: Vec<HistoryRecord> = Vec::new();
    let mut i: usize = 0;
    while i < rows.len()
        invariant
            i <= rows.len(),
            entries@.len() == i,
            forall|j: int| 0 <= j < i ==> (#[trigger] entries@[j]).presents(rows@[j]),
        decreases rows.len() - i,
    {
        entries.push(HistoryRecord::of_row(&rows[i]));
        i += 1;
    }
    entries
}

/// What was saved is what is read: an entry that shows the row of an
/// event has the event's payload, the tag of its kind (from which the kind
/// is read back), its key as a decimal numeral, and its time as the
/// decimal numeral of the whole milliseconds since the epoch.
pub proof fn lemma_saved_is_read(event: ClipboardEvent, row: StoredRecord, entry: HistoryRecord)
    requires
        row.encodes(event),
        entry.presents(row),
    ensures
        entry.content@ == event.content@,
        entry.content_type@ == event.content_type.name_spec(),
        kind_named(entry.content_type@) == Some(event.content_type),
        entry.id@ == decimal(event.id as nat),
        entry.create_time@ == decimal(event.create_time.millis_spec()),
        texts_of(entry.tags@) == presented_tags(
            tags_parsed(stored_tags(tags_json(texts_of(event.tags@)))),
        ),
{
    lemma_name_round_trip(event.content_type);
}

/// Of two events whose times are written with equally many digits, the
/// later one has the later `create_time` text, so a query that sorts by
/// that text gives it first. Without the condition on the digits this
/// fails: the text order puts ten milliseconds before nine.
pub proof fn lemma_later_event_has_later_text(
    earlier: ClipboardEvent,
    later: ClipboardEvent,
    first: StoredRecord,
    second: StoredRecord,
)
    requires
        first.encodes(earlier),
        second.encodes(later),
        earlier.create_time.millis_spec() < later.create_time.millis_spec(),
        first.create_time@.len() == second.create_time@.len(),
    ensures
        text_before(first.create_time@, second.create_time@),
{
    lemma_decimal_order(earlier.create_time.millis_spec(), later.create_time.millis_spec());
}

/// Events with different keys have rows with different `id` texts.
pub proof fn lemma_keys_stay_apart(
    a: ClipboardEvent,
    b: ClipboardEvent,
    first: StoredRecord,
    second: StoredRecord,
)
    requires
        first.encodes(a),
        second.encodes(b),
        a.id != b.id,
    ensures
        first.id@ != second.id@,
{
    if first.id@ == second.id@ {
        lemma_decimal_injective(a.id as nat, b.id as nat);
    }
}

} // verus!
