//! What the desktop shell needs of the library: the tray menu, what a
//! click on it means, and the newest page of the history.

use vstd::prelude::*;
use crate::db::{Database, StorageFault};
use crate::record::{present_some, HistoryRecord};
use crate::text::{chars_of, same_chars};

verus! {

/// How many entries the shell asks for.
pub const HISTORY_PAGE: i32 = 50;

/// What a click on the tray menu asks for.
#[derive(Debug, Clone, Copy, PartialEq, Eq, Structural)]
pub enum TrayAction {
    Quit,
    Show,
    Hide,
    Nothing,
}

/// One line of the tray menu.
#[derive(Debug, Clone)]
pub enum TrayEntry {
    /// A line to click, with the identifier that a click reports.
    Item { id: String, title: String },
    /// A line that parts two groups.
    Separator,
}

/// The action that the menu identifier `id` stands for.
pub open spec fn tray_action(id: Seq<char>) -> TrayAction {
    if id == "quit"@ {
        TrayAction::Quit
    } else if id == "show"@ {
        TrayAction::Show
    } else if id == "hide"@ {
        TrayAction::Hide
    } else {
        TrayAction::Nothing
    }
}

fn tray_item(id: &str, title: &str) -> (entry: TrayEntry)
    ensures
        entry matches TrayEntry::Item { id: i, title: t } && i@ == id@ && t@ == title@,
{
    TrayEntry::Item { id: String::from_str(id), title: String::from_str(title) }
}

/// The tray menu: show, hide, a separator, quit.
pub fn create_system_tray() -> (menu: Vec<TrayEntry>)
    ensures
        menu@.len() == 4,
        menu@[0] matches TrayEntry::Item { id, title } && id@ == "show"@ && title@
            == "Show main window"@,
        menu@[1] matches TrayEntry::Item { id, title } && id@ == "hide"@ && title@
            == "Hide to tray"@,
        menu@[2] is Separator,
        menu@[3] matches TrayEntry::Item { id, title } && id@ == "quit"@ && title@ == "Quit"@,
{
    let mut menu: Vec<TrayEntry> = Vec::new();
    menu.push(tray_item("show", "Show main window"));
    menu.push(tray_item("hide", "Hide to tray"));
    menu.push(TrayEntry::Separator);
    menu.push(tray_item("quit", "Quit"));
    menu
}

fn is_text(chars: &Vec<char>, word: &str) -> (same: bool)
    ensures
        same == (chars@ == word@),
{
    same_chars(chars, &chars_of(word))
}

/// What a click on the menu line with identifier `id` asks for: quit,
/// show the window, hide it, or nothing for any other identifier.
pub fn handle_system_tray_event(id: &str) -> (action: TrayAction)
    ensures
        action == tray_action(id@),
{
    let chars = chars_of(id);
    if is_text(&chars, "quit") {
        TrayAction::Quit
    } else if is_text(&chars, "show") {
        TrayAction::Show
    } else if is_text(&chars, "hide") {
        TrayAction::Hide
    } else {
        TrayAction::Nothing
    }
}

/// What the shell is told for an outcome of reading the history: the
/// entries as they are, or the fault's cause in words.
pub fn report_history(history: Result<Vec<HistoryRecord>, StorageFault>) -> (reported: Result<
    Vec<HistoryRecord>,
    String,
>)
    ensures
        match history {
            Ok(entries) => reported == Ok::<Vec<HistoryRecord>, String>(entries),
            Err(fault) => reported matches Err(text) && text@ == fault.message_spec(),
        },
{
    match history {
        Ok(entries) => Ok(entries),
        Err(fault) => Err(fault.message()),
    }
}

/// The newest page of the history: entries that show rows of the
/// table, no more than a page holds. Where reading fails, the cause in
/// words.
pub fn get_clipboard_history(db: &Database) -> (reported: Result<Vec<HistoryRecord>, String>)
    ensures
        reported matches Ok(entries) ==> present_some(entries@) && entries@.len()
            <= HISTORY_PAGE,
{
    report_history(db.get_history(HISTORY_PAGE))
}

} // verus!
