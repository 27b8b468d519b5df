//! Records that the command surface passes around. Their persistence is done elsewhere.
use vstd::prelude::*;

verus! {

/// A note.
#[derive(Clone, Debug, PartialEq, Eq)]
pub struct Note {
    pub id: Option<i64>,
    pub title: String,
    pub content: String,
    pub tags: Vec<String>,
    pub is_favorite: i32,
    pub is_deleted: i32,
    pub created_at: String,
    pub updated_at: String,
    pub reminder_date: Option<String>,
    pub reminder_enabled: i32,
}

/// A message of the chat attached to a note.
#[derive(Clone, Debug, PartialEq, Eq)]
pub struct ChatMessage {
    pub id: Option<i64>,
    pub note_id: i64,
    pub role: String,
    pub content: String,
    pub timestamp: String,
}

/// Which notes a listing asks for.
#[derive(Clone, Debug, PartialEq, Eq)]
pub struct NoteFilter {
    pub search_query: Option<String>,
    /// `"inbox"`, `"favorites"`, `"trash"`, `"tag-<name>"` or `"calendar"`.
    pub view: String,
    pub tag: Option<String>,
}

/// The fields of a note that an update changes; `None` leaves a field as it is.
#[derive(Clone, Debug, PartialEq, Eq)]
pub struct NoteUpdate {
    pub title: Option<String>,
    pub content: Option<String>,
    pub tags: Option<Vec<String>>,
    pub is_favorite: Option<i32>,
    pub is_deleted: Option<i32>,
    pub reminder_date: Option<String>,
    pub reminder_enabled: Option<i32>,
}

/// An export of the database.
#[derive(Clone, Debug, PartialEq, Eq)]
pub struct ExportData {
    pub version: String,
    pub exported_at: String,
    pub notes: Vec<Note>,
    pub chat_messages: Vec<ChatMessage>,
}

/// One stored setting, as a key and its value.
#[derive(Clone, Debug, PartialEq, Eq)]
pub struct AppConfig {
    pub key: String,
    pub value: String,
}

} // verus!
