//! The commands that the interface calls. Records of notes and messages are stored by the
//! interface's own SQL layer: the note and message commands here only answer in its place.
use crate::config::AppConfig;
use crate::json::{
    array_member, find_array_member, find_member, find_string_member, json_i32, json_i64,
    json_quoted, json_top, member_text, members_of, members_view, object_members, parse_i32, texts_view,
    parse_i64, parse_json, quote_json, string_member, JsonNode, JsonNodeView,
};
use crate::models::{ChatMessage, ExportData, Note, NoteFilter, NoteUpdate};
use crate::size::{format_size, size_text};
use vstd::prelude::*;

verus! {

// ---------------------------------------------------------------------------------------
// Notes and messages
// ---------------------------------------------------------------------------------------

/// Creates a note; answers with the id 1.
pub fn create_note(_title: String, _content: String) -> (r: Result<i64, String>)
    ensures
        r == Ok::<i64, String>(1),
{
    Ok(1)
}

/// Lists notes; answers with none.
pub fn get_notes(_filter: NoteFilter) -> (r: Result<Vec<Note>, String>)
    ensures
        r matches Ok(v) && v@.len() == 0,
{
    Ok(Vec::new())
}

/// Finds a note by its id; answers with none.
pub fn get_note_by_id(_id: i64) -> (r: Result<Option<Note>, String>)
    ensures
        r matches Ok(None),
{
    Ok(None)
}

/// Updates a note.
pub fn update_note(_id: i64, _data: NoteUpdate) -> (r: Result<(), String>)
    ensures
        r is Ok,
{
    Ok(())
}

/// Moves a note to the trash.
pub fn soft_delete_note(_id: i64) -> (r: Result<(), String>)
    ensures
        r is Ok,
{
    Ok(())
}

/// Takes a note back out of the trash.
pub fn restore_note(_id: i64) -> (r: Result<(), String>)
    ensures
        r is Ok,
{
    Ok(())
}

/// Deletes a note for good.
pub fn hard_delete_note(_id: i64) -> (r: Result<(), String>)
    ensures
        r is Ok,
{
    Ok(())
}

/// Marks a note as a favorite, or no longer.
pub fn toggle_favorite(_id: i64) -> (r: Result<(), String>)
    ensures
        r is Ok,
{
    Ok(())
}

/// Replaces the tags of a note.
pub fn update_note_tags(_id: i64, _tags: Vec<String>) -> (r: Result<(), String>)
    ensures
        r is Ok,
{
    Ok(())
}

/// Sets the reminder of a note.
pub fn update_note_reminder(
    _id: i64,
    _reminder_date: Option<String>,
    _reminder_enabled: bool,
) -> (r: Result<(), String>)
    ensures
        r is Ok,
{
    Ok(())
}

/// Lists the tags in use; answers with none.
pub fn get_all_tags() -> (r: Result<Vec<String>, String>)
    ensures
        r matches Ok(v) && v@.len() == 0,
{
    Ok(Vec::new())
}

/// Adds a message to the chat of a note; answers with the id 1.
pub fn add_chat_message(_note_id: i64, _role: String, _content: String) -> (r: Result<
    i64,
    String,
>)
    ensures
        r == Ok::<i64, String>(1),
{
    Ok(1)
}

/// Lists the chat of a note; answers with no messages.
pub fn get_chat_messages(_note_id: i64) -> (r: Result<Vec<ChatMessage>, String>)
    ensures
        r matches Ok(v) && v@.len() == 0,
{
    Ok(Vec::new())
}

/// Deletes the chat of a note.
pub fn delete_chat_messages(_note_id: i64) -> (r: Result<(), String>)
    ensures
        r is Ok,
{
    Ok(())
}

// ---------------------------------------------------------------------------------------
// The database file
// ---------------------------------------------------------------------------------------

/// What the interface shows of the database file.
#[derive(Clone, Debug, PartialEq, Eq)]
pub struct DatabaseInfo {
    pub path: String,
    pub exists: bool,
    /// Size in bytes; 0 when there is no file.
    pub size: u64,
    pub size_formatted: String,
    /// The configuration names a database path of its own.
    pub is_custom: bool,
}

/// Describes the database file at `path`, of `size` bytes, under `config`.
pub fn get_database_info(path: String, exists: bool, size: u64, config: &AppConfig) -> (r:
    DatabaseInfo)
    ensures
        r.path == path,
        r.exists == exists,
        r.size == size,
        r.size_formatted@ == size_text(size as nat),
        r.is_custom == config.database_path is Some,
{
    let is_custom = match &config.database_path {
        Some(_) => true,
        None => false,
    };
    DatabaseInfo { path, exists, size, size_formatted: format_size(size), is_custom }
}

// ---------------------------------------------------------------------------------------
// Export and import
// ---------------------------------------------------------------------------------------

/// The version that exports are written with.
pub const EXPORT_VERSION: &'static str = "1.0";

/// The export document made at `exported_at`, with its records left for the SQL layer.
pub open spec fn export_text(exported_at: Seq<char>) -> Seq<char> {
    "{\n  \"version\": "@ + json_quoted(EXPORT_VERSION@) + ",\n  \"exported_at\": "@ + json_quoted(
        exported_at,
    ) + ",\n  \"notes\": [],\n  \"chat_messages\": []\n}"@
}

/// Relies on chrono::Utc::now and chrono::DateTime::to_rfc3339: the time now, in RFC 3339.
/// Nothing is promised of its value.
#[verifier::external_body]
fn now_rfc3339() -> (r: String) {
    chrono::Utc::now().to_rfc3339()
}

/// The envelope of an export made at `exported_at`: no records of its own.
pub fn export_envelope(exported_at: String) -> (r: ExportData)
    ensures
        r.version@ == EXPORT_VERSION@,
        r.exported_at == exported_at,
        r.notes@.len() == 0,
        r.chat_messages@.len() == 0,
{
    ExportData {
        version: String::from_str(EXPORT_VERSION),
        exported_at,
        notes: Vec::new(),
        chat_messages: Vec::new(),
    }
}

/// The export document made at `exported_at`.
pub fn export_json_at(exported_at: &str) -> (r: String)
    ensures
        r@ == export_text(exported_at@),
{
    let mut r = String::from_str("{\n  \"version\": ");
    r.append(quote_json(EXPORT_VERSION).as_str());
    r.append(",\n  \"exported_at\": ");
    r.append(quote_json(exported_at).as_str());
    r.append(",\n  \"notes\": [],\n  \"chat_messages\": []\n}");
    r
}

/// The export document, made now.
pub fn export_database_json() -> (r: Result<String, String>)
    ensures
        r matches Ok(t) && exists|at: Seq<char>| t@ == export_text(at),
{
    let at = now_rfc3339();
    let t = export_json_at(at.as_str());
    assert(t@ == export_text(at@));
    Ok(t)
}

/// The member named `key` holds a string.
pub open spec fn has_string(ms: Seq<(Seq<char>, Seq<char>)>, key: Seq<char>) -> bool {
    string_member(ms, key) is Some
}

/// The member named `key` is absent, null, or a string.
pub open spec fn has_optional_string(ms: Seq<(Seq<char>, Seq<char>)>, key: Seq<char>) -> bool {
    match member_text(ms, key) {
        None => true,
        Some(t) => json_top(t) matches Some(JsonNodeView::Null) || json_top(t) matches Some(
            JsonNodeView::Str(_),
        ),
    }
}

/// The member named `key` holds a 64-bit integer.
pub open spec fn has_i64(ms: Seq<(Seq<char>, Seq<char>)>, key: Seq<char>) -> bool {
    match member_text(ms, key) {
        None => false,
        Some(t) => json_i64(t) is Some,
    }
}

/// The member named `key` is absent, null, or a 64-bit integer.
pub open spec fn has_optional_i64(ms: Seq<(Seq<char>, Seq<char>)>, key: Seq<char>) -> bool {
    match member_text(ms, key) {
        None => true,
        Some(t) => json_top(t) matches Some(JsonNodeView::Null) || json_i64(t) is Some,
    }
}

/// The member named `key` holds a 32-bit integer.
pub open spec fn has_i32(ms: Seq<(Seq<char>, Seq<char>)>, key: Seq<char>) -> bool {
    match member_text(ms, key) {
        None => false,
        Some(t) => json_i32(t) is Some,
    }
}

/// The member named `key` holds an array of strings.
pub open spec fn has_strings(ms: Seq<(Seq<char>, Seq<char>)>, key: Seq<char>) -> bool {
    match array_member(ms, key) {
        Some(items) => forall|i: int|
            0 <= i < items.len() ==> #[trigger] json_top(items[i]) matches Some(
                JsonNodeView::Str(_),
            ),
        None => false,
    }
}

/// A text holds a note record.
pub open spec fn note_fits(text: Seq<char>) -> bool {
    match json_top(text) {
        Some(JsonNodeView::Object(ms)) => has_optional_i64(ms, "id"@) && has_string(ms, "title"@)
            && has_string(ms, "content"@) && has_strings(ms, "tags"@) && has_i32(
            ms,
            "is_favorite"@,
        ) && has_i32(ms, "is_deleted"@) && has_string(ms, "created_at"@) && has_string(
            ms,
            "updated_at"@,
        ) && has_optional_string(ms, "reminder_date"@) && has_i32(ms, "reminder_enabled"@),
        _ => false,
    }
}

/// A text holds a chat message record.
pub open spec fn message_fits(text: Seq<char>) -> bool {
    match json_top(text) {
        Some(JsonNodeView::Object(ms)) => has_optional_i64(ms, "id"@) && has_i64(ms, "note_id"@)
            && has_string(ms, "role"@) && has_string(ms, "content"@) && has_string(
            ms,
            "timestamp"@,
        ),
        _ => false,
    }
}

/// The numbers of notes and of messages in an export document; `None` when the text is
/// not one.
pub open spec fn export_counts(text: Seq<char>) -> Option<(nat, nat)> {
    match json_top(text) {
        Some(JsonNodeView::Object(ms)) => if has_string(ms, "version"@) && has_string(
            ms,
            "exported_at"@,
        ) {
            match (array_member(ms, "notes"@), array_member(ms, "chat_messages"@)) {
                (Some(notes), Some(messages)) => if (forall|i: int|
                    0 <= i < notes.len() ==> #[trigger] note_fits(notes[i])) && (forall|i: int|
                    0 <= i < messages.len() ==> #[trigger] message_fits(messages[i])) {
                    Some((notes.len(), messages.len()))
                } else {
                    None
                },
                _ => None,
            }
        } else {
            None
        },
        _ => None,
    }
}

fn string_ok(ms: &Vec<(String, String)>, key: &str) -> (r: bool)
    ensures
        r == has_string(members_view(ms@), key@),
{
    match find_string_member(ms, key) {
        Some(_) => true,
        None => false,
    }
}

fn optional_string_ok(ms: &Vec<(String, String)>, key: &str) -> (r: bool)
    ensures
        r == has_optional_string(members_view(ms@), key@),
{
    match find_member(ms, key) {
        None => true,
        Some(t) => match parse_json(t.as_str()) {
            Some(JsonNode::Null) => true,
            Some(JsonNode::Str(_)) => true,
            _ => false,
        },
    }
}

fn i64_ok(ms: &Vec<(String, String)>, key: &str) -> (r: bool)
    ensures
        r == has_i64(members_view(ms@), key@),
{
    match find_member(ms, key) {
        None => false,
        Some(t) => match parse_i64(t.as_str()) {
            Some(_) => true,
            None => false,
        },
    }
}

fn optional_i64_ok(ms: &Vec<(String, String)>, key: &str) -> (r: bool)
    ensures
        r == has_optional_i64(members_view(ms@), key@),
{
    match find_member(ms, key) {
        None => true,
        Some(t) => {
            let null = match parse_json(t.as_str()) {
                Some(JsonNode::Null) => true,
                _ => false,
            };
            let integer = match parse_i64(t.as_str()) {
                Some(_) => true,
                None => false,
            };
            null || integer
        },
    }
}

fn i32_ok(ms: &Vec<(String, String)>, key: &str) -> (r: bool)
    ensures
        r == has_i32(members_view(ms@), key@),
{
    match find_member(ms, key) {
        None => false,
        Some(t) => match parse_i32(t.as_str()) {
            Some(_) => true,
            None => false,
        },
    }
}

fn strings_ok(ms: &Vec<(String, String)>, key: &str) -> (r: bool)
    ensures
        r == has_strings(members_view(ms@), key@),
{
    let items = match find_array_member(ms, key) {
        Some(items) => items,
        None => {
            return false;
        },
    };
    let ghost tv = texts_view(items@);
    let mut i: usize = 0;
    while i < items.len()
        invariant
            i <= items@.len(),
            tv == texts_view(items@),
            array_member(members_view(ms@), key@) == Some(tv),
            forall|j: int| 0 <= j < i ==> #[trigger] json_top(tv[j]) matches Some(JsonNodeView::Str(_)),
        decreases items.len() - i,
    {
        assert(tv[i as int] == items@[i as int]@);
        match parse_json(items[i].as_str()) {
            Some(JsonNode::Str(_)) => {},
            _ => {
                assert(!(json_top(tv[i as int]) matches Some(JsonNodeView::Str(_))));
                return false;
            },
        }
        i = i + 1;
    }
    true
}

/// Whether `text` holds a note record.
pub fn note_ok(text: &str) -> (r: bool)
    ensures
        r == note_fits(text@),
{
    let ms = match parse_json(text) {
        Some(JsonNode::Object(ms)) => ms,
        _ => {
            return false;
        },
    };
    optional_i64_ok(&ms, "id") && string_ok(&ms, "title") && string_ok(&ms, "content")
        && strings_ok(&ms, "tags") && i32_ok(&ms, "is_favorite") && i32_ok(&ms, "is_deleted")
        && string_ok(&ms, "created_at") && string_ok(&ms, "updated_at") && optional_string_ok(
        &ms,
        "reminder_date",
    ) && i32_ok(&ms, "reminder_enabled")
}

/// Whether `text` holds a chat message record.
pub fn message_ok(text: &str) -> (r: bool)
    ensures
        r == message_fits(text@),
{
    let ms = match parse_json(text) {
        Some(JsonNode::Object(ms)) => ms,
        _ => {
            return false;
        },
    };
    optional_i64_ok(&ms, "id") && i64_ok(&ms, "note_id") && string_ok(&ms, "role") && string_ok(
        &ms,
        "content",
    ) && string_ok(&ms, "timestamp")
}

/// What an import found.
#[derive(Clone, Copy, Debug, PartialEq, Eq, Structural)]
pub struct ImportSummary {
    pub notes_count: usize,
    pub messages_count: usize,
}

/// Reads an export document and counts its records; they are stored by the SQL layer. Fails
/// when the text is not an export document whose every note and message has the fields of
/// its record.
pub fn import_database_json(json_data: &str) -> (r: Result<ImportSummary, String>)
    ensures
        match r {
            Ok(s) => export_counts(json_data@) == Some(
                (s.notes_count as nat, s.messages_count as nat),
            ),
            Err(_) => export_counts(json_data@) is None,
        },
{
    let fail = String::from_str("JSON 解析失败: 不是导出数据");
    let ms = match parse_json(json_data) {
        Some(JsonNode::Object(ms)) => ms,
        _ => {
            return Err(fail);
        },
    };
    if !(string_ok(&ms, "version") && string_ok(&ms, "exported_at")) {
        return Err(fail);
    }
    let notes = match find_array_member(&ms, "notes") {
        Some(items) => items,
        None => {
            return Err(fail);
        },
    };
    let messages = match find_array_member(&ms, "chat_messages") {
        Some(items) => items,
        None => {
            return Err(fail);
        },
    };
    let ghost nv = texts_view(notes@);
    let ghost mv = texts_view(messages@);
    let mut i: usize = 0;
    while i < notes.len()
        invariant
            i <= notes@.len(),
            nv == texts_view(notes@),
            array_member(members_view(ms@), "notes"@) == Some(nv),
            array_member(members_view(ms@), "chat_messages"@) == Some(mv),
            json_top(json_data@) == Some(JsonNodeView::Object(members_view(ms@))),
            has_string(members_view(ms@), "version"@),
            has_string(members_view(ms@), "exported_at"@),
            forall|j: int| 0 <= j < i ==> #[trigger] note_fits(nv[j]),
        decreases notes.len() - i,
    {
        if !note_ok(notes[i].as_str()) {
            assert(!note_fits(nv[i as int]));
            return Err(fail);
        }
        i = i + 1;
    }
    let mut k: usize = 0;
    while k < messages.len()
        invariant
            k <= messages@.len(),
            mv == texts_view(messages@),
            array_member(members_view(ms@), "chat_messages"@) == Some(mv),
            array_member(members_view(ms@), "notes"@) == Some(nv),
            forall|j: int| 0 <= j < nv.len() ==> #[trigger] note_fits(nv[j]),
            json_top(json_data@) == Some(JsonNodeView::Object(members_view(ms@))),
            has_string(members_view(ms@), "version"@),
            has_string(members_view(ms@), "exported_at"@),
            forall|j: int| 0 <= j < k ==> #[trigger] message_fits(mv[j]),
        decreases messages.len() - k,
    {
        if !message_ok(messages[k].as_str()) {
            assert(!message_fits(mv[k as int]));
            return Err(fail);
        }
        k = k + 1;
    }
    Ok(ImportSummary { notes_count: notes.len(), messages_count: messages.len() })
}

/// What an import of data kept by the browser found.
#[derive(Clone, Copy, Debug, PartialEq, Eq, Structural)]
pub struct IndexedDbImport {
    pub success: bool,
    pub notes_imported: usize,
    pub messages_imported: usize,
}

/// The length of the array that the member named `key` holds; 0 when it holds none.
pub open spec fn array_len_or_zero(ms: Seq<(Seq<char>, Seq<char>)>, key: Seq<char>) -> nat {
    match array_member(ms, key) {
        Some(items) => items.len(),
        None => 0,
    }
}

/// Counts the `notes` and `chatMessages` arrays of the JSON text `data`, exported from the
/// browser's store; a missing array counts 0.
pub fn import_from_indexeddb(data: &str) -> (r: IndexedDbImport)
    ensures
        r.success,
        r.notes_imported == array_len_or_zero(object_members(data@), "notes"@),
        r.messages_imported == array_len_or_zero(object_members(data@), "chatMessages"@),
{
    let ms = members_of(data);
    let notes_imported = match find_array_member(&ms, "notes") {
        Some(items) => items.len(),
        None => 0,
    };
    let messages_imported = match find_array_member(&ms, "chatMessages") {
        Some(items) => items.len(),
        None => 0,
    };
    IndexedDbImport { success: true, notes_imported, messages_imported }
}

} // verus!
