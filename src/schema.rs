//! The tables of a new database.
use vstd::prelude::*;

verus! {

/// The SQL that creates the tables of a new database and the index on messages by note.
pub const INIT_SQL: &'static str = "CREATE TABLE IF NOT EXISTS notes (
    id INTEGER PRIMARY KEY AUTOINCREMENT,
    title TEXT NOT NULL DEFAULT '',
    content TEXT NOT NULL DEFAULT '',
    tags TEXT NOT NULL DEFAULT '[]',
    is_favorite INTEGER NOT NULL DEFAULT 0,
    is_deleted INTEGER NOT NULL DEFAULT 0,
    created_at TEXT NOT NULL,
    updated_at TEXT NOT NULL,
    reminder_date TEXT,
    reminder_enabled INTEGER NOT NULL DEFAULT 0
);

CREATE TABLE IF NOT EXISTS chat_messages (
    id INTEGER PRIMARY KEY AUTOINCREMENT,
    note_id INTEGER NOT NULL,
    role TEXT NOT NULL,
    content TEXT NOT NULL,
    timestamp TEXT NOT NULL,
    FOREIGN KEY (note_id) REFERENCES notes(id) ON DELETE CASCADE
);

CREATE INDEX IF NOT EXISTS idx_chat_messages_note_id ON chat_messages(note_id);
";

/// The SQL that the first migration runs.
pub fn get_init_sql() -> (r: &'static str)
    ensures
        r@ == INIT_SQL@,
{
    INIT_SQL
}

} // verus!
