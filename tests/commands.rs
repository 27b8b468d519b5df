use jdnotes::commands::{
    add_chat_message, create_note, delete_chat_messages, export_database_json, export_envelope,
    export_json_at, get_all_tags, get_chat_messages, get_database_info, get_note_by_id,
    get_notes, hard_delete_note, import_database_json, import_from_indexeddb, message_ok,
    note_ok, restore_note, soft_delete_note, toggle_favorite, update_note, update_note_reminder,
    update_note_tags, ImportSummary,
};
use jdnotes::config::AppConfig;
use jdnotes::models::{NoteFilter, NoteUpdate};
use jdnotes::schema::get_init_sql;
use jdnotes::size::format_size;

#[test]
fn size_formatted_examples() {
    assert_eq!(format_size(0), "0 B");
    assert_eq!(format_size(1023), "1023 B");
    assert_eq!(format_size(1024), "1.00 KB");
    assert_eq!(format_size(1_048_576), "1.00 MB");
    assert_eq!(format_size(1536), "1.50 KB");
    assert_eq!(format_size(1_073_741_824), "1.00 GB");
    assert_eq!(format_size(5 * 1_073_741_824 * 1024), "5120.00 GB");
}

fn float_format(bytes: u64) -> String {
    let kb = 1024u64;
    let mb = kb * 1024;
    let gb = mb * 1024;
    if bytes >= gb {
        format!("{:.2} GB", bytes as f64 / gb as f64)
    } else if bytes >= mb {
        format!("{:.2} MB", bytes as f64 / mb as f64)
    } else if bytes >= kb {
        format!("{:.2} KB", bytes as f64 / kb as f64)
    } else {
        format!("{} B", bytes)
    }
}

#[test]
fn size_formatted_agrees_with_float_formatting() {
    for bytes in 0..70_000u64 {
        assert_eq!(format_size(bytes), float_format(bytes), "{}", bytes);
    }
    for k in 0..5_000u64 {
        let bytes = 1_048_576 + k * 5_243;
        assert_eq!(format_size(bytes), float_format(bytes), "{}", bytes);
        let bytes = 1_073_741_824 + k * 5_368_709;
        assert_eq!(format_size(bytes), float_format(bytes), "{}", bytes);
    }
    assert_eq!(format_size(1152), "1.12 KB");
    assert_eq!(format_size(u64::MAX), "17179869184.00 GB");
}

#[test]
fn database_info_fields() {
    let mut c = AppConfig::default();
    let info = get_database_info("/a/jdnotes.db".to_string(), true, 2048, &c);
    assert_eq!(info.path, "/a/jdnotes.db");
    assert!(info.exists);
    assert_eq!(info.size, 2048);
    assert_eq!(info.size_formatted, "2.00 KB");
    assert!(!info.is_custom);
    c.database_path = Some("/a/jdnotes.db".to_string());
    let info = get_database_info("/a/jdnotes.db".to_string(), false, 0, &c);
    assert_eq!(info.size_formatted, "0 B");
    assert!(info.is_custom);
}

#[test]
fn export_document() {
    let t = export_json_at("2024-01-02T03:04:05+00:00");
    assert_eq!(
        t,
        "{\n  \"version\": \"1.0\",\n  \"exported_at\": \"2024-01-02T03:04:05+00:00\",\n  \"notes\": [],\n  \"chat_messages\": []\n}"
    );
    let now = export_database_json().expect("export always succeeds");
    let v: serde_json::Value = serde_json::from_str(&now).unwrap();
    assert_eq!(v.get("version").and_then(|x| x.as_str()), Some("1.0"));
    assert!(v.get("exported_at").and_then(|x| x.as_str()).is_some());
    assert_eq!(import_database_json(&now), Ok(ImportSummary { notes_count: 0, messages_count: 0 }));
    let e = export_envelope("t".to_string());
    assert_eq!(e.version, "1.0");
    assert!(e.notes.is_empty() && e.chat_messages.is_empty());
}

const NOTE: &str = "{\"id\": 3, \"title\": \"t\", \"content\": \"c\", \"tags\": [\"a\", \"b\"], \"is_favorite\": 0, \"is_deleted\": 1, \"created_at\": \"x\", \"updated_at\": \"y\", \"reminder_date\": null, \"reminder_enabled\": 0}";
const MESSAGE: &str = "{\"note_id\": 3, \"role\": \"user\", \"content\": \"hi\", \"timestamp\": \"z\"}";

#[test]
fn import_counts_records() {
    let doc = format!(
        "{{\"version\": \"1.0\", \"exported_at\": \"now\", \"notes\": [{}, {}], \"chat_messages\": [{}]}}",
        NOTE, NOTE, MESSAGE
    );
    assert_eq!(import_database_json(&doc), Ok(ImportSummary { notes_count: 2, messages_count: 1 }));
    assert!(note_ok(NOTE));
    assert!(message_ok(MESSAGE));
}

#[test]
fn import_rejects_what_is_no_export() {
    assert!(import_database_json("not json").is_err());
    assert!(import_database_json("{\"version\": \"1.0\", \"exported_at\": \"now\", \"notes\": []}").is_err());
    assert!(import_database_json("{\"version\": 1, \"exported_at\": \"now\", \"notes\": [], \"chat_messages\": []}").is_err());
    let bad_note = NOTE.replace("\"is_favorite\": 0", "\"is_favorite\": 3000000000");
    assert!(!note_ok(&bad_note));
    let doc = format!(
        "{{\"version\": \"1.0\", \"exported_at\": \"now\", \"notes\": [{}], \"chat_messages\": []}}",
        bad_note
    );
    assert!(import_database_json(&doc).is_err());
    let float_id = MESSAGE.replace("\"note_id\": 3", "\"note_id\": 3.5");
    assert!(!message_ok(&float_id));
    assert!(!note_ok(&NOTE.replace("[\"a\", \"b\"]", "[\"a\", 2]")));
    assert!(note_ok(&NOTE.replace("\"id\": 3, ", "")));
}

#[test]
fn indexeddb_counts() {
    let r = import_from_indexeddb("{\"notes\": [1, 2, 3], \"chatMessages\": [{}], \"x\": 0}");
    assert!(r.success);
    assert_eq!(r.notes_imported, 3);
    assert_eq!(r.messages_imported, 1);
    let r = import_from_indexeddb("{\"notes\": \"none\"}");
    assert_eq!((r.notes_imported, r.messages_imported), (0, 0));
    let r = import_from_indexeddb("[1]");
    assert!(r.success);
    assert_eq!((r.notes_imported, r.messages_imported), (0, 0));
}

#[test]
fn record_commands_answer_in_place_of_the_sql_layer() {
    assert_eq!(create_note("t".to_string(), "c".to_string()), Ok(1));
    let filter = NoteFilter { search_query: None, view: "inbox".to_string(), tag: None };
    assert_eq!(get_notes(filter), Ok(vec![]));
    assert_eq!(get_note_by_id(1), Ok(None));
    let update = NoteUpdate {
        title: None,
        content: None,
        tags: None,
        is_favorite: Some(1),
        is_deleted: None,
        reminder_date: None,
        reminder_enabled: None,
    };
    assert_eq!(update_note(1, update), Ok(()));
    assert_eq!(soft_delete_note(1), Ok(()));
    assert_eq!(restore_note(1), Ok(()));
    assert_eq!(hard_delete_note(1), Ok(()));
    assert_eq!(toggle_favorite(1), Ok(()));
    assert_eq!(update_note_tags(1, vec!["a".to_string()]), Ok(()));
    assert_eq!(update_note_reminder(1, None, false), Ok(()));
    assert_eq!(get_all_tags(), Ok(vec![]));
    assert_eq!(add_chat_message(1, "user".to_string(), "hi".to_string()), Ok(1));
    assert_eq!(get_chat_messages(1), Ok(vec![]));
    assert_eq!(delete_chat_messages(1), Ok(()));
}

#[test]
fn init_sql_creates_both_tables() {
    let sql = get_init_sql();
    assert!(sql.contains("CREATE TABLE IF NOT EXISTS notes"));
    assert!(sql.contains("CREATE TABLE IF NOT EXISTS chat_messages"));
}
