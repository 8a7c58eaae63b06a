use android_fs::{entries_from_rows, entry_from_row, DirEntryRow, Entry, FileUri, Timestamp};

fn row(name: &str, mime: Option<&str>, modified: i64, size: i64) -> DirEntryRow {
    DirEntryRow {
        name: name.to_string(),
        uri: FileUri::new(format!("content://p/tree/t/document/{name}"), Some("content://p/tree/t".to_string())),
        last_modified: modified,
        byte_size: size,
        mime_type: mime.map(|m| m.to_string()),
    }
}

#[test]
fn row_without_mime_type_is_a_directory() {
    let e = entry_from_row(row("photos", None, 1_700_000_000_000, 4096));
    match e {
        Entry::Dir { name, last_modified, uri } => {
            assert_eq!(name, "photos");
            assert_eq!(last_modified, Timestamp { millis_since_epoch: 1_700_000_000_000 });
            assert_eq!(uri.document_top_tree_uri(), Some("content://p/tree/t"));
        },
        other => panic!("expected a directory, got {other:?}"),
    }
}

#[test]
fn any_mime_type_makes_a_file() {
    let e = entry_from_row(row("blob", Some("application/octet-stream"), 5, 12));
    assert!(matches!(
        e,
        Entry::File { ref name, len: 12, ref mime_type, last_modified: Timestamp { millis_since_epoch: 5 }, .. }
            if name == "blob" && mime_type == "application/octet-stream"
    ));
}

#[test]
fn listing_keeps_row_order() {
    let rows = vec![row("a", Some("text/plain"), 1, 1), row("b", None, 2, 0), row("c", Some("image/png"), 3, 30)];
    let entries = entries_from_rows(rows);
    assert_eq!(entries.len(), 3);
    assert!(matches!(entries[0], Entry::File { ref name, .. } if name == "a"));
    assert!(matches!(entries[1], Entry::Dir { ref name, .. } if name == "b"));
    assert!(matches!(entries[2], Entry::File { ref name, len: 30, .. } if name == "c"));
    assert!(entries_from_rows(Vec::new()).is_empty());
}
