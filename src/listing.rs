use vstd::prelude::*;
use crate::models::{Entry, FileUri, Timestamp};

verus! {

/// A row of a directory listing as the storage peer returns it.
#[derive(Debug)]
pub struct DirEntryRow {
    pub name: String,
    pub uri: FileUri,
    /// Milliseconds since the Unix epoch.
    pub last_modified: i64,
    pub byte_size: i64,
    /// Absent for directories.
    pub mime_type: Option<String>,
}

/// The entry a listing row stands for: a file when it has a mime type, any
/// mime type at all, and a directory when it has none.
pub open spec fn spec_entry(row: DirEntryRow) -> Entry {
    match row.mime_type {
        Some(mime_type) => Entry::File {
            uri: row.uri,
            name: row.name,
            last_modified: Timestamp { millis_since_epoch: row.last_modified as u64 },
            len: row.byte_size as u64,
            mime_type,
        },
        None => Entry::Dir {
            uri: row.uri,
            name: row.name,
            last_modified: Timestamp { millis_since_epoch: row.last_modified as u64 },
        },
    }
}

/// The entry a listing row stands for.
pub fn entry_from_row(row: DirEntryRow) -> (r: Entry)
    ensures
        r == spec_entry(row),
        r is Dir <==> row.mime_type is None,
{
    let last_modified = Timestamp { millis_since_epoch: row.last_modified as u64 };
    match row.mime_type {
        Some(mime_type) => Entry::File {
            uri: row.uri,
            name: row.name,
            last_modified,
            len: row.byte_size as u64,
            mime_type,
        },
        None => Entry::Dir { uri: row.uri, name: row.name, last_modified },
    }
}

/// The entries a listing stands for, in the order of its rows.
pub fn entries_from_rows(rows: Vec<DirEntryRow>) -> (r: Vec<Entry>)
    ensures
        r@ == rows@.map_values(|row: DirEntryRow| spec_entry(row)),
        forall|i: int| 0 <= i < r@.len() ==> (#[trigger] r@[i] is Dir <==> rows@[i].mime_type is None),
{
    let ghost orig = rows@;
    let n = rows.len();
    let mut rows = rows;
    let mut reversed: Vec<Entry> = Vec::new();
    while rows.len() > 0
        invariant
            orig.len() == n,
            rows@.len() <= n,
            rows@ == orig.subrange(0, rows@.len() as int),
            reversed@.len() == n - rows@.len(),
            forall|j: int| 0 <= j < reversed@.len() ==> #[trigger] reversed@[j] == spec_entry(orig[n - 1 - j]),
        decreases rows@.len(),
    {
        let ghost before = rows@;
        let row = rows.pop().unwrap();
        assert(row == orig[before.len() - 1]);
        assert(rows@ =~= orig.subrange(0, rows@.len() as int));
        reversed.push(entry_from_row(row));
    }
    let mut out: Vec<Entry> = Vec::new();
    while reversed.len() > 0
        invariant
            orig.len() == n,
            reversed@.len() + out@.len() == n,
            forall|j: int| 0 <= j < reversed@.len() ==> #[trigger] reversed@[j] == spec_entry(orig[n - 1 - j]),
            forall|j: int| 0 <= j < out@.len() ==> #[trigger] out@[j] == spec_entry(orig[j]),
        decreases reversed@.len(),
    {
        let ghost before = reversed@;
        let e = reversed.pop().unwrap();
        assert(e == before[before.len() - 1]);
        assert forall|j: int| 0 <= j < reversed@.len() implies #[trigger] reversed@[j] == spec_entry(orig[n - 1 - j]) by {
            assert(reversed@[j] == before[j]);
        }
        out.push(e);
    }
    assert(out@ =~= orig.map_values(|row: DirEntryRow| spec_entry(row)));
    out
}

} // verus!
