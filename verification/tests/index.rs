use knowledge_index::index::{compute_index_delta, kind_name, EntryKind, FileEntry, IndexDelta, StoredEntry};

fn entry(path: &str, size: u64, modified_ms: Option<i64>) -> FileEntry {
    let name = path.rsplit('/').next().unwrap().to_string();
    FileEntry {
        normalized_path: path.into(),
        name,
        extension: Some("txt".into()),
        kind: EntryKind::File,
        size,
        modified_ms,
        file_identity: None,
    }
}

fn stored(e: &FileEntry) -> StoredEntry {
    StoredEntry {
        normalized_path: e.normalized_path.clone(),
        name: e.name.clone(),
        extension: e.extension.clone(),
        kind: kind_name(&e.kind).to_string(),
        size: e.size as i64,
        modified_ms: e.modified_ms,
        file_identity: e.file_identity.clone(),
    }
}

#[test]
fn kind_names_are_stored_labels() {
    assert_eq!(kind_name(&EntryKind::File), "file");
    assert_eq!(kind_name(&EntryKind::Directory), "directory");
    assert_eq!(kind_name(&EntryKind::Symlink), "symlink");
    assert_eq!(kind_name(&EntryKind::Junction), "junction");
}

#[test]
fn first_scan_adds_and_empty_rescan_removes() {
    let a = entry("root/a.txt", 1, None);
    assert_eq!(
        compute_index_delta(&[], &[a.clone()]),
        IndexDelta { added: 1, updated: 0, removed: 0 }
    );
    assert_eq!(
        compute_index_delta(&[stored(&a)], &[]),
        IndexDelta { added: 0, updated: 0, removed: 1 }
    );
}

#[test]
fn unchanged_rescan_reports_nothing() {
    let entries = vec![entry("root/a.txt", 1, Some(1)), entry("root/b.txt", 2, None)];
    let previous: Vec<StoredEntry> = entries.iter().map(stored).collect();
    assert_eq!(
        compute_index_delta(&previous, &entries),
        IndexDelta { added: 0, updated: 0, removed: 0 }
    );
}

#[test]
fn changed_records_are_updates() {
    let a = entry("root/a.txt", 1, Some(1));
    let b = entry("root/b.txt", 1, Some(1));
    let previous = vec![stored(&a), stored(&b)];
    let mut grown = a.clone();
    grown.size = 2;
    let c = entry("root/c.txt", 3, None);
    assert_eq!(
        compute_index_delta(&previous, &[grown, c]),
        IndexDelta { added: 1, updated: 1, removed: 1 }
    );
    let mut renamed_kind = stored(&b);
    renamed_kind.kind = "directory".into();
    assert_eq!(
        compute_index_delta(&[renamed_kind], &[b]),
        IndexDelta { added: 0, updated: 1, removed: 0 }
    );
}

#[test]
fn repeated_paths_count_per_entry_and_per_stored_path() {
    let a = entry("root/a.txt", 1, None);
    let mut older = stored(&a);
    older.size = 9;
    // The last stored row for a path is the one compared.
    assert_eq!(
        compute_index_delta(&[older.clone(), stored(&a)], &[a.clone(), a.clone()]),
        IndexDelta { added: 0, updated: 0, removed: 0 }
    );
    assert_eq!(
        compute_index_delta(&[stored(&a), older.clone()], &[a.clone()]),
        IndexDelta { added: 0, updated: 1, removed: 0 }
    );
    assert_eq!(
        compute_index_delta(&[stored(&a), older], &[]),
        IndexDelta { added: 0, updated: 0, removed: 1 }
    );
}
