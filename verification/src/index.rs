use vstd::prelude::*;

verus! {

/// The kind of an indexed file system entry.
#[derive(Debug, Clone, Copy, PartialEq, Eq)]
pub enum EntryKind {
    File,
    Directory,
    Symlink,
    Junction,
}

/// A file system entry found by a scan.
#[derive(Debug, Clone, PartialEq, Eq)]
pub struct FileEntry {
    pub normalized_path: String,
    pub name: String,
    pub extension: Option<String>,
    pub kind: EntryKind,
    pub size: u64,
    pub modified_ms: Option<i64>,
    pub file_identity: Option<String>,
}

/// An entry as the index stores it (one row of `file_entries`).
#[derive(Debug, Clone, PartialEq, Eq)]
pub struct StoredEntry {
    pub normalized_path: String,
    pub name: String,
    pub extension: Option<String>,
    pub kind: String,
    pub size: i64,
    pub modified_ms: Option<i64>,
    pub file_identity: Option<String>,
}

/// A path a scan could not read.
#[derive(Debug, Clone, PartialEq, Eq)]
pub struct ScanError {
    pub path: String,
    pub kind: String,
    pub message: String,
}

/// How a full scan changed the index of a root.
#[derive(Debug, Clone, Copy, PartialEq, Eq)]
pub struct IndexDelta {
    pub added: i64,
    pub updated: i64,
    pub removed: i64,
}

/// A folder whose files are indexed.
#[derive(Debug, Clone, PartialEq, Eq)]
pub struct ScanRoot {
    pub path: String,
    pub normalized_path: String,
    pub created_at: String,
    pub last_scan_at: Option<String>,
}

/// The name the index stores for an entry kind.
pub open spec fn kind_label(kind: EntryKind) -> Seq<char> {
    match kind {
        EntryKind::File => "file"@,
        EntryKind::Directory => "directory"@,
        EntryKind::Symlink => "symlink"@,
        EntryKind::Junction => "junction"@,
    }
}

/// The name the index stores for an entry kind.
pub fn kind_name(kind: &EntryKind) -> (r: &'static str)
    ensures
        r@ == kind_label(*kind),
{
    match kind {
        EntryKind::File => "file",
        EntryKind::Directory => "directory",
        EntryKind::Symlink => "symlink",
        EntryKind::Junction => "junction",
    }
}

/// Distinct entry kinds have distinct stored names.
pub proof fn lemma_kind_label_injective(a: EntryKind, b: EntryKind)
    ensures
        kind_label(a) == kind_label(b) <==> a == b,
{
    reveal_strlit("file");
    reveal_strlit("directory");
    reveal_strlit("symlink");
    reveal_strlit("junction");
    if a != b {
        match a {
            EntryKind::File => assert(kind_label(a)[0] != kind_label(b)[0] || kind_label(a).len() != kind_label(b).len()),
            EntryKind::Directory => assert(kind_label(a)[0] != kind_label(b)[0]),
            EntryKind::Symlink => assert(kind_label(a)[0] != kind_label(b)[0] || kind_label(a).len() != kind_label(b).len()),
            EntryKind::Junction => assert(kind_label(a)[0] != kind_label(b)[0]),
        }
    }
}

pub open spec fn opt_view(o: Option<String>) -> Option<Seq<char>> {
    match o {
        Some(s) => Some(s@),
        None => None,
    }
}

/// The stored record of a scanned entry, as compared for changes:
/// name, extension, kind name, size (as `i64`), modification time and identity.
pub open spec fn entry_record(e: FileEntry) -> (Seq<char>, Option<Seq<char>>, Seq<char>, i64, Option<i64>, Option<Seq<char>>) {
    (e.name@, opt_view(e.extension), kind_label(e.kind), e.size as i64, e.modified_ms, opt_view(e.file_identity))
}

/// The record of a stored entry, as compared for changes.
pub open spec fn stored_record(s: StoredEntry) -> (Seq<char>, Option<Seq<char>>, Seq<char>, i64, Option<i64>, Option<Seq<char>>) {
    (s.name@, opt_view(s.extension), s.kind@, s.size, s.modified_ms, opt_view(s.file_identity))
}

/// The stored entry for `path`: the last stored row with that path, as a map
/// filled row by row keeps it.
pub open spec fn stored_lookup(previous: Seq<StoredEntry>, path: Seq<char>) -> Option<StoredEntry>
    decreases previous.len(),
{
    if previous.len() == 0 {
        None
    } else if previous.last().normalized_path@ == path {
        Some(previous.last())
    } else {
        stored_lookup(previous.drop_last(), path)
    }
}

/// Whether some entry has this path.
pub open spec fn entries_have_path(entries: Seq<FileEntry>, path: Seq<char>) -> bool {
    exists|i: int| 0 <= i < entries.len() && entries[i].normalized_path@ == path
}

/// Whether some stored row has this path.
pub open spec fn stored_have_path(previous: Seq<StoredEntry>, path: Seq<char>) -> bool {
    exists|i: int| 0 <= i < previous.len() && previous[i].normalized_path@ == path
}

/// The scanned entry at `i` is new: no stored row has its path.
pub open spec fn is_added(previous: Seq<StoredEntry>, entries: Seq<FileEntry>, i: int) -> bool {
    stored_lookup(previous, entries[i].normalized_path@) is None
}

/// The scanned entry at `i` has a stored row whose record differs.
pub open spec fn is_updated(previous: Seq<StoredEntry>, entries: Seq<FileEntry>, i: int) -> bool {
    match stored_lookup(previous, entries[i].normalized_path@) {
        Some(s) => stored_record(s) != entry_record(entries[i]),
        None => false,
    }
}

/// The stored row at `i` is the last with its path, and no scanned entry has
/// that path: one stored path that the scan no longer finds.
pub open spec fn is_removed(previous: Seq<StoredEntry>, entries: Seq<FileEntry>, i: int) -> bool {
    &&& !stored_have_path(previous.subrange(i + 1, previous.len() as int), previous[i].normalized_path@)
    &&& !entries_have_path(entries, previous[i].normalized_path@)
}

pub open spec fn count_added(previous: Seq<StoredEntry>, entries: Seq<FileEntry>, k: int) -> nat
    decreases k,
{
    if k <= 0 {
        0
    } else {
        count_added(previous, entries, k - 1) + if is_added(previous, entries, k - 1) { 1nat } else { 0nat }
    }
}

pub open spec fn count_updated(previous: Seq<StoredEntry>, entries: Seq<FileEntry>, k: int) -> nat
    decreases k,
{
    if k <= 0 {
        0
    } else {
        count_updated(previous, entries, k - 1) + if is_updated(previous, entries, k - 1) { 1nat } else { 0nat }
    }
}

pub open spec fn count_removed(previous: Seq<StoredEntry>, entries: Seq<FileEntry>, k: int) -> nat
    decreases k,
{
    if k <= 0 {
        0
    } else {
        count_removed(previous, entries, k - 1) + if is_removed(previous, entries, k - 1) { 1nat } else { 0nat }
    }
}

/// The change from the stored rows of a root to the entries of a new scan:
/// entries whose path is not stored are added; entries whose stored record
/// differs are updated (each counted once per scanned entry); stored paths that
/// the scan no longer finds are removed (each path once).
pub open spec fn index_delta(previous: Seq<StoredEntry>, entries: Seq<FileEntry>) -> (nat, nat, nat) {
    (
        count_added(previous, entries, entries.len() as int),
        count_updated(previous, entries, entries.len() as int),
        count_removed(previous, entries, previous.len() as int),
    )
}

} // verus!

verus! {

fn optional_text_equal(a: &Option<String>, b: &Option<String>) -> (r: bool)
    ensures
        r == (opt_view(*a) == opt_view(*b)),
{
    match (a, b) {
        (Some(x), Some(y)) => crate::text::str_equal(x.as_str(), y.as_str()),
        (None, None) => true,
        _ => false,
    }
}

fn optional_i64_equal(a: Option<i64>, b: Option<i64>) -> (r: bool)
    ensures
        r == (a == b),
{
    match (a, b) {
        (Some(x), Some(y)) => x == y,
        (None, None) => true,
        _ => false,
    }
}

/// Whether a stored row holds the same record as a scanned entry.
fn same_record(stored: &StoredEntry, entry: &FileEntry) -> (r: bool)
    ensures
        r == (stored_record(*stored) == entry_record(*entry)),
{
    stored.name == entry.name && optional_text_equal(&stored.extension, &entry.extension)
        && crate::text::str_equal(stored.kind.as_str(), kind_name(&entry.kind)) && stored.size
        == entry.size as i64 && optional_i64_equal(stored.modified_ms, entry.modified_ms)
        && optional_text_equal(&stored.file_identity, &entry.file_identity)
}

/// The index of the last stored row with `path`.
fn find_stored(previous: &[StoredEntry], path: &String) -> (r: Option<usize>)
    ensures
        r is None ==> stored_lookup(previous@, path@) is None,
        r matches Some(i) ==> i < previous@.len() && stored_lookup(previous@, path@) == Some(previous@[i as int]),
{
    let mut k: usize = previous.len();
    assert(previous@.take(k as int) == previous@);
    while k > 0
        invariant
            k <= previous@.len(),
            stored_lookup(previous@, path@) == stored_lookup(previous@.take(k as int), path@),
        decreases k,
    {
        let ghost prefix = previous@.take(k as int);
        assert(prefix.drop_last() == previous@.take(k - 1));
        if previous[k - 1].normalized_path == *path {
            return Some(k - 1);
        }
        k = k - 1;
    }
    None
}

fn entries_contain_path(entries: &[FileEntry], path: &String) -> (r: bool)
    ensures
        r == entries_have_path(entries@, path@),
{
    let mut i: usize = 0;
    while i < entries.len()
        invariant
            i <= entries@.len(),
            forall|j: int| 0 <= j < i ==> entries@[j].normalized_path@ != path@,
        decreases entries@.len() - i,
    {
        if entries[i].normalized_path == *path {
            return true;
        }
        i = i + 1;
    }
    false
}

/// Whether a stored row after `start` has `path`.
fn stored_contain_path_after(previous: &[StoredEntry], start: usize, path: &String) -> (r: bool)
    requires
        start <= previous@.len(),
    ensures
        r == stored_have_path(previous@.subrange(start as int, previous@.len() as int), path@),
{
    let ghost tail = previous@.subrange(start as int, previous@.len() as int);
    let mut i: usize = start;
    while i < previous.len()
        invariant
            start <= i <= previous@.len(),
            tail == previous@.subrange(start as int, previous@.len() as int),
            forall|j: int| 0 <= j < i - start ==> tail[j].normalized_path@ != path@,
        decreases previous@.len() - i,
    {
        if previous[i].normalized_path == *path {
            assert(tail[i - start].normalized_path@ == path@);
            return true;
        }
        i = i + 1;
    }
    false
}

/// How replacing the stored rows `previous` of a root by the scanned `entries`
/// changes the index (the counts are converted with `as i64`).
pub fn compute_index_delta(previous: &[StoredEntry], entries: &[FileEntry]) -> (delta: IndexDelta)
    ensures
        delta.added == index_delta(previous@, entries@).0 as i64,
        delta.updated == index_delta(previous@, entries@).1 as i64,
        delta.removed == index_delta(previous@, entries@).2 as i64,
{
    let mut added: usize = 0;
    let mut updated: usize = 0;
    let mut i: usize = 0;
    while i < entries.len()
        invariant
            i <= entries@.len(),
            added == count_added(previous@, entries@, i as int),
            updated == count_updated(previous@, entries@, i as int),
            added <= i,
            updated <= i,
        decreases entries@.len() - i,
    {
        match find_stored(previous, &entries[i].normalized_path) {
            None => {
                added = added + 1;
            },
            Some(k) => {
                if !same_record(&previous[k], &entries[i]) {
                    updated = updated + 1;
                }
            },
        }
        i = i + 1;
    }
    let mut removed: usize = 0;
    let mut k: usize = 0;
    while k < previous.len()
        invariant
            k <= previous@.len(),
            removed == count_removed(previous@, entries@, k as int),
            removed <= k,
        decreases previous@.len() - k,
    {
        let path = &previous[k].normalized_path;
        if !stored_contain_path_after(previous, k + 1, path) && !entries_contain_path(entries, path) {
            removed = removed + 1;
        }
        k = k + 1;
    }
    IndexDelta { added: added as i64, updated: updated as i64, removed: removed as i64 }
}

} // verus!

verus! {

/// No two stored rows share a path (the index keeps one row per root and path).
pub open spec fn stored_paths_distinct(previous: Seq<StoredEntry>) -> bool {
    forall|a: int, b: int|
        0 <= a < b < previous.len() ==> previous[a].normalized_path@ != previous[b].normalized_path@
}

/// No two scanned entries share a path.
pub open spec fn entry_paths_distinct(entries: Seq<FileEntry>) -> bool {
    forall|a: int, b: int|
        0 <= a < b < entries.len() ==> entries[a].normalized_path@ != entries[b].normalized_path@
}

/// The stored row holds exactly what storing the scanned entry writes.
pub open spec fn stores_entry(stored: StoredEntry, entry: FileEntry) -> bool {
    &&& stored.normalized_path@ == entry.normalized_path@
    &&& stored_record(stored) == entry_record(entry)
}

proof fn lemma_lookup_distinct(previous: Seq<StoredEntry>, j: int)
    requires
        0 <= j < previous.len(),
        stored_paths_distinct(previous),
    ensures
        stored_lookup(previous, previous[j].normalized_path@) == Some(previous[j]),
    decreases previous.len(),
{
    if j < previous.len() - 1 {
        let shorter = previous.drop_last();
        assert(shorter[j] == previous[j]);
        assert(previous.last() == previous[previous.len() - 1]);
        lemma_lookup_distinct(shorter, j);
    }
}

proof fn lemma_lookup_empty(path: Seq<char>)
    ensures
        stored_lookup(Seq::<StoredEntry>::empty(), path) is None,
{
}

/// Scanning a root with nothing stored adds every scanned entry and updates and
/// removes nothing.
pub proof fn lemma_first_scan_adds_everything(entries: Seq<FileEntry>)
    ensures
        index_delta(Seq::empty(), entries) == (entries.len(), 0nat, 0nat),
{
    let previous = Seq::<StoredEntry>::empty();
    assert forall|k: int| 0 <= k <= entries.len() implies count_added(previous, entries, k) == k
        && count_updated(previous, entries, k) == 0 by {
        lemma_counts_on_empty(entries, k);
    }
}

proof fn lemma_counts_on_empty(entries: Seq<FileEntry>, k: int)
    requires
        0 <= k <= entries.len(),
    ensures
        count_added(Seq::empty(), entries, k) == k,
        count_updated(Seq::empty(), entries, k) == 0,
    decreases k,
{
    if k > 0 {
        lemma_counts_on_empty(entries, k - 1);
        lemma_lookup_empty(entries[k - 1].normalized_path@);
    }
}

proof fn lemma_removed_all(previous: Seq<StoredEntry>, k: int)
    requires
        0 <= k <= previous.len(),
        stored_paths_distinct(previous),
    ensures
        count_removed(previous, Seq::empty(), k) == k,
    decreases k,
{
    if k > 0 {
        lemma_removed_all(previous, k - 1);
        let i = k - 1;
        let tail = previous.subrange(i + 1, previous.len() as int);
        assert forall|j: int| 0 <= j < tail.len() implies tail[j].normalized_path@ != previous[i].normalized_path@ by {
            assert(tail[j] == previous[i + 1 + j]);
        }
    }
}

/// A scan that finds nothing under a root whose stored paths are distinct
/// removes every stored row and adds and updates nothing.
pub proof fn lemma_empty_scan_removes_everything(previous: Seq<StoredEntry>)
    requires
        stored_paths_distinct(previous),
    ensures
        index_delta(previous, Seq::empty()) == (0nat, 0nat, previous.len()),
{
    lemma_removed_all(previous, previous.len() as int);
}

proof fn lemma_unchanged_counts(previous: Seq<StoredEntry>, entries: Seq<FileEntry>, k: int)
    requires
        0 <= k <= entries.len(),
        previous.len() == entries.len(),
        entry_paths_distinct(entries),
        forall|i: int| 0 <= i < entries.len() ==> stores_entry(#[trigger] previous[i], entries[i]),
    ensures
        count_added(previous, entries, k) == 0,
        count_updated(previous, entries, k) == 0,
        count_removed(previous, entries, k) == 0,
    decreases k,
{
    if k > 0 {
        lemma_unchanged_counts(previous, entries, k - 1);
        let i = k - 1;
        assert(stores_entry(previous[i], entries[i]));
        assert(stored_paths_distinct(previous)) by {
            assert forall|a: int, b: int| 0 <= a < b < previous.len() implies previous[a].normalized_path@
                != previous[b].normalized_path@ by {
                assert(stores_entry(previous[a], entries[a]));
                assert(stores_entry(previous[b], entries[b]));
            }
        }
        lemma_lookup_distinct(previous, i);
        assert(entries[i].normalized_path@ == previous[i].normalized_path@);
        assert(!is_added(previous, entries, i));
        assert(!is_updated(previous, entries, i));
        assert(entries_have_path(entries, previous[i].normalized_path@));
        assert(!is_removed(previous, entries, i));
    }
}

/// Scanning a root again and finding exactly what is stored (one scanned
/// entry per stored row, same paths and records, no path twice) changes nothing.
pub proof fn lemma_unchanged_scan_reports_no_change(previous: Seq<StoredEntry>, entries: Seq<FileEntry>)
    requires
        previous.len() == entries.len(),
        entry_paths_distinct(entries),
        forall|i: int| 0 <= i < entries.len() ==> stores_entry(#[trigger] previous[i], entries[i]),
    ensures
        index_delta(previous, entries) == (0nat, 0nat, 0nat),
{
    lemma_unchanged_counts(previous, entries, entries.len() as int);
}

/// A scanned entry differs from a stored row in what the index records: its
/// name, extension, kind name, size (as `i64`), modification time or identity.
pub open spec fn entry_differs(s: StoredEntry, e: FileEntry) -> bool {
    ||| s.name@ != e.name@
    ||| opt_view(s.extension) != opt_view(e.extension)
    ||| s.kind@ != kind_label(e.kind)
    ||| s.size != e.size as i64
    ||| s.modified_ms != e.modified_ms
    ||| opt_view(s.file_identity) != opt_view(e.file_identity)
}

/// A scanned entry is counted as updated exactly when a row with its path is
/// stored and the entry differs from that row in any recorded field, the
/// modification time included.
pub proof fn lemma_updated_means_changed(previous: Seq<StoredEntry>, entries: Seq<FileEntry>, i: int)
    requires
        0 <= i < entries.len(),
    ensures
        is_updated(previous, entries, i) <==> (stored_lookup(previous, entries[i].normalized_path@) matches Some(s)
            && entry_differs(s, entries[i])),
{
    match stored_lookup(previous, entries[i].normalized_path@) {
        Some(s) => {
            let e = entries[i];
            if entry_differs(s, e) {
                if s.name@ != e.name@ {
                    assert(stored_record(s).0 != entry_record(e).0);
                } else if opt_view(s.extension) != opt_view(e.extension) {
                    assert(stored_record(s).1 != entry_record(e).1);
                } else if s.kind@ != kind_label(e.kind) {
                    assert(stored_record(s).2 != entry_record(e).2);
                } else if s.size != e.size as i64 {
                    assert(stored_record(s).3 != entry_record(e).3);
                } else if s.modified_ms != e.modified_ms {
                    assert(stored_record(s).4 != entry_record(e).4);
                } else {
                    assert(stored_record(s).5 != entry_record(e).5);
                }
            }
        },
        None => {},
    }
}

/// Rescanning a root whose one stored row has the path of the one scanned
/// entry adds and removes nothing, and updates one entry exactly when the
/// entry differs from the row in a recorded field: an edit that only changes
/// the modification time counts.
pub proof fn lemma_same_path_rescan(s: StoredEntry, e: FileEntry)
    requires
        s.normalized_path@ == e.normalized_path@,
    ensures
        index_delta(seq![s], seq![e]) == (0nat, if entry_differs(s, e) { 1nat } else { 0nat }, 0nat),
{
    let previous = seq![s];
    let entries = seq![e];
    assert(previous.drop_last().len() == 0);
    assert(stored_lookup(previous, e.normalized_path@) == Some(s));
    lemma_updated_means_changed(previous, entries, 0);
    assert(count_added(previous, entries, 0) == 0);
    assert(count_updated(previous, entries, 0) == 0);
    assert(count_removed(previous, entries, 0) == 0);
    assert(entries_have_path(entries, previous[0].normalized_path@)) by {
        assert(entries[0].normalized_path@ == previous[0].normalized_path@);
    }
}

/// A scanned entry whose path no stored row has is added, and a stored row
/// whose path the scan no longer finds is removed.
pub proof fn lemma_moved_entry_rescan(s: StoredEntry, e: FileEntry)
    requires
        s.normalized_path@ != e.normalized_path@,
    ensures
        index_delta(seq![s], seq![e]) == (1nat, 0nat, 1nat),
{
    let previous = seq![s];
    let entries = seq![e];
    assert(previous.last() == s);
    assert(previous.drop_last() =~= Seq::<StoredEntry>::empty());
    lemma_lookup_empty(e.normalized_path@);
    assert(stored_lookup(previous, e.normalized_path@) is None);
    assert(count_added(previous, entries, 0) == 0);
    assert(count_updated(previous, entries, 0) == 0);
    assert(count_removed(previous, entries, 0) == 0);
    assert(!stored_have_path(previous.subrange(1, 1), s.normalized_path@));
    assert(!entries_have_path(entries, s.normalized_path@));
}

} // verus!
