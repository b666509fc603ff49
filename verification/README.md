# knowledge_index

Verified core of a local knowledge-base indexer: which files are text
documents and in what language, how their text is extracted (UTF-8/UTF-16
text; DOCX through `zip` and `quick_xml`; PDF from the text that
`pdf_extract` gives, which the library takes as an argument), their SHA-256
content fingerprints, how a rescan changes the file index, the SQL statements
and paging of index searches, path matching for file events and for the
authorized root, and the review of AI suggestions as a state machine.

- `src/` — the library, proved with Verus.
- `tests/` — tests of the library.
- `app/` — file system access, the call into `pdf_extract` (which can panic
  on damaged files), the SQLite index store (`rusqlite`) and serde types,
  around the library.
