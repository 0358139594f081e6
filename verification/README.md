# sanchaya

A personal document vault: documents with their category, dates and issuer,
and one attached file per document (PDF, JPEG, PNG or WebP) kept under a
generated name.

- `src/` is the library, verified with Verus: the Document and Attachment
  entities and their rules, the use cases that add, update, list and delete
  documents and attach, fetch, open and remove files, and the reading of
  stored rows. The multi-step use cases (attaching and removing a file) are
  driven by step functions whose transitions are specified and whose laws
  (which failures are answered, when files are deleted) are proved.
- `app/` holds what talks to the outside world: the SQLite database, the
  files on disk, the serialised forms for the user interface, and the
  commands.
- `tests/` runs the library against in-memory repositories and storage.
