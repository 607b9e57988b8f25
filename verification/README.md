# ace_tool

Verified core of a codebase indexing and search client. The library under
`src/` is checked by Verus; `app/` holds the runtime around it.

- `config`: settings, the normalized service address, default file-type and
  exclusion lists, the static upload strategy.
- `hashing`: blob names (SHA-256 of path and content, hex) and the
  configuration fingerprint.
- `text`: line splitting with `str::lines` semantics, decimal rendering,
  substring search, unsigned integer parsing.
- `index::manager`: index entries, content cleaning and binary detection,
  splitting files into blobs, greedy upload batching, per-file cache checks.
- `index::pattern`: glob exclude patterns and ignore rules.
- `index::decode`: text decoding with encoding detection.
- `index::flow`: the steps of an indexing run (per file and for the whole
  run, as a state machine), and the report of a run.
- `index::upload`: retry decisions for one batch and the bookkeeping of a
  run of concurrent batch uploads.
- `index::search`: search, forced re-upload and single retry as a state
  machine.
- `strategy`: upload error kinds and the adaptive (AIMD) concurrency and
  timeout, with their bounds.
- `service::codex`: Responses API address and answer extraction.

`app/` reads and writes the index file, walks the project, performs the
HTTP requests and drives the library's state machines.
