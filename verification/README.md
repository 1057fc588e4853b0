# belfry_core

The headless data layer of Belfry, a GNOME podcast client, written in Verus
so that its logic comes with machine-checked contracts.

- `src/` — the verified library:
  - `db/domain.rs` — shows, episodes, tags and the sentinel enums with their
    stored words and codes;
  - `db/rows.rs` — bind parameters for the SQLite statements and the decoding
    of rows read back, with the round-trip laws;
  - `db/fixtures.rs` — the synthetic-library plan (which insert comes next);
  - `db/migrations.rs`, `db/command.rs`, `db/pool.rs` — migration plan,
    writer request kinds, read pool;
  - `fetch/` — the `podcast:` namespace pass over feed XML, on `quick-xml`'s
    event stream;
  - `paths.rs`, `text.rs`, `timestamps.rs` — XDG paths, text helpers, and the
    instants `chrono` can represent.
- `app/` — the program around it: SQLite connections and statements, the
  single-writer worker, the fixture command, the command line and the GTK
  window.
- `tests/` — tests of the library.
