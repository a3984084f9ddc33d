# flashpoint-archive

The record, search and filtering logic of the Flashpoint Archive game
database, written in Verus with its contracts proved.

- `src/` is the verified library:
  - `game/search/` parses user search text (`parse.rs` states the language,
    `parser.rs` runs it), builds the SQL of searches, counts, page indexes
    and the tag filter index (`query.rs`, `statements.rs`), and reads
    numbers and durations (`coerce.rs`); `laws.rs` holds properties of the
    language, `placeholders.rs` that every query value has its placeholder,
    `spans.rs` that the spans of a parse are slices of its input.
  - `game/`, `game_data.rs`, `tag.rs`, `tag_category.rs` hold the records
    and how edits apply to them; `game/ext.rs` the extension registry,
    `game/extmap.rs` the string-keyed maps of extension terms.
  - `update.rs` plans how a remote metadata update meets the stored records;
    `export.rs` builds the launcher dump; `util.rs` the content tree;
    `text.rs` the character helpers; `service.rs` the rules of the web
    service (who may change records, error answers, settings, session
    cookies).
- `app/` is the database around it: SQLite through `rusqlite` and `r2d2`,
  schema migrations, file system walks, JSON output and debug logging.
- `tests/` runs the library on concrete values.
