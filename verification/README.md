# sea_schema

Schema discovery helpers for MySQL and PostgreSQL, verified with Verus.

- `src/mysql/def.rs`: the MySQL schema model (column types and their
  attributes, keys, defaults, extras, indexes) and the view of a column type
  as a type name plus attribute values.
- `src/mysql/parser.rs`: parsers for the text that `information_schema`
  reports (`COLUMN_TYPE`, `COLUMN_KEY`, `COLUMN_DEFAULT`, `EXTRA`), each with
  a contract that states its result exactly.
- `src/mysql/tokens.rs`: the tokens of a type declaration, read with
  `sea_query`'s SQL tokenizer, and the unquoting of quoted values.
- `src/mysql/writer.rs`: `IndexInfo::write`, which builds the `sea_query`
  statement that recreates an index.
- `src/mysql/laws.rs`: properties of the parsers over all inputs.
- `src/text.rs`: character-level helpers (decimal numbers, splitting at
  spaces, comparison, lowercasing).
- `src/postgres/def.rs`: the PostgreSQL schema model.
- `app/lib.rs`: serde-serialisable copies of the PostgreSQL model.

Calls into `sea_query` and `str::to_lowercase` go through small trusted
functions whose contracts are documented next to them.
