# edgedb_query_derive

The rules behind the EdgeDB query attribute macros (`insert_query`,
`select_query`, `update_query`, `delete_query`, `file_query`, `query_result`,
`edgedb_enum`, `edgedb_filters`, `edgedb_sets`), written in Verus with their
contracts proved.

## Layout

- `src/` is the verified library. A struct declaration comes in as plain values
  (`model`: fields, their Rust types, their attributes). Each reader
  (`InsertQuery::parse`, `SelectQuery::parse`, `QueryResult::parse`, ...)
  returns the declaration or the first error, and its `ensures` says which,
  with the exact message, through a spec function of the fields. The EdgeQL
  fragments (filters, sets, shapes, insert statements, enum values) are stated
  as exact strings, and `edgeql_pieces` of each query states the order in which
  they make up the query's text. The parts of a text that are only known when
  the query runs (the values of nested queries, the shapes of other result
  types) are named by the pieces and filled in then.
  - `tags/` reads the field attributes (`#[field]`, `#[filter]`, `#[set]`,
    `#[param]`, `#[value]`, `#[back_link]`, `#[unless_conflict]`).
  - `statements/` holds the filter, set and nested-query statements.
  - `helpers/` holds the attribute-driven helpers (`#[edgedb(...)]`,
    `#[query_shape]`, `#[options]`, ...).
  - `laws.rs` states the properties that span several functions.
  - `text.rs` holds the string utilities (`trim` among them) and the calls
    into `str::to_lowercase` and `Debug` formatting, which have no
    specification of their own; `file_query.rs` calls `regex` with the
    parameter pattern to find the parameters of a query file.
- `app/` turns `syn` syntax trees into the library's values, reads query files
  from disk, and renders the library's results as token streams with `quote`.
  The code it writes calls back into the library at run time to put shapes
  (`query_result::result_shape`), filters
  (`edgedb_filters::filter_parts_edgeql`) and sets
  (`edgedb_sets::set_parts_edgeql`) together, so a crate that uses the macros depends on this library too.
- `tests/` runs the library on concrete declarations.
