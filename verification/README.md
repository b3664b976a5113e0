# vegafusion_sql

A verified SQL query builder for data frames, in Verus.

A data frame is a chain of SQL queries. Each operation (select, filter, sort,
aggregate, join aggregate, fold, stack, impute, project, limit) renders one or
more new queries that read from the last query of the chain, parses them with
`sqlparser` in the connection's dialect, and appends the parsed text. The
whole chain becomes one query: every query but the last turns into a common
table expression named after its position.

- `src/` is the library. Every public function states, over a model of the
  frame (`FrameView`: its columns with their types and nullability, and its
  queries), exactly which SQL text it renders and what becomes of it: the
  frame extended by the query the parser prints back, or the error.
  `src/laws.rs` holds the properties that span operations.
- The tokenizer, the parser, the parser's error message and the fingerprint
  hash are the only trusted items (`src/parse.rs`, `src/fingerprint.rs`).
  sqlparser caps the nesting of queries and expressions, but it recurses
  without that cap through unary operators, bracketed table references and
  nested types, and it prints and drops its trees (operator chains, set
  operations) recursively. Before parsing, the tokens are therefore checked
  in verified code: at most 20 nested brackets, or 80 operators in one
  expression (brackets weighing four), and at most 1000 set operators. Text
  beyond that is refused with an error instead of being parsed.
- The stack, impute and ordered fold transforms build their window
  functions, running sums, fills and row numbers in `src/` from the field,
  the fill value, the ordering and the groups; callers give only compiled
  leaf expressions.
- `app/` holds what Verus does not see: the DataFusion connection, the
  DataFusion scalar functions, the asynchronous task runner, and the serde
  form of the filter transform.
- `tests/` runs the library with the real `sqlparser`.
