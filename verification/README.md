# durable_sqlx

The guest side of the SQL connection of a durable workflow. The workflow's
database connection is held by the durable runtime; a workflow hands it a
statement with its arguments and then fetches results until there are none.

`src/` is the verified library, proved with Verus:

- `bindings` — the values that cross the runtime's interface (values, type
  descriptions, rows, results, errors), as plain data, with their accessors
  and constructors;
- `driver` — binding arguments, turning fetched results into rows,
  outcomes and errors (`connection`), selecting and decoding columns
  (`row`), nested transactions as numbered savepoints (`transaction`), and
  encoding and decoding each supported type (`types`);
- `query`, `query_as`, `map` — queries, whose running is a function of what
  the runtime answers for the request they make;
- `util` — small helpers, among them the two trusted calls into `std`
  (decimal and `Debug` formatting); the trusted calls into `ipnetwork` stand
  in `driver::types::ipnetwork`.

`tests/` exercises the library on concrete values. `app/` connects it to
SQLx's traits and to the runtime's component interface; it is ordinary Rust.
