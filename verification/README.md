# rust_ssr_example_backend

Backend of an AG Grid stock-history view: an Axum server over an Oracle
table, answering the grid's Server-Side Row Model `getRows` requests.

- `src/` is the verified library. `repository.rs` turns a `getRows` request
  into a parameterized count query, a page query and the values bound to
  their placeholders, and converts fetched rows; `ssrm.rs` and `model.rs` hold
  the request, response and row types; `calendar.rs`, `decimal.rs` and
  `text.rs` read dates (through chrono), exact decimals (through bigdecimal)
  and integers, and assemble text; `laws.rs` proves properties that span
  these functions, among them that filter values never reach the SQL text.
- `app/` is the server: JSON types, the Oracle connection pool and queries,
  the routes and the OpenAPI document.
- `tests/` exercises the library on concrete requests and rows.
