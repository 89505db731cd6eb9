# trailbase

The core of a self-hosted application backend, written in Verus. Every function of
`src/` but its trusted wrappers is verified by Verus, most of them against
`requires`/`ensures` contracts; a few small private helpers (such as those that read
the SQL parser's syntax tree) have no contract and are checked for safety and
termination only.

- `src/` — the library: SQL schema fragments and their parsing, list and filter query
  parsing and SQL compilation, access rules of record and query APIs, request parameter
  binding, result-row shaping, subscriptions, email composition, SQL helper functions
  (UUIDs, JSON, JSON schemas, email addresses), migrations and scheduling decisions.
  Calls into outside crates go through small trusted wrappers. Where a crate documents
  its result in a few lines, the wrapper states it; where the result is a function of
  the arguments alone, the wrapper names it, and the library's contracts speak of that
  name; converters that only pick fields of the SQL parser's syntax tree state nothing.
- `tests/` — tests that run the library with the real outside crates.
- `app/` — plain Rust around the library: files on disk, the process-wide GeoIP reader
  and schema registry, and conversions from `serde_json`, `serde_value` and `tracing`
  values into the library's own types.
