# quack-rs

Building blocks for DuckDB extensions, verified with Verus.

- `src/` is the verified library: secret entries and the secrets manager
  interface, TLS provider auditing, configuration option builders, table
  description checks, chunk row tracking, and the small text utilities they
  share. Contracts are stated over views (`@`) and spec functions; the laws
  that relate operations are public proof functions named `law_*`.
- `app/` holds the code that talks to DuckDB's C API through
  `libduckdb-sys`: owned handles, registration and description calls. It
  feeds the verified functions with what the C API returns.
- `tests/` exercises the library on concrete values.
