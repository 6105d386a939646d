# sibyl_batch

Array ("batch") parameter binding for SQL statements that run once for many
rows, written in Verus.

- `src/params.rs` — `BatchParams`: the placeholder names of a statement and,
  per placeholder, a value buffer with a fixed stride, NULL indicators and
  data lengths; the binds that pack argument arrays into them and the
  getters that read rows back.
- `src/args.rs`, `src/fixed_args.rs`, `src/text_args.rs`, `src/tuples.rs` —
  `ToBatchSql` and its implementations for slices of numbers, optional
  numbers and text (IN and OUT), named arguments, tuples and `()`.
- `src/raw_args.rs` — `RawValues`, an IN argument given as raw value bytes
  (floating-point arrays are passed this way).
- `src/plan.rs` — which recorded binds the client performs, and which of
  the caller's own arrays an OUT bind of fixed-size values writes into.
- `src/value.rs` — the memory representation of fixed-size numbers.
- `src/pack.rs`, `src/name.rs`, `src/text.rs` — buffer packing, placeholder
  names and the calls into the standard library that text needs.
- `src/laws.rs` — properties that span operations: what is read back after
  a bind, what a bind leaves alone, how names are looked up.
- `app/` — the calls into the database client library and floating-point
  arguments.
