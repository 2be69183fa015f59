# phantom-strike-core

The core service of phantom-strike: it accepts signals and decisions on
signals that pass their JSON Schema contracts, keeps the latest decision for
each signal, and answers every request in a uniform envelope that carries the
request's trace.

- `src/` is the library, verified with Verus: configuration, the schema
  registry and payload validation (with the uniform violation reports), the
  signal and decision models, the decision store, error responses, response
  metadata, and what each endpoint answers. Calls into `serde_json`,
  `jsonschema`, `time`, `uuid` and `tracing-subscriber` stand behind small
  trusted wrappers whose contracts say what the crates' sources show.
- `app/` is the HTTP server around it: reading the environment and the schema
  files, keeping the decision store in a file, the axum routes and middleware,
  and the JSON forms of the library's types.
- `tests/` exercises the library.
