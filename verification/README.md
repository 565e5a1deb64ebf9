# greentic-telemetry

Operation-subscription telemetry policy, verified with Verus.

- `src/` — the verified library: the subscription configuration and how it is
  derived from a provider configuration; for every operation event (requested,
  completed, error, state pre/post) whether it is emitted and with which
  attributes; tenant/team attribution and BLAKE3/FNV-1a identifier hashing;
  metric label sets; backend presets and the parsing of the headers variable.
  `src/laws.rs` holds the cross-function properties.
- `app/` — the runtime side: serde forms of the configuration, `tracing`
  events and spans, OpenTelemetry instruments, and environment lookups.
- `tests/` — executable checks of the library on concrete values.
