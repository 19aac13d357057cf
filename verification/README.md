# pork

Process orchestration for host/child IPC workflows, with its bookkeeping and
configuration logic verified by Verus.

## Layout

- `src/` — the verified library.
  - `types`, `env`, `spec` — typed identifiers and payloads, environment
    overrides, child process specifications and their builder.
  - `protocol` — the control messages, the IPC envelope, codec selection and
    parsing.
  - `orchestrator` — the orchestrator's settings, the launch plan of a child,
    and the process `registry` (ids, names, statuses, dependency checks),
    with `registry::laws` relating its operations.
  - `host`, `child` — bootstrap values on both sides of the handshake, and the
    timestamp of a child's status reports.
- `app/` — the runtime around the library: serde wire forms and codecs, the
  IPC bootstrap, the async orchestrator and the status reporter.
- `tests/` — tests of the library's public API.
