# fastlogging

A logging framework whose decisions are verified with Verus: levels and
their names, writer configurations, the registry of writers of a logging
instance, message formatting (plain, JSON, XML), configuration files and
how they merge into a running instance, file rotation, the wire format of
network writers with optional AES-256-GCM sealing, and the port file
through which child processes find their parent's logging server.

## Layout

- `src/` — the verified library. Each module states its contracts over
  mathematical models (`Seq`, `Map`, spec functions); `src/laws.rs` and a
  few modules hold proof functions for properties that span several
  operations (added writers are listed, removals give back what was
  registered, disabling and enabling restores a writer, merge modes, a
  saved configuration restores its writers, delivery to each writer in
  order and before a sync request, a server reading a whole stream of frames, OTLP batching, frame,
  address and port file round trips, nonces never repeat, rotation).
- `app/` — the running side: writer and logging threads, the TCP server,
  configuration files on disk (JSON, YAML, XML through serde), the
  OpenTelemetry exporter and the process-wide root logging system. It
  performs the I/O and hands the library plain values.
- `tests/` — tests of the library on concrete values.

The message calls of loggers and logging instances take `&mut self`: each
keeps a ghost record of the events its channel took, so that their
contracts say which event was sent, and that none is sent below the level.
