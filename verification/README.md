# rusty_archive_viewer

A client for the EPICS Archiver Appliance: it fetches the archived series of
process variables (PVs), decodes the archiver's raw and JSON formats, caches
series and metadata, tracks sessions and the health of the interface, and
validates requests.

## Layout

- `src/` — the library, verified with Verus. Each public function states in
  its contract what it returns or changes; laws that relate several
  operations are public proof functions named `law_…`.
  - `decode.rs`, `decode_helpers.rs` — framing and unescaping of raw
    responses, metadata from payload headers, samples placed in their year.
  - `client.rs`, `commands.rs`, `types.rs`, `export.rs` — the viewer's request
    URLs, the checks of its commands, JSON samples, the SVG export.
  - `archiver/` — the archiver interface: operators and their validation,
    errors and their context, the series and metadata caches, sessions,
    metrics, health, request planning and the live-update loop.
  - `text.rs`, `calendar.rs` — strings and decimal numbers, and the calls into
    `chrono` that the rest relies on.
- `app/` — the program around the library: HTTP with `reqwest`, tasks with
  `tokio`, protocol-buffer messages with `prost`, JSON with `serde`, and the
  floating-point statistics and text exports.
- `tests/` — tests of the library on concrete values.

Instants are milliseconds (or, where named so, seconds) since the Unix epoch,
and floating-point values are carried as their `f64` bit patterns.
