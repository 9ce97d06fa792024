# fluxdown_native

Verified core of the FluxDown native hosts (desktop hub and WebSocket server).

- `src/service.rs` — API error texts, task lifecycle events, live speeds.
- `src/events.rs` — the engine events the sinks take in, with their payloads.
- `src/task_table.rs` — a table with one value per task id (live speeds,
  pending selection answer slots), verified against a `Map` view.
- `src/live_speeds.rs` — how progress reports and task lists update the
  live-speed table, with the laws the rules keep.
- `src/sink.rs` — what each event sink makes of an engine event: the Dart
  signal or WebSocket frame it sends, and its change to the live speeds.
- `src/selection.rs` — how HLS/BT selections are settled, defaulted and timed.
- `app/` — locks, the tokio broadcast channel and timed waits, the JSON wire
  form of the frames, the `std::error::Error` form of the API error, and the
  hand-off of signals to Dart.
