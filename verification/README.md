# taskbook

Task due dates and the MCP (Model Context Protocol) request layer of
taskbook, written in Verus with their contracts proved.

- `src/text.rs` — trimming, ASCII case folding, decimal digits, rendering helpers.
- `src/calendar.rs` — calendar values and the chrono calls that read the
  local clock and time zone.
- `src/due.rs` — due-date parsing (`YYYY-MM-DD`, date and time, `today`,
  `tomorrow`, `now`, `+HHMM` offsets), rendering and status classification.
- `src/task.rs` — the task item, its priority clamp and its state.
- `src/json.rs` — the JSON values the request layer reads and builds, and
  the serde_json calls that read and write JSON text.
- `src/rpc.rs` — JSON-RPC dispatch of a request line, protocol negotiation,
  responses and their text.
- `src/schema.rs` — the tool schemas.
- `src/tools.rs`, `src/edit.rs`, `src/listing.rs` — reading and checking tool
  arguments, the plan of an edit, the selection and display of listed items.
- `app/` — the stdio server loop, the task-store interface the tools run
  against and the serde form of a task.
