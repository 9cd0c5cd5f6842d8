# ag_ui

A Verus-verified core of the AG-UI (Agent User Interaction) protocol.

- `src/` is the verified library: identifiers, messages, run inputs and the
  protocol's events; the client's protocol verifier (`verify`), tool call
  filter (`filter`) and event handling (`event_handler`); the server's
  stream finalization (`finalize`), delta compaction (`compact`), JSON Patch
  state changes (`state`), Server-Sent-Events encoding (`encoder`), request
  metadata and health (`agent`) and endpoint decisions (`handler`).  JSON
  documents are held as their text (`json`); JSON Patch and UUID work is done
  by the `json_patch`, `serde_json` and `uuid` crates behind trusted
  wrappers whose contracts name their results.
- `app/` is the runtime around it: the serde wire format, the axum server,
  the shared `StateManager`, and the client's subscribers and stream
  transformers.
- `tests/` exercises the library through its public API.
