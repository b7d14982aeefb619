# ironclaw

The core of an agent runtime, written in Verus. Every function in `src/` is
verified against its contract, except the few that only call an outside crate or
the standard library: their contracts are trusted, and their doc comments say
what is claimed of the outside function. They stand in `text.rs`, `time.rs`,
`ids.rs`, `json.rs`, `engine/pyvalue.rs`, `hooks/webhook_audit.rs` and
`tui/conversation.rs`.

- `engine/` — threads, traces and their analysis, runs of model-written Python,
  reflection on finished threads, and the store that the engine asks for
- `bridge/` — the checks that every tool call passes, and the hybrid store
- `event_bus/` — the bus that numbers events, and what each sink takes from it
- `db/` — statements and rows of the audit log and of the webhook log
- `hooks/` — the record of received webhooks
- `observability/` — Prometheus metrics
- `tui/` — the lines of the conversation and of the thread list
- `web/` — settings and shared workspaces
- `json.rs`, `text.rs`, `time.rs`, `ids.rs`, `bits.rs` — values that the rest is
  built from

Decisions that alternate with outside work are written as steps: a function
takes what happened and says what to do next. `app/` performs those steps with
the database, the network, the terminal and the Python interpreter. Laws of the
library as a whole are the public `law_` proof functions at the end of each
module.
