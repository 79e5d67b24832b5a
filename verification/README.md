# web_ui

The request logic of the assistant's web UI API, verified with Verus.

- `src/` is the library. Every endpoint's decisions live here as functions
  from plain values to plain values, each with a contract: who may reach an
  endpoint (`access`, `spaces`, `users`, `tenancy`), how a request is
  authenticated (`auth`), how a streamed run is recorded and replayed
  (`messages`, `turns`), what a conversation's history view shows
  (`conversations`), uploads and image serving (`attachments`), webhook URL
  checks and signatures (`webhooks`), and the dashboards' filters and paging
  (`traces`, `logs`, `analytics`). Laws that span several functions are
  public proof functions named `law_*`.
- Calls into outside crates (`uuid`, `url`, `hmac`/`sha2`, `getrandom`,
  `image`, `serde_json`, `chrono`) stand behind small trusted wrappers whose
  doc comments say what their contracts claim.
- `app/` is the axum side: handlers that read requests, talk to the stores,
  the orchestrator and the providers, and hand plain values to the library.
  It builds on the assistant's workspace crates (`assistant_core`,
  `assistant_storage`, `assistant_auth`, `assistant_runtime`,
  `assistant_transcription`).
- `tests/` runs the library on concrete values.
