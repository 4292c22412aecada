# openchat

A desktop chat workbench for HCI and cognitive-science sessions: a person or
agents converse with local models served by Ollama, agents post messages over
a local HTTP API, and every exchange is written to an append-only JSONL audit
log.

## Layout

- `src/` — the library, verified with Verus:
  - `text` — Unicode whitespace, trimming, prefixes, decimal rendering.
  - `clock` — `HH:MM:SS` times of day.
  - `audit` — identifiers, RFC 3339 timestamps, audit records.
  - `json` — the JSON values the library reads.
  - `chat` — the transcript, its input line and the rules for arriving lines.
  - `ollama` — model-server status, model listings, and how an answer
    becomes a chat line and an end record.
  - `server` — routing of the HTTP API and ingest of posted messages.
  - `openai` — the OpenAI-compatible endpoints (`/v1/models`,
    `/v1/chat/completions`).
  - `export` — CSV exports and the keyboard recorder.
  - `session` — the settings of the main window and the choices taken on them.
- `app/` — the program around it: window (eframe/egui), HTTP listener
  (hyper/tokio), HTTP client (reqwest), JSON (serde_json) and the log file.
- `tests/` — tests of the library.

## API

All endpoints listen on `127.0.0.1:3000`.

- `GET /health` — `OK` while the API is enabled.
- `POST /` — plain text (sender `API`), conversation JSON (`sender_name`,
  `message`, ...) or evaluator JSON (`evaluator_name`, `sentiment`,
  `message`, ...).
- `GET /v1/models`, `POST /v1/chat/completions` — OpenAI-style access to the
  local models; `stream: true` is refused with `400`.
