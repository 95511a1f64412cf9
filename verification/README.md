# vigilant-vole

A self-hosted uptime monitor: it probes HTTP, TCP and ICMP targets on a
schedule, records heartbeats in SQLite, shows a live dashboard, and announces
status changes on Discord, Slack, Telegram or a plain webhook.

## Layout

- `src/` — the verified library (Verus). It holds the data model and every
  decision the program makes:
  - `db/` — kinds and statuses with their stored names, row conversion, the
    dashboard sparkline, the order of schema migrations;
  - `monitor/` — the check loop's retry and announcement rules, probe
    outcomes, the registry of running check loops;
  - `notification/` — announcement texts and the request each channel posts;
  - `auth/`, `api/` — password hashing and checking, page gates, form rules,
    dashboard counts, static content types;
  - `config.rs`, `json.rs`, `text.rs` — settings, the JSON calls, string helpers.
- `app/` — the server around it (axum, tokio, rusqlite, reqwest, surge-ping,
  askama): I/O, timers and rendering.
- `tests/` — tests of the library on concrete values.
