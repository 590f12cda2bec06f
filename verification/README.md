# wb_switch_core

The decision logic of a WorkBuddy account switcher's daily check-in and
growth-center runner, written in Verus and proved against its contracts.

- `src/` is the verified library. Service replies, account records and log rows
  are read through a small JSON model (`json.rs`); every function that decides
  what to request next, or how to read a reply, states its result exactly over
  that model.
  - `checkin.rs`: status replies, the submit decision, the classification of a
    submission, the path fallback and token-retry decisions, the steps of a
    single check-in and of check-in runs.
  - `checkin_log.rs`: whether every account checked in today, and the edition
    of each log row.
  - `guard.rs`: the set of accounts whose check-in is in progress.
  - `growth.rs`, `progress.rs`, `events.rs`: task lists, acceptance, claims,
    event reports, lottery and blind-box runs, and the event payloads.
  - `variant.rs`, `reply.rs`, `text.rs`: editions, reply fields, text helpers.
  - `laws.rs`: properties that relate several functions.
- `app/` is the host side: it performs the HTTP requests, storage access,
  pauses and token refreshes that the library asks for, and converts between
  `serde_json::Value` and the library's JSON model.
- `tests/` runs the library on concrete values.
