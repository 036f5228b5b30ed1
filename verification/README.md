# teamder

Teamder matches students into project teams, competition teams and study
groups. This crate holds its rules as a Verus-verified library; the HTTP
server around it lives in `app/`.

- `src/skills.rs` — the skill catalog, skill validation and the discrete parts
  of the match score (overlaps, categories, levels, availability).
- `src/text.rs`, `src/clock.rs` — text and time helpers over `String`,
  `chrono` and `uuid`.
- `src/error.rs`, `src/api/error.rs` — the error kinds and their HTTP form.
- `src/models/` — the stored documents, timestamps as milliseconds.
- `src/api/` — tokens, request guards, mail bodies, the review assistant's
  prompts and answer parsing, and one module per route group with the
  decisions each handler makes: permission checks, state changes, new
  documents, field updates.
- `app/` — Rocket handlers, MongoDB storage, SMTP, the LLM client, JWT
  signing, WebSockets and the floating-point match score.
- `tests/` — tests of the library through its public API.

Verify with Verus; the laws of the library are the `law_*` proof functions.
