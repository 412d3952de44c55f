# git_reel_server

Git Reel is a local-first reel for browsing GitHub repositories one at a time: the server
proposes candidates found through GitHub's search, records what the user does with each
(viewed, saved, skipped, returned, detail opened), and keeps saved repositories with a memo
and tags in SQLite.

## Layout

- `src/` — the library, verified with Verus. Every rule that decides something lives here,
  with its contract:
  - `queue.rs`: the discovery queue (its head, new positions, what a skip consumes) and its
    laws (a claimed row is shown once, new rows queue up behind waiting ones, a skipped
    repository leaves the queue);
  - `events.rs`: the event log, the history (latest event per repository, newest first) and
    going back through the reel;
  - `discovery.rs`: which candidates a batch queues, when the queue is refilled, and that a
    failed search makes no batch;
  - `tags.rs`, `search.rs`: tag normalization and order, and the saved search (SQLite's
    `LIKE`);
  - `repositories.rs`: the database row of a repository and reading it back;
  - `auth.rs`, `config.rs`: the GitHub OAuth flow's decisions, from the callback's checks
    to what each reply of GitHub's token and user endpoints leads to, and the server settings;
  - `cookies.rs`: the HttpOnly cookie that carries the OAuth state, and reading it back from
    a `Cookie` header;
  - `github.rs`: the search query and parameters, the calendar arithmetic behind it,
    shaping GitHub's answers and the text of GitHub errors;
  - `models.rs`, `error.rs`, `text.rs`: the shared types and text helpers.
- `app/` — the HTTP server around the library: axum routes, the SQLite statements (sqlx),
  the HTTP calls to GitHub (reqwest), JSON (serde) and the process entry point.
- `tests/` — tests of the library on concrete values.
