# cdesktop

The part of the desktop app that deals with what a coding agent leaves behind:

- `transcript`, `entry`: transcripts of the agent's CLI, read record by record into
  sessions and their conversation entries.
- `usage`: how much of its context window a session occupies.
- `discovery`: the sessions of a transcript store, newest first, and those of them
  that are not in the database yet.
- `import_run`, `import_one`: which sessions an import takes, and the steps in which
  one session is stored, or brought up to date where it is stored already.
- `rate_limit`: the latest report of each rate-limit window, most recently reset
  first.
- `json`, `text`, `timestamp`, `order`: what these rest on.
- `laws`, `run_laws`, `step_laws`: what holds of the library as a whole.

The functions in `src/` are verified with [Verus](https://github.com/verus-lang/verus)
against the contracts in their headers, but for the few that make an outside call: the
behaviour of `serde_json`, `chrono` and `uuid` where they are called, and of
`String::push`, is taken on trust. Each such item says in its doc comment what it
claims.

`app/` is the app's side: HTTP routes, the disk, the database, the process-wide
store of reports.
