# ph

The verified core of patch-hub, a terminal client for the lore mailing-list
archives.

- `src/` — the library, verified with Verus: configuration data and its TOML
  form (`config`), log levels, log lines and log-file bookkeeping (`log`),
  error classification and conversion (`error`), the navigation state machine
  of the terminal UI (`ui`), the mailing-list, feed and patch caches
  (`cache`), the demand-driven patch metadata state (`state`), archive
  records (`lore`) and small text helpers (`text`).
- `app/` — the program around it: reading and writing files, the log files,
  and the input loop that drives the UI state.
- `tests/` — tests of the library's behaviour on concrete values.
