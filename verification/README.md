# user_events

A small web calendar: users, each with events, served as HTML pages.

- `src/` is the verified library: the users and their events
  (`model`, `store`), the pages that requests are answered with (`pages`),
  listings in key order (`listing`), event dates in local time
  (`moscow_time`), error texts and error replies (`errors`), static files
  (`assets`), the interrupt-driven shutdown protocol (`shutdown`), the laws
  that relate the operations (`laws`), and the trusted calls into chrono,
  uuid, non-empty-string, serde_json, cast and mime (`bindings`).
- `app/` is the program around it: command-line arguments, the users file,
  the warp routes, the askama templates and the signal handling.
- `tests/` exercises the library on concrete values.
