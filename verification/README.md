# desktop_pet

The rules of a desktop pet assistant, verified with Verus, and the desktop
shell that runs them.

- `src/` — the verified library: todo records (`todo`), reminder firing,
  snoozing and dismissing (`reminder`), when the pet talks on its own
  (`self_talk`), chat bookkeeping (`chat`), the language-model routing, the
  reading of its answers and the local replies (`llm`), whitelisted system
  actions with confirmation and audit rows (`system_action`), the default
  persona and its seeding, the order in which database locations are tried,
  and the runtime switches. `clock` and `ids` hold the calls into chrono and
  uuid, `text` the verified text helpers.
- `tests/` — tests of the library on concrete values.
- `app/` — the Tauri shell: commands, SQLite storage through sqlx, the cron
  scheduler for reminders, the self-talk loop, the HTTP client for the
  model, and the processes that carry out system actions.

Instants are milliseconds since the Unix epoch; times of day are seconds
past midnight.
