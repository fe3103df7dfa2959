# saga

A local-first time tracker for the terminal: a full-screen interface and a
scriptable command line over a SQLite store.

The rules of the tracker live in the library under `src/`, written in Verus
and proved against their contracts:

- `text`, `screens` — UTF-8 widths, decimal and duration texts, clocks.
- `state`, `message`, `keys` — the interface state, its text inputs, and the
  keyboard map.
- `update`, `replies` — the interface as a state machine: `step` takes a
  message and says what to load or store; `apply` folds the store's answer
  back in. Both keep the state's invariant.
- `calendar`, `clock` — days, weeks and months on second stamps; calendar
  formatting and parsing through `chrono`.
- `cli` — the command-line rules: reading times, log and report spans, the log
  query, report CSV, invoice numbers, configuration values.
- `rates` — which hourly rate applies (project, then client, then default).
- `store` — the entry listing query, stored durations, pending migrations.
- `export` — CSV export of entries through the `csv` crate.

`app/` is the program around it: argument parsing, the terminal loop and
drawing, the database, configuration files and PDF output.
