# close_my_lid

The decisions, wording and layout arithmetic behind Close My Lid's three
front ends (the `close-my-lid` command, the desktop app and the macOS menu
bar app), written in Verus with contracts that pin each result down. Where an answer
comes from the system (whether the login item is registered, whether the
system accepted a change to it), the contracts state what was asked of the
system and what the library does with each answer.

The hold itself (the session controller, its lock and record, the battery
policy) belongs to the core; its answers reach this library as plain values.

- `src/` — the verified library, one module per concern: `render` (what the
  command prints), `errors`, `cli` (the menu bar executable's commands),
  `layout` (the menu panel's stacking, with the tiling laws), `clock`,
  `agents`, `battery`, `updates`, `supervision` (the desktop app's
  supervision pass), `state` (the desktop app's banner, hold lock, chosen
  length and preferences), `controller` (the menu bar app's wake and
  reconciliation decisions), `preview`, `pages`, `labels`, `prefs`, `login`
  and `text`.
- `tests/` — tests run against the compiled library.
- `app/` — the `close-my-lid` program: argument parsing, terminal output, the
  foreground hold loop, and the desktop app's file and process glue.
