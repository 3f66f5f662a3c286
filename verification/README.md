# attacode

The logic of a terminal coding assistant, written and proved in Verus: what a key does, what
an event of the engine changes, what a frame shows and where it is drawn.

- `src/` is the library. Each type has a model over mathematical types (`@`), and each
  function states in its contract what it does to that model.
  - Input: `keybindings/` reads, writes, merges, validates and resolves shortcuts;
    `local_ui`, `picker` and `dispatch` are the editor, the lists and the routing of keys;
    `event_loop` decides what each event leads to.
  - Session: `domain`, `reducer`, `restore`, `ask`, `handle`, `btw`, `side_panel` and `sessions` are the
    state of a session, its requests, its side questions and its commands.
  - Output: `snapshot` and `transcript_lines` derive a frame, `merge` lays the local state
    over it, and `layout` with `regions/` turns it into a list of drawings (`canvas`).
  - Start: `args`, `bootstrap`, `commands`, `doctor` and `trace`.
  - `ui_laws` and `reducer_laws` state what holds across several operations; so do the
    functions named `law_…` next to what they speak of.
- `tests/` runs the library.
- `app/` is the program around it: the terminal, files, clocks, tasks and the AttaCore
  engine.

What is believed without proof is marked `external_body` or `assume_specification`: the calls
into `serde_json` (`json`), `unicode-width` (`regions/composer`), `ratatui` (`layout`), and two
functions of the standard library (`text`, `keybindings/parser`).
