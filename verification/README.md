# app_common

The state and decision logic of a small games launcher (a terminal list of
programs found on disk, filtered by typed text) and of a todo list window,
written in Verus with its behaviour stated in contracts and proved.

- `src/` — the verified library: the launcher state and its filter
  (`launcher_state`), the choice and numbering of the programs found
  (`launch_item_repository`), the key handling of the terminal launcher
  (`tui_app`, `list_nav`), the todo list (`todo_state`), which fonts serve
  which font families of the todo window (`font_setup`), the string
  operations the filter relies on (`text`), and properties that span
  operations (`laws`).
- `app/` — the programs around it: the directory walk and process start,
  the terminal event loop and drawing (ratatui, crossterm), and the todo
  window (eframe, font-kit). Run with `--todo` for the todo window.
- `tests/` — tests of the library on concrete values.
