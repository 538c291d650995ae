# toolbox

A Windows system utilities toolbox whose logic is a library verified with
Verus, and whose window, dialogs and system calls are a thin program around it.

## Layout

- `src/` — the verified library
  - `text.rs` — character-level string helpers: trimming, containment,
    decimal numbers, and a total order on texts
  - `config.rs` — the configuration file: reading and checking its TOML
    document, writing it, and deciding how to recover from a missing or
    corrupt file
  - `process.rs` — filtering and sorting the process list, and the process
    manager that follows the system's processes
  - `listview.rs` — the edits that bring the process list view in step with
    a new snapshot, and finding the selected process again
  - `layout.rs` — DPI-aware positions and sizes of the controls of both pages
  - `scroll.rs` — scrollbar positions and mouse wheel handling of the
    settings page
  - `menu.rs` — menu command identifiers and the language menu
  - `font.rs` — following the system message font
  - `interaction.rs` — hover descriptions, the deferred error message and the
    select-all toggle
  - `startup.rs` — elevation, single-instance and locale decisions at startup,
    and restarting the desktop shell
- `tests/` — tests of the library
- `app/` — the Windows program: windows, controls, dialogs, the registry,
  files and processes
