# rust_core

The logic of a terminal coding-agent workbench, verified with Verus.

* `src/` is the library.  Verus proves every function in it against its
  contract; the cancellation flags in `shutdown` are shared atomics whose
  values no contract can speak of, so their methods carry none.  It holds
  the panes, key bindings, command palette and their layout (`workbench`, `keybindings`, `tui`), plan review and execution, context
  compaction, providers, plugins, subagents and the bridge protocol checks
  (`agent`), configuration merging and validation (`config`), the headless
  JSON-RPC server (`headless`), Mermaid and diff parsing (`tui::mermaid`,
  `tui::semantic_diff`), and the text helpers they share (`text`).
  Calls into `diffy`, `serde_json`, `ratatui`, `uuid` and std's path, case
  mapping, character and `Arc::clone` functions sit behind small trusted
  wrappers whose contracts state, or name, what they return; the
  command-line flags (`cli`) and the status line (`tui::status_bar`) are
  verified too.
* `app/` is the program around it: the command line, the terminal, drawing
  with ratatui, the agent's tokio task, the bridge process, SQLite sessions,
  git2, signals and the headless server's input and output.  It asks the
  library what to do and carries it out.
* `tests/` runs the library on concrete inputs.
