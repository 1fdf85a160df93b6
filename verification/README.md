# EasyTodo

A keyboard-driven todo list for the terminal, with tasks kept as Markdown files with YAML
front matter, and a tool server (JSON-RPC on standard input and output) for assistants.

The decisions of the program are a library verified with Verus:

- `src/commands` — the command line of the command bar: tokens, quotes and commands.
- `src/task` — the task record, new, edited and copied tasks, the order and filters of
  the list, and the layout of a task file.
- `src/config.rs` — the settings: defaults, reading and setting keys, colours.
- `src/paths.rs` — the data directory: `~` expansion, joining, the setting after a move.
- `src/tui` — the command bar, the modal window and the task list: keys and layout.
- `src/app.rs` — the application as a state machine: each action either settles at once
  or asks for one piece of outside work and goes on with the reply.
- `src/tools.rs`, `src/tool_call.rs` — the tool server: which tool asks what of the
  store, and what it answers.
- `src/launch.rs` — finding the terminal that can open the editor in a new tab.

`app/` is the program around the library: the terminal, the files, the editor and the
JSON-RPC loop (`easytodo mcp`).
