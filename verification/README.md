# dsh_desktop

The logic of DSH Desktop, written in Verus: which version of the DSH runtime is
started, how runtimes and the application are updated, and how the terminal
command is installed and taken away. Every function states what it returns, and
Verus proves it.

## Layout

- `src/` is the verified library. It touches no files, processes, windows or
  clocks. Where the logic alternates with such work, a function takes what
  happened and says what is to be done next.
  - `runtime`, `runtime_commands`, `runtime_update`, `staging`: the runtime that
    comes with the application, its commands, its updates, and the trial of a new
    version.
  - `system_runtime`, `system_tools`, `system_update`, `global_install`: the
    runtime of the user's own Node.js and npm.
  - `app_updater`: updates of the application itself.
  - `terminal_command`, `profiles`, `shell`: the terminal command and the shell
    start-up files.
  - `menu`: the menu and its messages.
  - `command`, `host`, `launch`, `node_path`, `npm`, `schedule`, `update_loop`,
    `version`: what several of these share.
  - `paths`, `path_prefix`, `text`, `trim`: paths and texts.
- `tests/` runs the library on concrete values.
- `app/` is the application around it: Tauri, files, processes.

## What is trusted

The contracts of calls into `semver`, `serde_json`, `dunce` and the standard
library are believed, not proved. Each such call stands in a function of its own
whose comment says what is claimed of it.

## Laws

Properties that span several functions are public proof functions whose names
begin with `law_`.
