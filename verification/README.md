# OpenLogi

The decisions behind OpenLogi, a local companion for Logitech mice, verified
with [Verus](https://github.com/verus-lang/verus): remapped buttons,
hold-to-repeat, the capture of diverted controls, the scriptable DPI,
launch-at-login, the tray, the settings form and the self-update.

- `src/` is the verified library. Each function states in its contract what it
  returns or changes; the functions named `law_…` state and prove what holds
  across functions.
- `app/` is ordinary Rust around it: threads, sockets, files, requests and calls
  into the operating system. It reads what the library asks for and carries out
  what it orders.
- `tests/` runs the library.

## Modules

| Module | What it decides |
|---|---|
| `hook`, `win_hook` | captured mouse events, and the life of the hook |
| `hook_runtime` | what the hook does about an event |
| `gesture` | what the capture watcher does about an input or a change of device |
| `repeat` | the timers of held buttons and their schedule |
| `control`, `cli`, `device` | the control channel and the `--set-dpi` flag |
| `updater`, `json` | the self-update and the `--update` flag |
| `launch_agent`, `tray`, `settings` | autostart, the tray, the Settings window |
| `binding`, `config`, `platform` | buttons, actions, preferences, platforms |
| `text`, `utf16` | characters, numbers and wide strings |

## What is trusted

`json` reads documents through `serde_json` and states what each accessor hands
out. `text` and `utf16` state what `String::push` and `char::from_u32` do.
Everything else is proved.
