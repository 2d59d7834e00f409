# reemap

The logic of Reemap, an input remapper for Windows, as a library verified with Verus.

- `src/` — the verified library: buttons and their virtual-key codes, the remap
  configuration, the hook thread's choice of active profile and cursor clip, the
  configuration window's dialogs, tables and search, and the registry decisions.
- `tests/` — tests of the library on concrete values.
- `app/` — the program around the library: Windows calls, the registry, files in RON,
  the hook thread's message loop and the egui window.

## What is not here

- **Remapping itself.** The low-level keyboard and mouse hooks, which would turn presses
  and releases into the configured outputs (layers held or toggled, keys never left stuck,
  Scroll Lock suspending all remaps), are not part of the project's sources. The
  configuration, the hold-button state and the layer flags are kept ready for them, but
  nothing reads them yet, and `app/` installs no keyboard or mouse hook: the program edits
  and applies configurations, follows the foreground window and confines the cursor, but
  remaps no input.
- **Unusual keys.** `Config::show_rare_keys` is stored and saved, but there is no
  classification of keys into common and unusual ones, so every table lists every key.
- **Suppressing an input.** The dialogs offer "No Remap", "Remap" and, for layers, "Defer".
  A remap to an empty list of outputs blocks the input.
- **The window list** in the profile dialog shows every visible window, including those
  without a title.
