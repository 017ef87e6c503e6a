# dsh_desktop

The decision logic of the DeepSeek Harness desktop launcher, verified with
Verus: how DSH is launched and supervised, how its log stream is read, how
settings are validated and cached, how the cache is cleared, and what the
menus do.

- `src/` — the verified library:
  - `text` — string helpers with exact specifications (trimming, searching,
    decimal numbers, joining);
  - `settings` — validation, partial updates and the settings cache;
  - `session` — launch generation, readiness, port and log flags;
  - `supervisor` — the supervision of a launch session as a state machine
    (boot probing, re-spawns, watchdog and automatic restarts) and its laws;
  - `logs` — the log replay buffer, plugin-failure detection in log lines,
    and the reading of the installed-plugin list;
  - `command` — command lines, environment and output of the DSH child;
  - `paths` — bundled runtime paths, data layout, archive entry paths;
  - `cache` — the plan and the report of clearing the cache;
  - `menu` — the menu bar layout, menu actions, the update indicator, events
    that stop DSH;
  - `changelog` — the built-in changelog.
- `app/` — the Tauri program around the library: windows, processes,
  threads, HTTP probes, files and archives.
- `tests/` — tests of the library on concrete values.
