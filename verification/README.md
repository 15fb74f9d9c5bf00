# x360ce

A Windows controller mapper: it reads a physical gamepad, maps its buttons,
axes and hats onto the controls of an Xbox 360 pad, and feeds a virtual
Xbox 360 controller.

## Layout

- `src/` — the verified library (Verus). Every function carries a contract
  and is proved against it.
  - `model` — devices, raw input states, bindings, virtual controls,
    mapping entries and profiles.
  - `mapper` — binding detection while learning, button state, the digital
    part of the virtual report.
  - `engine` — the decisions of the controller polling loop (`EngineCore`):
    commands, enumeration, activity, connecting to the virtual bus.
  - `config`, `config_file` — saved settings, the profile store, and the
    steps of replacing the settings file safely.
  - `updater` — which release counts, which asset is the Windows
    executable, version comparison (through `semver`), download checks.
  - `presentation` — status texts, labels, tray menu and automatic-tray
    decisions.
  - `single_instance`, `profile_io`, `startup`, `dev_runner` — instance
    names and messages, export file names and dialog scripts, the startup
    registry value, the development watcher's file filter.
  - `laws` — properties that span several operations.
  - `text` — verified text helpers.
- `app/` — the Windows program around the library: the user interface,
  SDL input, the virtual bus client, registry, file and network I/O, and
  the floating-point shaping of analog output.
- `tests/` — tests of the library's public functions.
