# loq_rgb

Control of the 4-zone ITE RGB keyboard controller found in Lenovo LOQ,
Legion and IdeaPad Gaming laptops (USB `048d:c9xx`), with its logic
verified by Verus.

- `src/` — the library, every function with a contract proved by Verus
  except one trusted wrapper, `text::quoted`, which renders a string with
  std's `Debug` and whose result is only named (`text::debug_quoted`):
  colours and effects (`model`, `effects`), the 33-byte CC/16 packet and
  its readback (`packet`, `readback`), profiles and their storage rules
  (`profile_map`, `config`, `profiles`), Fn+Space cycling (`hotkey`),
  device detection and HID policy (`devices`, `detect`, `hid_policy`), the
  controller state machine (`backend`, `controller`), the background
  listener's decisions (`listener`), the desktop window's editing state
  (`editor`), the command-line texts (`cli`), paths and the writer lock
  record (`paths`, `instance`), and text helpers (`text`).
- `tests/` — tests of the library on concrete values.
- `app/` — the `loq-rgb-cli` program and its desktop window: argument
  parsing (clap), JSON persistence (serde), hidraw access (hidapi), the
  egui window (eframe), sysfs, the lock file, and the floating-point colour
  wave and colour picker.
