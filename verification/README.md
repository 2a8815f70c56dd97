# wclicker

A Linux auto-clicker: a hotkey (F8 by default) switches clicking on and off,
either freely (`Auto`) or only while the left mouse button is held (`Hold`).

- `src/` is the verified library (Verus): the hotkey listener's handling of
  input events, the grab/forward decisions for pointing devices, the
  clicker's pacing, the settings panel's edits (delay field, rebinding,
  Start/Stop), settings defaults and file location, decimal text for the
  delay, and the device-permission report. `src/laws.rs` states and proves
  the properties that span several operations.
- `app/` is the program around it: the egui window, the evdev devices,
  threads, and the settings file on disk.
- `tests/` exercises the library on concrete values.
