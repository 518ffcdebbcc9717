# gnome_topbar_toggle

A GNOME tray toggle that runs a user-chosen bash script and shows its state
as a coloured dot on an emoji icon, with an emoji picker window.

- `src/` is the verified library (Verus):
  - `toggle.rs`: the toggle's state machine. `AppContext::handle` takes an
    event (menu command, chosen script or emoji, state reported by the script
    runner, revert timer) and returns the actions the event loop performs.
    `script_reports` says which states a finished run reports.
  - `toggle_laws.rs`: properties of that state machine (the icon always shows
    the current state, the saved configuration is always the current one, the
    script only runs from an idle toggle, every run ends `Off`).
  - `config.rs`: default configuration, choice between loaded and default
    configuration, and where an instance's file lives:
    `<config dir>/bash-toggle/<id>.json`. An id may contain `/` (its file
    then lies in a subdirectory of `bash-toggle`), but an id that is
    absolute or climbs out with a `..` component is refused, and the
    program exits with a usage message.
  - `catalogue.rs`: the emoji catalogue of the `emojis` crate, split by group.
  - `picker.rs`, `picker_laws.rs`: the emoji picker's sections, heading markup
    and window state machine (showing, raising, hiding on focus loss).
  - `icon.rs`: BGRA to RGBA pixel reordering for the tray icon.
- `app/` is the program: GTK widgets, the tray icon, Cairo drawing, smooth
  scrolling, file I/O, notifications and the script process.
- `tests/` exercise the library on concrete values.
