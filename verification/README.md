# freelook

The decision logic of Freelook, a desktop client for Outlook mail, as a
verified library, and the Tauri shell around it.

- `src/` is the library, verified with Verus:
  - `navigation`: which pages stay inside the mail view, which are blocked as
    advertising, which open in the system browser; Outlook deeplinks.
  - `settings`: the persistent settings, their built-in defaults, and reads,
    writes and deletes over them.
  - `downloads`: cleaning suggested file names, the pending name, numbered
    names for files already present, the saved-file notification.
  - `scripts`: the style sheets and scripts injected into the mail page, and
    escaping text for a JavaScript template literal.
  - `shell`: tray menu and icon, closing to the tray, the splash screen, the
    native menu, and how often the window frame is saved.
  - `text`: character-level helpers and decimal notation.
- `app/` is the Tauri application: windows, tray, menu, the settings file,
  the network probe, all of which call into the library for their decisions.
- `tests/` runs the library on concrete inputs.
