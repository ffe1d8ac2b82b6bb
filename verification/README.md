# app_icon

Verified bookkeeping for a desktop application's icon: which icon the running
Dock image shows, which one the saved configuration holds, which one was last
written to the installed bundle, and which settings panel's live preview
drives the Dock.

- `src/` — the library, verified with Verus (`model`, `icon_state`, `laws`).
- `tests/` — tests of the library on concrete values.
- `app/` — the process-wide state behind a lock, the configuration's icon
  catalogue, and the native macOS calls that set the Dock and Finder icons.
