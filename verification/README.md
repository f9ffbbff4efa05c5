# opensync

The verified core of OpenSync, a clipboard-sync product: text copied on one
device is posted to a server and written to the clipboard of the user's other
devices.

- `src/` is the library, verified with Verus: the suppression cache that keeps
  text received from another device from being sent back (`suppression`,
  `clipboard`), the desktop client's session, cache and background-service
  state (`state`, `services`, `socket`), sign-in deep links and device
  registration (`deep_link`, `device`, `storage`), tray and window decisions
  (`tray`, `desktop`), the API server's user store and its signed session tokens (`users`,
  `api`), and the command-line client's commands (`cli`, `text`).
- `tests/` runs the library on concrete values.
- `app/` holds the I/O around it: SQLite storage, HTTP calls, the clipboard,
  the command line and the HTTP server.
