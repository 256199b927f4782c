# shazam_tray

The menu-bar companion of the Shazam backend, as a verified library plus a
thin program around it.

- `src/` is the library, verified with Verus: the daemon's start/stop plans
  and liveness probes (`daemon`), the shared state and its transitions
  (`state`), one polling round of the daemon (`poll`), HTTP request texts and
  response bodies (`http`), shell and AppleScript quoting (`quote`), JSON documents
  and the project registry (`json`), the menu view, clicks and alerts
  (`tray`), the launchd login item (`autostart`), the icon's pixels (`icon`),
  backend messages (`protocol`), text helpers (`text`), and properties that
  span several of them (`laws`).
- `app/` runs the menu bar, threads, sockets, processes and files, and hands
  the library plain values.
- `tests/` exercises the library on concrete values.
