# Immich Sync

Uploads the photos and videos in watched folders to an Immich server and
keeps a local record of what was synced.

- `src/` — the library, verified with Verus: settings and URL handling,
  API key lookup order, the server probe, storage cache and space check,
  upload results and error texts, the per-file sync steps as a state machine
  (`pipeline`), sync status and counters.
- `tests/` — tests of the library on concrete values.
- `app/` — the Tauri desktop shell: commands, tray, window handling, and the
  file system, SQLite, keyring and HTTP work that the library's steps ask for.
