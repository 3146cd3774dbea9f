# hushreader

The verified core of the HushReader (隐阅阁) desktop reader: everything the
shell decides or computes, with Verus contracts; `app/` holds the Tauri
commands, windows, tray and the I/O that drives the So Novel download
back-end, and calls into the library for every decision and text.

Modules of `src/`:

- `text` – decimal rendering, Unicode white-space trimming, prefix
  stripping and `u32` parsing, specified over `Seq<char>`.
- `urlencode` – percent-encoding of query values, with its decoding laws.
- `decode` – decoding a text file's bytes (UTF-8 with or without BOM, GBK).
- `json` – reading `serde_json` documents: the back-end's reply envelope,
  download errors and the settings file.
- `paths` – settings and book-shelf locations, the Windows `\\?\` prefix.
- `config` – the back-end's `config.ini`, command line and start-up checks.
- `requests` – the back-end's local URLs and event-stream request.
- `backend` – the back-end slot: port, status and the one-download-at-a-time
  rule.
- `probe` – port search, readiness wait and the progress event stream.
- `pidfile` – the pid file that finds a back-end left over by a crash.
- `shell` – tray menu, tray click and main-window toggling.
