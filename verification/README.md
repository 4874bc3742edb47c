# murmur

The decision logic of the Murmur menu-bar dictation app, verified with Verus.

- `src/health.rs` — the runtime health report (which tools are missing, whether recording can start).
- `src/hotkey.rs` — the registered global shortcut and its default configuration.
- `src/asr_client.rs` — the model and text-cleaning choice that transcriptions use.
- `src/coli.rs` — where the `coli` recognizer is looked for, in order, and the search that probes those places one by one.
- `src/byte_order.rs` — descending byte order of installed Node version names.
- `src/transcription.rs` — transcription settings, `coli` arguments, reading a finished run, failure messages.
- `src/transcribe_job.rs` — a transcription as a sequence of steps (check audio, locate, launch, wait, stop, collect) driven by what the caller reports.
- `src/tools.rs` — the tool paths that the native shell configures.
- `src/tray.rs` — tray menu, tray icon and window behaviour, and tray texts.
- `src/text.rs` — string helpers backed by the standard library.

`app/` holds the Tauri shell and the C interface: processes, files, environment
variables, JSON and the window system, which hand plain values to the library.
