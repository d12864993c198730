# dictum_core

The decision logic of the Dictum speech-to-text desktop app, written in Verus
and proved against its contracts.

- `src/` is the verified library. Each module states its behaviour over
  mathematical models (`Seq`, `Map`, views, spec functions); the laws that
  relate several operations are public proof functions named `law_*`.
  - `engine_gate`: the single admission authority for the transcription
    engine (background jobs are refused while it is held; a dictation pends
    and receives the engine on release).
  - `operation`: the recording/processing lifecycle and stale operations.
  - `streaming`: live-paste sessions and the streaming worker's commands.
  - `transcription`: language, task and prompt choices of a run, model
    loading and idle unloading, compute devices and accelerators.
  - `ipc_protocol`: the local JSON-RPC API's errors, routing, framing,
    audio contract and exact response texts.
  - `keyboard`: key names, shortcut recording, the hotkey registry, and what
    a shortcut event does in push-to-talk and toggle mode.
  - `input_source`, `lang_id`, `tray_i18n`: languages from keyboard layouts,
    detector languages, and tray strings.
  - `hf_api`, `catalog`, `dictum_config`, `history`, `paste_tx`,
    `diagnostics`, `signal_handle`, `cpu_check`, `parakeet`: the smaller
    decisions of model listings, settings, the clipboard transaction and
    startup checks.
  - `text`, `scan`: string helpers with the meaning of std's `str` methods.
- `app/` is ordinary Rust around the library: the socket server, WAV
  decoding, signals, clock probes, platform queries, downloads, and the
  thread-safe engine gate.
- `tests/` runs the library on concrete values.
