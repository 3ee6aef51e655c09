# vooox

A local dictation tool for Linux: press a global shortcut, speak, and the
transcript of a faster-whisper sidecar is pasted where the cursor was.

## Layout

- `src/` — the verified library (Verus).  Each module states its behaviour
  in `requires`/`ensures` over views and spec functions and proves it:
  - `shortcuts` — parsing shortcut strings and following a key stream into
    presses and releases of the shortcut;
  - `controller` — the toggle / push-to-talk state machine, the live
    preview cadence, the routing of transcription segments;
  - `whisper`, `sidecar` — the sidecar protocol, the audio encoding, the
    transcript of a stream of segments, the port announcement;
  - `history`, `window_state`, `keyed`, `config`, `paths` — persisted state
    and where it lives;
  - `devices`, `gpu`, `models`, `setup`, `install` — input devices, NVIDIA
    detection, model sizes, the Python check and the install steps;
  - `panel`, `setup_view`, `settings_view`, `tray`, `x11` — what the
    panel, the setup wizard, the settings window and the tray show, and the
    window geometry;
  - `text`, `number` — text and number helpers with their specifications.
- `tests/` — tests of the library on concrete values.
- `app/` — the program around it: GTK windows, cpal audio, rdev, the
  tray, the WebSocket client and the files on disk.
