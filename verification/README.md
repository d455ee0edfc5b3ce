# subd

The command logic of a Twitch streaming bot, verified with Verus: it reads
chat messages, channel-point redemptions and song-generator answers, and
decides which OBS scenes and filters to drive, which voice reads a message,
which sound effects play and which AI generators to ask.

## Layout

- `src/` — the verified library. Each handler module turns the words of a
  chat message into a command value; its contract states exactly which
  command comes out for every message. Proof functions next to the code
  state the library's laws (prompts keep the chatter's text, privileged
  commands are the streamer's, a message has one cutting into chunks, no
  lyric word is lost, ...).
  - `text.rs` — splitting, joining and number parsing, with their specs.
  - `files.rs` — file extensions and stems.
  - `deps.rs` — the calls into `rand`, `uuid`, `base64` and `convert_case`.
  - `handlers/` — one module per chat handler.
  - `move_transition/`, `obs_filters/`, `obs_bootstrap/`, `obs_combo.rs` —
    filter names, easing codes and settings for OBS's move transition and
    3D transform plugins.
- `tests/` — tests on concrete messages.
- `app/` — the program side: JSON bodies, folders on disk, the OBS
  websocket, and the floating-point arithmetic on filter and audio
  settings.
