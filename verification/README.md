# mustui

A terminal music player for YouTube Music, built around a verified core.

- `src/` is the library, verified with Verus: the reducer that drives the
  player (`update`, with the model in `state` and the messages and effects in
  `msg`), its properties (`laws`), the ranking of `yt-dlp` search results
  (`ytdlp`), the downloads library (`library`), playlists (`playlist`), key
  bindings (`keys`, `action`), the bookkeeping of the audio output (`audio`),
  the background player's state machine (`messages`) and the texts the
  screens show (`labels`).
- `app/` is the program around it: the terminal, the audio device, the disk,
  the `yt-dlp` subprocess and the JSON files. It performs the effects that the
  reducer asks for and feeds the answers back as messages.
- `tests/` exercises the library on concrete values.
