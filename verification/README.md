# transfer_music_favourites

Copies the songs a Navidrome (Subsonic) user starred from a local mirror of
the music library into a destination directory, converting them with ffmpeg
where the configuration asks for it, and copies their lyric files.

- `src/` is the verified library: configuration checking (`config`), the
  server exchange (`api`: salt, token, request, answer), path planning and
  format selection (`sync::utils`, `sync::sync_music`, `sync::sync_lyrics`,
  `sync`), ffmpeg command lines (`sync::conversion`) and the per-song
  transfer protocol as a state machine (`sync::transfer`). Operations of
  `std::path::Path` are named in `paths`.
- `app/` is the program: argument parsing, configuration loading, HTTP,
  file-system work, ffmpeg runs, concurrency and progress display.
- `tests/` runs the library on concrete values.
