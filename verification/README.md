# echo_rs

The verified core of the echo music player (a terminal and desktop Spotify client).

- `src/` — the library, verified with Verus:
  - `normal`: what each key does in the terminal player's normal mode — cursor moves, likes,
    double-`d` deletes, cut and paste, going back, seeking, muting, tab cycling — as a step from
    state and key to the next state and what the player must do, with laws such as "`M` twice
    restores the volume" and "any key but `d` disarms a double press";
  - `modes`: the command line, the search within a list, the credentials form and the y/n
    confirm prompt;
  - `navigation`: the desktop app's Escape and selection steps, and the modal-key decisions;
  - `browse`: the Browse tab's pages;
  - `instance` (single-instance endpoint names), `tray` (tray icon pixels), `cli` (argv
    parsing, progress reports, terminal relaunch plans, the `upgrade` decision), `library`
    (thumbnail-list scrolling), `theme` (color tables), `views` (lyric timing, lyric column
    layout, sorting, window corners), `backdrop` (disc order, texture framing, backdrop
    caching), `palette` (the cover color histogram), `images` (the BGRA byte swap and image
    cache), `assets` (the icon table) and `text` (small text helpers).
- `tests/` — tests that run the library.
- `app/` — the operating-system edges around it: the single-instance socket or pipe, the tray
  icon, relaunching in a terminal emulator, the `version` and `upgrade` commands, and the
  floating-point color math of the immersive view.
