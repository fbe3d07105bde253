# echoinput

The verified core of a keystroke visualizer: it turns raw key events into the
rows of bubbles that an on-screen overlay shows, and keeps the user settings
that shape the overlay.

## Layout

- `src/` — the library, verified with Verus.
  - `rdev` — keys, buttons and raw input events; which text prints; keypad
    fallback; X11 event conversion; Wayland session detection; LED files.
  - `input` — the normalizer that tracks held modifier keys and turns key
    presses into keystrokes.
  - `keystrokes` — the keystroke display as a state machine over a millisecond
    clock: typing rows, delimiters, shortcut chords, Backspace editing, repeat
    compression, the history limit, inactivity finalization and expiry.
  - `keystroke_laws` — what every operation of the display keeps, and what
    single keystrokes do.
  - `display` — what the overlay shows: the labels and repeat marker of each
    row, the typing row, and the modifier indicators.
  - `wayland` — libinput events of the Wayland backend turned into input
    events.
  - `settings` — settings, their defaults, and the form that edits them.
  - `overlay` — the application's decisions on input, ticks and settings.
  - `logging` — log line format and rotation threshold.
  - `text` — unsigned decimal parsing and formatting, string helpers.
  - `icons`, `hotkey`, `tray` — glyphs, hotkey and tray item identifiers.
- `tests/` — tests of the library.
- `app/` — a terminal front end: settings file, log file, window geometry, and
  a loop that types each input line into the display and prints its rows.
