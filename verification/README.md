# clatune

A terminal tuner. The library (`src/`) holds the tuner's logic, verified with
Verus; `app/` is the program around it.

- `notes`: pitch letters, their names, and the three notes shown around a
  detected note (the semitone below, the note, the semitone above).
- `devices`: the list of input devices offered, built from what the audio host
  reports.
- `app`: the state of the screen and how key presses, ticks and the audio
  host's answers change it; a key press returns what the program must do next
  (ask for devices, reconnect the audio stream).
- `ui`: what is drawn and where: centred boxes, colours, the place of the tuning
  indicator, labels.
- `text`: decimal rendering of integers and small string helpers.

`app/` reads the terminal's events, talks to the audio host with `cpal`, detects
pitches on floating-point samples with `pitch_detection` and `pitch_calc`, and
draws with `ratatui`.
