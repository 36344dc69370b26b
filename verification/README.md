# tablet_utils

Stylus gestures for convertible laptops: a double tap changes the wallpaper, a
horizontal swipe changes the workspace, and holding the pen at the left or right edge
adjusts brightness or volume by height.

- `src/` is the verified library (Verus):
  - `clock`: instants as Unix second and nanosecond part, with `chrono`'s range and
    millisecond arithmetic, and the monotonic clock;
  - `input`: decoding of the device's 24-byte event records, the event kinds, and the
    bounded history of button events;
  - `actions`: classification of a press-and-release (tap, straight stroke, free line)
    and the desktop action a button's history asks for;
  - `interaction`: the state machine over the event stream, live volume/brightness
    control, and the laws that hold of it;
  - `launcher`: splitting of a launcher command line into program and arguments.
- `app/` is the program around it: command-line options, the device-reading daemon,
  and the commands (`hyprctl`, `brillo`, ALSA) that carry the actions out.
- `tests/` runs the library on concrete inputs.
