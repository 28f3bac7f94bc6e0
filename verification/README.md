# surface_dial

The verified core of a Surface Dial daemon for Hyprland. Clicking the dial
cycles through the configured modes; turning it drives the current mode
(scrolling layout, system volume, application scroll, cursor zoom, Home
Assistant media volume); a floating overlay shows the mode and hides after
a timeout.

- `src/` is the library, checked with Verus: mode cycling, the rotation
  accumulator, the Hyprland command builders and reply readers, the
  per-mode tick handling and the overlay's show/hide state machine.
- `app/` is the program around it: reading the dial with evdev and udev,
  running `hyprctl` and `wpctl`, the uinput scroll device, the HTTP calls to
  Home Assistant, the GTK4 overlay window, and the two modes that compute
  with floating-point values (zoom, Home Assistant volume).
- `tests/` runs the library on concrete inputs.
