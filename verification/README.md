# headset_controller

A controller for gaming headsets (the SteelSeries Arctis Nova 7 family and a
dummy device): it keeps per-headset profiles of side tone, microphone volume
and light, equalizer, volume limiter, bluetooth and idle settings, and applies
them to the headset over HID.

The library under `src/` is verified with Verus:

- `config`: profiles and the per-headset settings, with the lookup that
  creates a headset's settings on first use;
- `debouncer`: the actions and their timeouts, and the timing state that
  decides which action is due;
- `devices`: the supported models, which of them are present, the order in
  which they are tried, the udev rules, and the Arctis Nova 7 report formats;
- `control`, `ui`, `tray`, `audio`, `framework`: the decisions of the worker,
  the configuration window, the tray menu, the system audio switch and the
  event loop;
- `laws`: properties that span several functions.

`app/` holds the program around it: reading and writing the configuration
file, HID I/O, the asynchronous worker and the egui window contents.
