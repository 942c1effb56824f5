# Lärmampel

A traffic light for the loudness of one's own voice: green, yellow or red on the screen while one
speaks into the microphone. With it comes a channel strip (compressor, noise gate, limiter, noise
filter) that plays the processed microphone to a virtual audio device.

- `src/` is the library: what the program decides. Every function states its result in a contract
  that Verus proves. A number that is a 32-bit float elsewhere is held here by its bits (`Single`);
  comparing and limiting such numbers is exact. Moments are nanoseconds of one clock.
- `tests/` runs the library, with the real ring buffer, noise filter and version crates behind it.
- `app/` is the program around the library: audio devices, windows, the tray symbol, files, the
  registry, and the arithmetic on samples.

Laws that hold across several functions stand in `src/` as proof functions whose names begin with
`law_`.
