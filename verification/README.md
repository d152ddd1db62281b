# raymarch

A volumetric raymarcher driven by keyboard input, with an audio spectrum
analyser. The library under `src/` holds the program's integer and control
logic, verified with Verus:

- `analysis`: the band layout of the audio spectrum (`count_bands`,
  `band_edges`) and the proof that the bands partition the spectrum bins.
- `accumulator`: the buffer that collects audio samples into FFT blocks.
- `host`: the menu of audio hosts, reading the user's answer as an index,
  and the setup error.
- `uniforms`: direction keys, the key types the input handling reads, and
  the input state that turns held keys into camera steps.
- `render`: the frame counter and parity that alternate the two volume
  textures, key handling, the compute dispatch size, and the reactions to
  window and surface events.
- `wiggle`: keyboard layouts and the generic ping-pong pair.

`app/` is the program around it: the winit event loop, the wgpu renderer,
the floating-point camera and signal processing, and audio capture.
