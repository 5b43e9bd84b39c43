# fft

A WAV waveform and spectrum viewer. The verified library (`src/`) holds the
logic that decides what is shown:

- `coord`: plot coordinates along the sample axis, held as the whole numbers
  just below and above them, and their truncation to sample indices;
- `window`: the buffer window seen between two plot bounds, and the thinned
  points drawn from it;
- `wav`: decoding WAV bytes into 16-bit samples (through `hound`);
- `pcm`: the sample buffer with its plot bounds and change flag;
- `transform`: which spectrum bins are drawn, and note names;
- `wav_util`: sample buffers whose change flag stays set until the spectrum
  of the moved window is taken.

`app/` is the program around it: argument parsing, reading the file, the
egui/eframe window, and the floating point work (the Fourier transform, peak
search and the semitone logarithm).
