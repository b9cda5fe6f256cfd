# natively-audio

The core of a native module that captures system audio and microphones and hands
the sound on as 20 ms frames of little-endian 16-bit samples.

- `src/` is the verified library.
  - `ring`: the sample ring between a device callback and the processing thread, and
    draining it.
  - `resample`: which input samples each output sample of the linear resampler is
    interpolated from.
  - `pcm`: samples and their byte form.
  - `dsp`: the signal-processing loop as a state machine; `dsp_laws` says what holds of
    every run of it.
  - `system`, `microphone`: the life of a capture; `capture_laws` says what holds of
    every capture.
  - `devices`, `error`: device lists and the texts of refusals.
- `tests/` runs the library on concrete values.
- `app/` is the Node module around it: threads, callbacks, floating point. The host
  installs its audio backends and its silence suppressor through `app/platform.rs`.

Samples cross the ring as the bit patterns of their `f32` values.
