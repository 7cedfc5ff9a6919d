# nv_audio_fx_vst

A VST3 plugin that runs the NVIDIA Maxine Audio Effects SDK (noise
suppression, room echo removal, or both) on a microphone channel, with its
audio path and decisions verified in Verus.

- `src/` is the verified library:
  - `ring_buffer.rs` — the fixed-capacity FIFO queue of samples;
  - `plugin.rs` — the audio-path state (input and output queues primed
    with one frame of silence, frame size, voice-light hold), effect and
    frame-size selection, and the delay-line laws;
  - `wrapper.rs` — model file naming and search order, and the state
    machine that brings an SDK effect up and releases it on failure;
  - `loader.rs` — where the SDK library is looked for and which of its
    functions are required;
  - `ffi.rs` — SDK status codes and selector names.
- `app/` is the plugin itself: nih-plug glue, the egui editor, the C calls
  into the SDK, file-system probing and the `f32` arithmetic.
- `tests/` exercises the library on concrete values.
