# rawdio

An audio engine inspired by the Web Audio API, with its scheduling and
playback logic verified by Verus.

## Layout

- `src/` is the verified library:
  - `timestamp.rs`: the timeline, in ticks of 1/1,411,200,000 s, so that whole
    samples at every common sample rate are exact.
  - `channel.rs`: the event channels between the control thread and the audio
    thread (`crossbeam`), behind small trusted wrappers; each transmitter
    keeps the record of the messages it has handed to its channel, which is
    what the senders' contracts speak of.
  - `buffer.rs`: frames of samples of any type, and the copying, prefixing
    and appending that the recorder does with them.
  - `effects/utility`: the event processor, which keeps the timed events of a
    node in order and finds the frame at which each one takes effect.
  - `effects/sampler`: the sampler's voices, its playback state machine
    (starts, stops, fades, loops) and the plan of sample segments that each
    audio block mixes in.
  - `effects/recorder`: the recorder on the audio thread, which copies the
    input into its buffers and hands each filled buffer on, and the node that
    joins the handed-on buffers into the recording.
  - `effects/mixer`: the mixer node and its matrix of levels, generic in the
    level type; each change of a level hands the whole matrix to the audio
    thread.
  - `effects/adsr`: the ADSR node, its events, its envelope settings, and
    its processor's plan of each block: the stretches over which the envelope
    runs on, and the event that takes effect after each; `gain`, `pan`, `biquad`: the parts of those
    effects that hold no samples.
  - `graph`: nodes, connections, endpoints, DSP nodes and buffer pools.
  - `engine`: engine options, commands and notifier status.
- `app/` holds what works on floating point samples (mixing the sampler's
  plans, fades, gain and pan, convolution with `rustfft`, envelope following,
  wave shaping), the audio buffers, and the control side of the engine.
- `tests/` runs the library on concrete inputs.
