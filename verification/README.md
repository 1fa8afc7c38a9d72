# player_core

The core of an audio player, written in Rust and verified with Verus.

- `src/song.rs`: the songs of a playlist and their identifiers
- `src/message.rs`: messages between host and audio thread, and their answers
- `src/format.rs`: sample formats of devices and of decoded audio
- `src/config.rs`: which output device to use, how to drive it, how long its ring is
- `src/sample.rs`: the samples that a ring can carry
- `src/ring.rs`: the ring that carries samples to the device, and `src/ring/ends.rs`: its two ends,
  on top of the `rb` crate
- `src/player.rs`: when a decoded block needs a new resampler
- `src/output_thread.rs`: which blocks the output thread plays and which it drops

`app/` is ordinary Rust around that core: the JSON form of the messages, the channel to the output
thread, and output through `cpal`. The host brings the resamplers and its description of audio
quality as type parameters.

What is believed without proof stands in `src/song.rs` (the MD5 digest, from the `md5` crate) and in
`src/ring/ends.rs` (making a ring, handing out its two ends, writing and reading). The comment above each
such function says what is claimed of it.
