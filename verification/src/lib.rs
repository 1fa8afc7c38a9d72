//! The core of an audio player: the songs of a playlist and their identifiers, the messages between
//! host and audio thread, the choice of an output device and of its configuration, the ring that
//! carries samples to the device, and the thread that owns the output.
pub mod config;
pub mod format;
pub mod message;
pub mod output_thread;
pub mod player;
pub mod ring;
pub mod sample;
pub mod song;

pub use message::AudioThreadEventMessage;
pub use song::SongData;
