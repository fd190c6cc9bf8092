//! Playback synchronization engine for a terminal media player.
//!
//! The library holds the logic that keeps decoded video and audio
//! perceptually synchronized while the player reacts to transport
//! commands: the logical clock that maps wall-clock instants to media
//! positions, the transport state machine that drives the control loop,
//! and the cursor logic of the real-time audio fill path. All wall-clock
//! reads are injected as parameters, so the clock logic is pure.
//!
//! Decoding, the audio device, and the terminal live outside this crate;
//! they exchange plain values (timestamps, byte buffers, events) with
//! the functions here.

pub mod audio;
pub mod clock;
pub mod timestamp;
pub mod transport;
