//! How a guild's queue becomes sound.
pub mod playback;
pub mod stream;
