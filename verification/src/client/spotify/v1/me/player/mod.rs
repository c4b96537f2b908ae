//! Playback control.

pub mod play;
