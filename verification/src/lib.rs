//! Audio channels for a game engine: per-channel volume, per-track playback
//! settings, and a debounce that spaces out repeated plays of one track.
//!
//! The engine owns entities, assets and the mixer. This library owns the
//! decisions: whether a play request is honoured, how long the track is then
//! held back, what a settings request changes, and how loud a sink plays.
//! Times are whole milliseconds and volumes whole thousandths, so every rule
//! here is stated and proved over integers.

pub mod audio_channel;
pub mod channel;
pub mod controller;
pub mod delay_mode;
pub mod events;
pub mod global;
pub mod playback;
pub mod plugin;
pub mod resources;
pub mod timer;
pub mod track_map;
pub mod tracks;
pub mod volume;
