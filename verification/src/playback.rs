//! The playback settings of a track, as far as the rules of a channel read
//! them.

use vstd::prelude::*;

use crate::volume::Volume;

verus! {

/// What becomes of a sink, and of the entity that holds it, when the track
/// ends.
#[derive(Clone, Copy, Debug, PartialEq, Eq, Hash, Structural)]
pub enum PlaybackMode {
    /// Play the track once and keep the entity as it is.
    Once,
    /// Play the track again and again.
    Loop,
    /// Despawn the entity when the track ends.
    Despawn,
    /// Remove the audio components from the entity when the track ends.
    Remove,
}

/// How a track is played.
#[derive(Clone, Copy, Debug, PartialEq, Eq, Hash, Structural)]
pub struct PlaybackSettings {
    /// What happens when the track ends.
    pub mode: PlaybackMode,
    /// The track's own volume.
    pub volume: Volume,
    /// The speed in thousandths of the normal speed.
    pub speed: i32,
    /// Whether the sink starts paused.
    pub paused: bool,
    /// Whether the sink is placed in space.
    pub spatial: bool,
}

/// The speed of a track that is neither slowed nor hurried, in thousandths.
pub const NORMAL_SPEED: i32 = 1000;

impl Default for PlaybackSettings {
    fn default() -> (settings: Self)
        ensures
            settings.mode == PlaybackMode::Once,
            settings.volume.level() == 1000,
            settings.speed == NORMAL_SPEED,
            !settings.paused,
            !settings.spatial,
    {
        PlaybackSettings {
            mode: PlaybackMode::Once,
            volume: Volume::default(),
            speed: NORMAL_SPEED,
            paused: false,
            spatial: false,
        }
    }
}

} // verus!
