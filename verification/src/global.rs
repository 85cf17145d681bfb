//! The global channel.

use vstd::prelude::*;

use crate::audio_channel::AudioChannel;
use crate::controller::GLOBAL_CHANNEL;
use crate::events::{PlayEvent, SettingsEvent};

verus! {

/// This is the global channel: any audio that is played without a channel is
/// added to this channel.
#[derive(Clone, Copy, Debug, Default)]
pub struct GlobalChannel;

impl AudioChannel for GlobalChannel {
    const ID: u64 = GLOBAL_CHANNEL;

    /// A request to play `id` on the global channel.
    fn play_event(id: u64) -> (event: PlayEvent)
        ensures
            event.channel == GLOBAL_CHANNEL,
    {
        PlayEvent::new(GLOBAL_CHANNEL, id)
    }

    /// A settings request for the global channel that changes nothing yet.
    fn settings_event() -> (event: SettingsEvent)
        ensures
            event.channel == GLOBAL_CHANNEL,
    {
        SettingsEvent::new(GLOBAL_CHANNEL)
    }
}

} // verus!
