//! The requests that a channel hands out for itself.

use vstd::prelude::*;

use crate::events::{PlayEvent, SettingsEvent};

verus! {

/// A marker for one audio channel. Whoever implements it says which channel
/// the marker stands for; the requests it hands out are then made for that
/// channel.
pub trait AudioChannel {
    /// The channel that the marker stands for.
    const ID: u64;

    /// A request to play `id` on this channel.
    fn play_event(id: u64) -> (event: PlayEvent)
        ensures
            event == (PlayEvent {
                channel: Self::ID,
                id,
                entity: None,
                child: false,
                settings: None,
                delay_mode: None,
                force: false,
            }),
    ;

    /// A settings request for this channel that changes nothing yet.
    fn settings_event() -> (event: SettingsEvent)
        ensures
            event == (SettingsEvent {
                channel: Self::ID,
                settings: None,
                volume: None,
                track: None,
                delay_mode: None,
                all: false,
            }),
    ;
}

} // verus!
