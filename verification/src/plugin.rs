//! Setting the controller up, and which entities fall to the global channel.

use vstd::prelude::*;

use crate::controller::{
    fresh_channel, AudioController, AudioControllerView, ChannelRegistration, GLOBAL_CHANNEL,
};

verus! {

/// Initializes the audio controller: registers the global channel as the
/// default channel.
#[derive(Clone, Copy, Debug, Default)]
pub struct AudioControllerPlugin;

impl AudioControllerPlugin {
    /// Registers the global channel with `app`, which has none yet.
    pub fn build(&self, app: &mut AudioController)
        requires
            !old(app)@.channels.contains_key(GLOBAL_CHANNEL),
        ensures
            final(app)@ == (AudioControllerView {
                channels: old(app)@.channels.insert(
                    GLOBAL_CHANNEL,
                    final(app)@.channels[GLOBAL_CHANNEL],
                ),
                ..old(app)@
            }),
            fresh_channel(final(app)@.channels[GLOBAL_CHANNEL]),
    {
        app.register_audio_channel(GLOBAL_CHANNEL)
    }
}

/// What is done with an entity that has just got a sink or a track.
#[derive(Clone, Copy, Debug, PartialEq, Eq, Structural)]
pub enum Assignment {
    /// The entity joins the global channel.
    JoinGlobal,
    /// The entity is on a channel: the mark that says so is taken off it.
    ClearMark,
    /// The entity stays as it is.
    Keep,
}

/// What is done with an entity whose sink was just added: it joins the global
/// channel unless it is marked as being on a channel, and a mark is taken off.
pub fn assign_to_global_on_sink(has_channel: bool) -> (assignment: Assignment)
    ensures
        assignment == (if has_channel {
            Assignment::ClearMark
        } else {
            Assignment::JoinGlobal
        }),
{
    if has_channel {
        Assignment::ClearMark
    } else {
        Assignment::JoinGlobal
    }
}

/// What is done with an entity without a sink whose track was just added: it
/// joins the global channel unless it is marked as being on a channel.
pub fn assign_to_global_on_file(has_channel: bool) -> (assignment: Assignment)
    ensures
        assignment == (if has_channel {
            Assignment::Keep
        } else {
            Assignment::JoinGlobal
        }),
{
    if has_channel {
        Assignment::Keep
    } else {
        Assignment::JoinGlobal
    }
}

/// What an entity is given when a track is put on it.
#[derive(Clone, Copy, Debug, PartialEq, Eq, Structural)]
pub struct TrackAdded {
    /// Whether it gets the default delay mode and the marker of its track.
    pub delay_mode_and_marker: bool,
    /// Whether it gets the track's name as its own.
    pub name: bool,
}

/// What an entity is given when a track is put on it: the default delay mode
/// and the track's marker if it has no delay mode, and the track's name if it
/// has no name.
pub fn on_track_added(has_delay_mode: bool, has_name: bool) -> (given: TrackAdded)
    ensures
        given == (TrackAdded { delay_mode_and_marker: !has_delay_mode, name: !has_name }),
{
    TrackAdded { delay_mode_and_marker: !has_delay_mode, name: !has_name }
}

/// Whether the delay mode and the track's marker are taken off an entity when
/// its track is: they are where the entity holds no delay mode at that time.
pub fn on_track_removed(has_delay_mode: bool) -> (taken: bool)
    ensures
        taken == !has_delay_mode,
{
    !has_delay_mode
}

} // verus!
