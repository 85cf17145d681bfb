//! The requests that a game sends to a channel.

use vstd::prelude::*;

use crate::delay_mode::DelayMode;
use crate::playback::PlaybackSettings;
use crate::tracks::AudioFiles;

verus! {

/// A request to play a track on a channel.
#[derive(Clone, Copy, Debug, PartialEq, Eq, Structural)]
pub struct PlayEvent {
    /// The channel that plays the track.
    pub channel: u64,
    /// The track to play.
    pub id: u64,
    /// The entity to play the track on, where one is given.
    pub entity: Option<u64>,
    /// Whether the track plays on a new child of that entity.
    pub child: bool,
    /// Playback settings that go before those of the channel.
    pub settings: Option<PlaybackSettings>,
    /// A delay mode that goes before that of the channel.
    pub delay_mode: Option<DelayMode>,
    /// Whether the track plays even while its timer runs.
    pub force: bool,
}

impl PlayEvent {
    /// Create a new request to play `id` on `channel`.
    pub fn new(channel: u64, id: u64) -> (event: Self)
        ensures
            event == (PlayEvent {
                channel,
                id,
                entity: None,
                child: false,
                settings: None,
                delay_mode: None,
                force: false,
            }),
    {
        PlayEvent {
            channel,
            id,
            entity: None,
            child: false,
            settings: None,
            delay_mode: None,
            force: false,
        }
    }

    /// Set the entity to play the audio on.
    pub fn with_entity(self, entity: u64) -> (event: Self)
        ensures
            event == (PlayEvent { entity: Some(entity), ..self }),
    {
        PlayEvent { entity: Some(entity), ..self }
    }

    /// Specify the playback settings for the track, which go before the
    /// channel's settings for it and before the channel's default.
    pub fn with_settings(self, settings: PlaybackSettings) -> (event: Self)
        ensures
            event == (PlayEvent { settings: Some(settings), ..self }),
    {
        PlayEvent { settings: Some(settings), ..self }
    }

    /// Set the delay mode for the track, which goes before the channel's
    /// delay mode for it and before the channel's default.
    pub fn with_delay_mode(self, delay_mode: DelayMode) -> (event: Self)
        ensures
            event == (PlayEvent { delay_mode: Some(delay_mode), ..self }),
    {
        PlayEvent { delay_mode: Some(delay_mode), ..self }
    }

    /// Play the track even while its timer runs.
    pub fn with_force(self) -> (event: Self)
        ensures
            event == (PlayEvent { force: true, ..self }),
    {
        PlayEvent { force: true, ..self }
    }

    /// Set the audio to play as a child of the entity, which `with_entity`
    /// must have set before.
    pub fn as_child(self) -> (event: Self)
        requires
            self.entity.is_some(),
        ensures
            event == (PlayEvent { child: true, ..self }),
    {
        PlayEvent { child: true, ..self }
    }
}

/// A request to change the settings of a channel, for one track, for all
/// tracks, or for the channel's defaults.
#[derive(Clone, Copy, Debug, PartialEq, Eq, Structural)]
pub struct SettingsEvent {
    /// The channel whose settings change.
    pub channel: u64,
    /// The new playback settings, if they change.
    pub settings: Option<PlaybackSettings>,
    /// The new volume of the channel in thousandths, if it changes.
    pub volume: Option<i32>,
    /// The one track that the request is about, if it is about one.
    pub track: Option<u64>,
    /// The new delay mode, if it changes.
    pub delay_mode: Option<DelayMode>,
    /// Whether the request is about every track.
    pub all: bool,
}

impl SettingsEvent {
    /// A request that changes nothing yet.
    pub fn new(channel: u64) -> (event: Self)
        ensures
            event == (SettingsEvent {
                channel,
                settings: None,
                volume: None,
                track: None,
                delay_mode: None,
                all: false,
            }),
    {
        SettingsEvent {
            channel,
            settings: None,
            volume: None,
            track: None,
            delay_mode: None,
            all: false,
        }
    }

    /// Sets the volume for the channel, in thousandths.
    pub fn with_volume(self, volume: i32) -> (event: Self)
        ensures
            event == (SettingsEvent { volume: Some(volume), ..self }),
    {
        SettingsEvent { volume: Some(volume), ..self }
    }

    /// Sets the playback settings: the channel's default ones, unless
    /// `with_track` or `all` says otherwise.
    pub fn with_settings(self, settings: PlaybackSettings) -> (event: Self)
        ensures
            event == (SettingsEvent { settings: Some(settings), ..self }),
    {
        SettingsEvent { settings: Some(settings), ..self }
    }

    /// Sets the delay mode: the channel's default one, unless `with_track` or
    /// `all` says otherwise.
    pub fn with_delay_mode(self, delay_mode: DelayMode) -> (event: Self)
        ensures
            event == (SettingsEvent { delay_mode: Some(delay_mode), ..self }),
    {
        SettingsEvent { delay_mode: Some(delay_mode), ..self }
    }

    /// Applies the settings and the delay mode to one track instead. A
    /// request is about one track or about all of them, never both.
    pub fn with_track(self, id: u64) -> (event: Self)
        requires
            !self.all,
        ensures
            event == (SettingsEvent { track: Some(id), ..self }),
    {
        SettingsEvent { track: Some(id), ..self }
    }

    /// Applies the settings and the delay mode to every track of the channel
    /// instead. A request is about one track or about all of them, never both.
    pub fn all(self) -> (event: Self)
        requires
            self.track.is_none(),
        ensures
            event == (SettingsEvent { all: true, ..self }),
    {
        SettingsEvent { all: true, ..self }
    }
}

/// A request to play a track that is known by the path of its file.
#[derive(Debug)]
pub struct AudioControllerEvent {
    /// The path of the track's file.
    pub id: String,
    /// The entity that the track plays below, where one is given.
    pub entity: Option<u64>,
    /// Whether the track plays even while its timer runs.
    pub force: bool,
}

impl AudioControllerEvent {
    /// A request to play the file at `id`.
    pub fn new(id: &str) -> (event: Self)
        ensures
            event.id@ == id@,
            event.entity.is_none(),
            !event.force,
    {
        AudioControllerEvent { id: id.to_owned(), entity: None, force: false }
    }

    /// Play the track below `entity`.
    pub fn with_parent(self, entity: u64) -> (event: Self)
        ensures
            event.id == self.id,
            event.entity == Some(entity),
            event.force == self.force,
    {
        AudioControllerEvent { id: self.id, entity: Some(entity), force: self.force }
    }

    /// Play the track even while its timer runs.
    pub fn with_force(self) -> (event: Self)
        ensures
            event.id == self.id,
            event.entity == self.entity,
            event.force,
    {
        AudioControllerEvent { id: self.id, entity: self.entity, force: true }
    }

    /// The same request for `channel`, with the track looked up in `files`:
    /// the unknown track where no file lies at the path.
    pub fn play_event(&self, channel: u64, files: &AudioFiles) -> (event: PlayEvent)
        ensures
            event == (PlayEvent {
                channel,
                id: match crate::tracks::first_with_path(
                    files@,
                    crate::tracks::slashed(self.id@),
                    0,
                ) {
                    Some(index) => index as u64,
                    None => crate::tracks::UNKNOWN_TRACK,
                },
                entity: self.entity,
                child: self.entity.is_some(),
                settings: None,
                delay_mode: None,
                force: self.force,
            }),
    {
        let id: u64 = files.find(self.id.as_str());
        PlayEvent {
            channel,
            id,
            entity: self.entity,
            child: self.entity.is_some(),
            settings: None,
            delay_mode: None,
            force: self.force,
        }
    }
}

} // verus!
