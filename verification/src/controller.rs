//! The channels of a game, each with its settings and timers, and the
//! requests routed to them.

use vstd::prelude::*;

use crate::channel::{
    play_action, play_run, read_play_event, read_settings_event, settings_after, settings_run,
    timers_after_play, update_track_volume, PlayAction,
};
use crate::events::{PlayEvent, SettingsEvent};
use crate::resources::{
    all_ticked, untouched, AudioCache, ChannelSettings, ChannelSettingsView,
};
use crate::timer::DebounceTimer;
use crate::tracks::AudioFiles;
use crate::volume::effective_volume;

verus! {

/// The channel that plays whatever is played without a channel. Its volume
/// scales every other channel.
pub const GLOBAL_CHANNEL: u64 = 0;

/// What an `AudioController` holds.
pub struct AudioControllerView {
    /// The audio files that the channels play.
    pub files: AudioFiles,
    /// What is kept for each registered channel.
    pub channels: Map<u64, ChannelState>,
}

/// What is kept for one channel.
pub struct ChannelState {
    /// The channel's settings.
    pub settings: ChannelSettingsView,
    /// The timers of the channel's tracks.
    pub timers: Map<u64, DebounceTimer>,
}

/// The channels after a tick of `delta` milliseconds: the same channels with
/// the same settings, and each timer ticked.
pub open spec fn after_tick(registry: Map<u64, ChannelState>, delta: u64) -> Map<u64, ChannelState> {
    Map::new(
        |channel: u64| registry.contains_key(channel),
        |channel: u64|
            ChannelState {
                settings: registry[channel].settings,
                timers: all_ticked(registry[channel].timers, delta),
            },
    )
}

/// Whether `state` is that of a channel that was just registered: nothing
/// set, and no timers.
pub open spec fn fresh_channel(state: ChannelState) -> bool {
    untouched(state.settings) && state.timers == Map::<u64, DebounceTimer>::empty()
}

/// Something that audio channels can be registered with.
pub trait ChannelRegistration {
    /// Whether `channel` is registered.
    spec fn is_registered(&self, channel: u64) -> bool;

    /// Registers an audio channel. A channel is registered once: to register
    /// one that is registered already is an error of the caller.
    fn register_audio_channel(&mut self, channel: u64)
        requires
            !old(self).is_registered(channel),
        ensures
            final(self).is_registered(channel),
            forall|other: u64|
                other != channel ==> final(self).is_registered(other) == old(self).is_registered(
                    other,
                ),
    ;
}

struct Channel {
    id: u64,
    settings: ChannelSettings,
    cache: AudioCache,
}

/// The audio files of a game and the channels that play them.
pub struct AudioController {
    files: AudioFiles,
    channels: Vec<Channel>,
}

spec fn state_of(channel: Channel) -> ChannelState {
    ChannelState { settings: channel.settings@, timers: channel.cache@ }
}

spec fn first_at(channels: Seq<Channel>, id: u64, at: int) -> bool {
    &&& 0 <= at < channels.len()
    &&& channels[at].id == id
    &&& forall|before: int| 0 <= before < at ==> channels[before].id != id
}

spec fn listed(channels: Seq<Channel>, id: u64) -> bool {
    exists|at: int| first_at(channels, id, at)
}

spec fn position(channels: Seq<Channel>, id: u64) -> int {
    choose|at: int| first_at(channels, id, at)
}

spec fn same_ids(before: Seq<Channel>, after: Seq<Channel>) -> bool {
    &&& after.len() == before.len()
    &&& forall|slot: int| 0 <= slot < before.len() ==> after[slot].id == before[slot].id
}

spec fn registry(channels: Seq<Channel>) -> Map<u64, ChannelState> {
    Map::new(
        |id: u64| listed(channels, id),
        |id: u64| state_of(channels[position(channels, id)]),
    )
}

proof fn lemma_registry_at(channels: Seq<Channel>, id: u64, at: int)
    requires
        first_at(channels, id, at),
    ensures
        listed(channels, id),
        position(channels, id) == at,
        registry(channels).contains_key(id),
        registry(channels)[id] == state_of(channels[at]),
{
    let found = position(channels, id);
    assert(first_at(channels, id, found));
    if found < at {
        assert(channels[found].id != id);
    } else if at < found {
        assert(channels[at].id != id);
    }
}

proof fn lemma_has_first(channels: Seq<Channel>, id: u64, at: int)
    requires
        0 <= at < channels.len(),
        channels[at].id == id,
    ensures
        listed(channels, id),
    decreases at,
{
    if forall|before: int| 0 <= before < at ==> channels[before].id != id {
        assert(first_at(channels, id, at));
    } else {
        let before = choose|before: int| 0 <= before < at && channels[before].id == id;
        lemma_has_first(channels, id, before);
    }
}

proof fn lemma_same_ids(before: Seq<Channel>, after: Seq<Channel>, id: u64)
    requires
        same_ids(before, after),
    ensures
        listed(after, id) == listed(before, id),
        listed(before, id) ==> position(after, id) == position(before, id) && first_at(
            before,
            id,
            position(before, id),
        ),
{
    if listed(before, id) {
        let slot = position(before, id);
        assert(first_at(after, id, slot));
        lemma_registry_at(after, id, slot);
    }
    if listed(after, id) {
        let slot = position(after, id);
        assert(first_at(before, id, slot));
    }
}

proof fn lemma_registry_updated(before: Seq<Channel>, after: Seq<Channel>, at: int)
    requires
        first_at(before, before[at].id, at),
        after.len() == before.len(),
        after[at].id == before[at].id,
        forall|other: int| 0 <= other < before.len() && other != at ==> after[other] == before[other],
    ensures
        registry(after) =~= registry(before).insert(before[at].id, state_of(after[at])),
{
    assert(same_ids(before, after));
    lemma_registry_at(before, before[at].id, at);
    assert forall|id: u64| listed(after, id) == listed(before, id) by {
        lemma_same_ids(before, after, id);
    }
    assert forall|id: u64| listed(after, id) implies registry(after)[id] == registry(before).insert(
        before[at].id,
        state_of(after[at]),
    )[id] by {
        lemma_same_ids(before, after, id);
        let slot = position(before, id);
        if slot != at {
            assert(after[slot] == before[slot]);
        }
    }
}

proof fn lemma_registry_pushed(before: Seq<Channel>, added: Channel)
    requires
        forall|slot: int| 0 <= slot < before.len() ==> before[slot].id != added.id,
    ensures
        registry(before.push(added)) =~= registry(before).insert(added.id, state_of(added)),
{
    let after = before.push(added);
    assert(first_at(after, added.id, before.len() as int));
    lemma_registry_at(after, added.id, before.len() as int);
    assert forall|id: u64| id != added.id implies listed(after, id) == listed(before, id) && (listed(
        before,
        id,
    ) ==> registry(after)[id] == registry(before)[id]) by {
        if listed(before, id) {
            let slot = position(before, id);
            assert(first_at(before, id, slot));
            assert(first_at(after, id, slot));
            lemma_registry_at(after, id, slot);
        }
        if listed(after, id) {
            let slot = position(after, id);
            assert(first_at(after, id, slot));
            assert(after[slot].id == id);
            assert(slot < before.len());
            assert(before[slot] == after[slot]);
            assert forall|earlier: int| 0 <= earlier < slot implies before[earlier].id != id by {
                assert(after[earlier].id != id);
            }
            assert(first_at(before, id, slot));
        }
    }
    assert(!listed(before, added.id)) by {
        if listed(before, added.id) {
            assert(first_at(before, added.id, position(before, added.id)));
        }
    }
}

impl View for AudioController {
    type V = AudioControllerView;

    closed spec fn view(&self) -> AudioControllerView {
        AudioControllerView { files: self.files, channels: registry(self.channels@) }
    }
}

impl AudioController {
    /// A controller for `files` without any channel.
    pub fn new(files: AudioFiles) -> (made: Self)
        ensures
            made@.channels == Map::<u64, ChannelState>::empty(),
            made@.files == files,
    {
        let made = AudioController { files, channels: Vec::new() };
        assert(made@.channels =~= Map::<u64, ChannelState>::empty());
        made
    }

    fn find(&self, channel: u64) -> (found: Option<usize>)
        ensures
            match found {
                Some(at) => first_at(self.channels@, channel, at as int) && self@.channels.contains_key(
                    channel,
                ) && self@.channels[channel] == state_of(self.channels@[at as int]),
                None => !self@.channels.contains_key(channel) && forall|slot: int|
                    0 <= slot < self.channels@.len() ==> self.channels@[slot].id != channel,
            },
    {
        let mut at: usize = 0;
        while at < self.channels.len()
            invariant
                at <= self.channels.len(),
                forall|before: int| 0 <= before < at ==> self.channels@[before].id != channel,
            decreases self.channels.len() - at,
        {
            if self.channels[at].id == channel {
                proof {
                    lemma_registry_at(self.channels@, channel, at as int);
                }
                return Some(at);
            }
            at += 1;
        }
        proof {
            if listed(self.channels@, channel) {
                assert(first_at(self.channels@, channel, position(self.channels@, channel)));
            }
        }
        None
    }

    /// The audio files that the channels play.
    pub fn files(&self) -> (files: &AudioFiles)
        ensures
            *files == self@.files,
    {
        &self.files
    }

    /// Whether `channel` is registered.
    pub fn has_channel(&self, channel: u64) -> (registered: bool)
        ensures
            registered == self@.channels.contains_key(channel),
    {
        self.find(channel).is_some()
    }

    /// The settings of `channel`, if it is registered.
    pub fn channel_settings(&self, channel: u64) -> (settings: Option<&ChannelSettings>)
        ensures
            settings.is_some() == self@.channels.contains_key(channel),
            settings.is_some() ==> settings.unwrap()@ == self@.channels[channel].settings,
    {
        match self.find(channel) {
            Some(at) => Some(&self.channels[at].settings),
            None => None,
        }
    }

    /// Whether `track` may play on `channel`: `None` where the channel is not
    /// registered.
    pub fn can_play(&self, channel: u64, track: u64) -> (allowed: Option<bool>)
        ensures
            allowed == (if self@.channels.contains_key(channel) {
                Some(crate::resources::may_play(self@.channels[channel].timers, track))
            } else {
                None
            }),
    {
        match self.find(channel) {
            Some(at) => Some(self.channels[at].cache.can_play(track)),
            None => None,
        }
    }

    /// Carries out a settings request on the channel that it names, and on no
    /// other. Returns whether that channel is registered; where it is not,
    /// nothing changes.
    pub fn send_settings(&mut self, event: &SettingsEvent) -> (handled: bool)
        ensures
            final(self)@.files == old(self)@.files,
            handled == old(self)@.channels.contains_key(event.channel),
            final(self)@.channels == (if handled {
                old(self)@.channels.insert(
                    event.channel,
                    ChannelState {
                        settings: settings_after(
                            old(self)@.channels[event.channel].settings,
                            old(self)@.files@.len() as int,
                            *event,
                        ),
                        timers: old(self)@.channels[event.channel].timers,
                    },
                )
            } else {
                old(self)@.channels
            }),
    {
        match self.find(event.channel) {
            Some(at) => {
                read_settings_event(&mut self.channels[at].settings, &self.files, event);
                proof {
                    lemma_registry_updated(old(self).channels@, self.channels@, at as int);
                }
                true
            },
            None => false,
        }
    }

    /// Decides a request to play a track on the channel that it names, and
    /// starts the track's timer there where the track was free to play.
    /// `None` where the channel is not registered; nothing changes then.
    pub fn send_play(&mut self, event: &PlayEvent) -> (action: Option<PlayAction>)
        ensures
            final(self)@.files == old(self)@.files,
            action == (if old(self)@.channels.contains_key(event.channel) {
                Some(
                    play_action(
                        old(self)@.channels[event.channel].settings,
                        old(self)@.channels[event.channel].timers,
                        old(self)@.files,
                        *event,
                    ),
                )
            } else {
                None
            }),
            final(self)@.channels == (if old(self)@.channels.contains_key(event.channel) {
                old(self)@.channels.insert(
                    event.channel,
                    ChannelState {
                        settings: old(self)@.channels[event.channel].settings,
                        timers: timers_after_play(
                            old(self)@.channels[event.channel].settings,
                            old(self)@.channels[event.channel].timers,
                            old(self)@.files,
                            *event,
                        ),
                    },
                )
            } else {
                old(self)@.channels
            }),
    {
        match self.find(event.channel) {
            Some(at) => {
                let slot: &mut Channel = &mut self.channels[at];
                let action: PlayAction = read_play_event(
                    &slot.settings,
                    &mut slot.cache,
                    &self.files,
                    event,
                );
                proof {
                    lemma_registry_updated(old(self).channels@, self.channels@, at as int);
                }
                Some(action)
            },
            None => None,
        }
    }

    /// Carries out the settings requests of one run on `channel`, in order.
    /// Every one of them names that channel. Returns whether the channel is
    /// registered; where it is not, nothing changes.
    pub fn settings_event_reader(&mut self, channel: u64, events: &Vec<SettingsEvent>) -> (handled:
        bool)
        requires
            forall|at: int| 0 <= at < events@.len() ==> events@[at].channel == channel,
        ensures
            final(self)@.files == old(self)@.files,
            handled == old(self)@.channels.contains_key(channel),
            final(self)@.channels == (if handled {
                old(self)@.channels.insert(
                    channel,
                    ChannelState {
                        settings: settings_run(
                            old(self)@.channels[channel].settings,
                            old(self)@.files@.len() as int,
                            events@,
                            0,
                        ),
                        timers: old(self)@.channels[channel].timers,
                    },
                )
            } else {
                old(self)@.channels
            }),
    {
        match self.find(channel) {
            Some(at) => {
                crate::channel::settings_event_reader(
                    &mut self.channels[at].settings,
                    &self.files,
                    events,
                );
                proof {
                    lemma_registry_updated(old(self).channels@, self.channels@, at as int);
                }
                true
            },
            None => false,
        }
    }

    /// Reads the play requests of one run on `channel`, in order, and says
    /// what is to be done about each. Every one of them names that channel.
    /// `None` where the channel is not registered; nothing changes then.
    pub fn play_event_reader(&mut self, channel: u64, events: &Vec<PlayEvent>) -> (actions: Option<
        Vec<PlayAction>,
    >)
        requires
            forall|at: int| 0 <= at < events@.len() ==> events@[at].channel == channel,
        ensures
            final(self)@.files == old(self)@.files,
            actions.is_some() == old(self)@.channels.contains_key(channel),
            actions.is_some() ==> actions.unwrap()@ == play_run(
                old(self)@.channels[channel].settings,
                old(self)@.channels[channel].timers,
                old(self)@.files,
                events@,
                0,
            ).0,
            final(self)@.channels == (if old(self)@.channels.contains_key(channel) {
                old(self)@.channels.insert(
                    channel,
                    ChannelState {
                        settings: old(self)@.channels[channel].settings,
                        timers: play_run(
                            old(self)@.channels[channel].settings,
                            old(self)@.channels[channel].timers,
                            old(self)@.files,
                            events@,
                            0,
                        ).1,
                    },
                )
            } else {
                old(self)@.channels
            }),
    {
        match self.find(channel) {
            Some(at) => {
                let slot: &mut Channel = &mut self.channels[at];
                let actions: Vec<PlayAction> = crate::channel::play_event_reader(
                    &slot.settings,
                    &mut slot.cache,
                    &self.files,
                    events,
                );
                proof {
                    lemma_registry_updated(old(self).channels@, self.channels@, at as int);
                }
                Some(actions)
            },
            None => None,
        }
    }

    /// Ticks the timers of every channel by `delta` milliseconds.
    pub fn tick(&mut self, delta: u64)
        ensures
            final(self)@.files == old(self)@.files,
            final(self)@.channels == after_tick(old(self)@.channels, delta),
    {
        let mut at: usize = 0;
        while at < self.channels.len()
            invariant
                at <= self.channels.len(),
                self.files == old(self).files,
                self.channels@.len() == old(self).channels@.len(),
                forall|slot: int|
                    0 <= slot < self.channels@.len() ==> (#[trigger] self.channels@[slot]).id == old(
                        self,
                    ).channels@[slot].id && self.channels@[slot].settings == old(
                        self,
                    ).channels@[slot].settings,
                forall|slot: int|
                    0 <= slot < at ==> (#[trigger] self.channels@[slot]).cache@ == all_ticked(
                        old(self).channels@[slot].cache@,
                        delta,
                    ),
                forall|slot: int|
                    at <= slot < self.channels@.len() ==> (#[trigger] self.channels@[slot]).cache
                        == old(self).channels@[slot].cache,
            decreases self.channels.len() - at,
        {
            self.channels[at].cache.tick(delta);
            at += 1;
        }
        proof {
            let before = old(self).channels@;
            let after = self.channels@;
            assert(same_ids(before, after));
            assert forall|id: u64| listed(after, id) == listed(before, id) by {
                lemma_same_ids(before, after, id);
            }
            assert forall|id: u64| listed(after, id) implies registry(after)[id] == after_tick(
                registry(before),
                delta,
            )[id] by {
                lemma_same_ids(before, after, id);
                let slot = position(before, id);
                assert(after[slot].settings == before[slot].settings);
            }
            assert(registry(after) =~= after_tick(registry(before), delta));
        }
    }

    /// The volume at which the sink of `track` plays on `channel`, in
    /// billionths: the channel's volume, the global channel's and that of the
    /// track's playback settings on the channel, multiplied. `None` where the
    /// channel or the global channel is not registered.
    pub fn sink_volume(&self, channel: u64, track: u64) -> (volume: Option<u32>)
        ensures
            volume == (if self@.channels.contains_key(channel) && self@.channels.contains_key(GLOBAL_CHANNEL) {
                Some(
                    effective_volume(
                        self@.channels[channel].settings.channel_volume,
                        self@.channels[GLOBAL_CHANNEL].settings.channel_volume,
                        self@.channels[channel].settings.track_setting(track).volume.level(),
                    ) as u32,
                )
            } else {
                None
            }),
    {
        match self.find(channel) {
            Some(at) => match self.find(GLOBAL_CHANNEL) {
                Some(global) => Some(
                    update_track_volume(
                        &self.channels[at].settings,
                        &self.channels[global].settings,
                        track,
                    ),
                ),
                None => None,
            },
            None => None,
        }
    }
}

impl ChannelRegistration for AudioController {
    open spec fn is_registered(&self, channel: u64) -> bool {
        self@.channels.contains_key(channel)
    }

    /// Registers an audio channel with full volume, the default settings and
    /// no timers. Every other channel is left as it is.
    fn register_audio_channel(&mut self, channel: u64)
        ensures
            final(self)@ == (AudioControllerView {
                channels: old(self)@.channels.insert(channel, final(self)@.channels[channel]),
                ..old(self)@
            }),
            fresh_channel(final(self)@.channels[channel]),
    {
        let added = Channel {
            id: channel,
            settings: ChannelSettings::new(),
            cache: AudioCache::new(),
        };
        proof {
            assert forall|slot: int| 0 <= slot < self.channels@.len() implies self.channels@[slot].id
                != channel by {
                if self.channels@[slot].id == channel {
                    lemma_has_first(self.channels@, channel, slot);
                }
            }
            lemma_registry_pushed(self.channels@, added);
        }
        self.channels.push(added);
    }
}

/// A settings request about all tracks gives the new playback settings and the
/// new delay mode to every track of the files and to every track that had
/// settings or a delay mode of its own, so that no track keeps what was set
/// for it before. What the request does not give stays as it was, and so does
/// every other channel.
pub proof fn lemma_all_tracks_overwritten(
    registry: Map<u64, ChannelState>,
    count: int,
    event: SettingsEvent,
    track: u64,
    other: u64,
)
    requires
        registry.contains_key(event.channel),
        event.all,
        event.track.is_none(),
        other != event.channel,
    ensures
        ({
            let before = registry[event.channel].settings;
            let now = settings_after(before, count, event);
            let after = registry.insert(
                event.channel,
                ChannelState { settings: now, timers: registry[event.channel].timers },
            );
            &&& event.settings.is_some() ==> now.track_setting(track) == (if track < count
                || before.track_settings.contains_key(track) {
                event.settings.unwrap()
            } else {
                before.default_settings
            })
            &&& event.delay_mode.is_some() ==> now.track_delay_mode(track) == (if track < count
                || before.track_delay_modes.contains_key(track) {
                event.delay_mode.unwrap()
            } else {
                before.default_delay_mode
            })
            &&& event.settings.is_none() ==> now.track_settings == before.track_settings
            &&& event.delay_mode.is_none() ==> now.track_delay_modes == before.track_delay_modes
            &&& event.volume.is_none() ==> now.channel_volume == before.channel_volume
            &&& now.default_settings == before.default_settings
            &&& now.default_delay_mode == before.default_delay_mode
            &&& after.contains_key(other) == registry.contains_key(other)
            &&& after[other] == registry[other]
        }),
{
}

} // verus!
