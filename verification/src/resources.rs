//! What a channel keeps: its settings, and the timers of its tracks.

use vstd::prelude::*;

use crate::delay_mode::DelayMode;
use crate::playback::{PlaybackMode, PlaybackSettings};
use crate::timer::{fresh_timer, restarted, ticked, ticked_through, DebounceTimer};
use crate::track_map::{
    delay_mode_entries, delay_modes_get, delay_modes_insert, delay_modes_new, delay_modes_tracks,
    settings_entries, settings_get, settings_insert, settings_new, settings_tracks, timer_entries,
    timers_get, timers_insert, timers_new, timers_tracks, DelayModeMap, SettingsMap, TimerMap,
};
use crate::tracks::AudioFiles;
use crate::volume::{clamped_volume, Volume};

verus! {

/// `entries` after `value` was stored for all tracks: each of the first
/// `count` tracks maps to `value`, and so does every track that had an entry.
pub open spec fn set_for_all<V>(entries: Map<u64, V>, count: int, value: V) -> Map<u64, V> {
    Map::new(|track: u64| track < count || entries.contains_key(track), |track: u64| value)
}

spec fn overwritten<V>(entries: Map<u64, V>, done: Seq<u64>, value: V) -> Map<u64, V> {
    Map::new(
        |track: u64| entries.contains_key(track),
        |track: u64|
            if done.contains(track) {
                value
            } else {
                entries[track]
            },
    )
}

proof fn lemma_overwritten_step<V>(entries: Map<u64, V>, tracks: Seq<u64>, at: int, value: V)
    requires
        0 <= at < tracks.len(),
        entries.contains_key(tracks[at]),
    ensures
        overwritten(entries, tracks.take(at), value).insert(tracks[at], value) =~= overwritten(
            entries,
            tracks.take(at + 1),
            value,
        ),
{
    let before = tracks.take(at);
    let after = tracks.take(at + 1);
    assert forall|track: u64| after.contains(track) == (before.contains(track) || track
        == tracks[at]) by {
        if before.contains(track) {
            let found = choose|found: int| 0 <= found < before.len() && before[found] == track;
            assert(after[found] == track);
        }
        if track == tracks[at] {
            assert(after[at] == track);
        }
        if after.contains(track) {
            let found = choose|found: int| 0 <= found < after.len() && after[found] == track;
            if found < at {
                assert(before[found] == track);
            }
        }
    }
}

proof fn lemma_overwritten_ends<V>(entries: Map<u64, V>, tracks: Seq<u64>, value: V)
    requires
        forall|track: u64| tracks.contains(track) <==> entries.contains_key(track),
    ensures
        overwritten(entries, tracks.take(0), value) =~= entries,
        overwritten(entries, tracks.take(tracks.len() as int), value) =~= set_for_all(
            entries,
            0,
            value,
        ),
{
    assert(tracks.take(tracks.len() as int) =~= tracks);
    assert forall|track: u64| !tracks.take(0).contains(track) by {
        if tracks.take(0).contains(track) {
            let found = choose|found: int|
                0 <= found < tracks.take(0).len() && tracks.take(0)[found] == track;
        }
    }
}

/// What a `ChannelSettings` holds.
pub struct ChannelSettingsView {
    /// The channel's volume in thousandths.
    pub channel_volume: int,
    /// The playback settings set for single tracks.
    pub track_settings: Map<u64, PlaybackSettings>,
    /// The delay modes set for single tracks.
    pub track_delay_modes: Map<u64, DelayMode>,
    /// The playback settings of tracks that have none of their own.
    pub default_settings: PlaybackSettings,
    /// The delay mode of tracks that have none of their own.
    pub default_delay_mode: DelayMode,
}

impl ChannelSettingsView {
    /// The playback settings that hold for `track`.
    pub open spec fn track_setting(self, track: u64) -> PlaybackSettings {
        if self.track_settings.contains_key(track) {
            self.track_settings[track]
        } else {
            self.default_settings
        }
    }

    /// The delay mode that holds for `track`.
    pub open spec fn track_delay_mode(self, track: u64) -> DelayMode {
        if self.track_delay_modes.contains_key(track) {
            self.track_delay_modes[track]
        } else {
            self.default_delay_mode
        }
    }
}

/// Whether `settings` are those of a channel that nothing was set on yet.
pub open spec fn untouched(settings: ChannelSettingsView) -> bool {
    &&& settings.channel_volume == 1000
    &&& settings.track_settings == Map::<u64, PlaybackSettings>::empty()
    &&& settings.track_delay_modes == Map::<u64, DelayMode>::empty()
    &&& settings.default_settings.mode == PlaybackMode::Once
    &&& settings.default_settings.volume.level() == 1000
    &&& settings.default_settings.speed == 1000
    &&& !settings.default_settings.paused
    &&& !settings.default_settings.spatial
    &&& settings.default_delay_mode == DelayMode::Wait
}

/// Stores all of the settings for a channel.
pub struct ChannelSettings {
    channel_volume: Volume,
    track_settings: SettingsMap,
    track_delay_modes: DelayModeMap,
    default_settings: PlaybackSettings,
    default_delay_mode: DelayMode,
}

impl View for ChannelSettings {
    type V = ChannelSettingsView;

    closed spec fn view(&self) -> ChannelSettingsView {
        ChannelSettingsView {
            channel_volume: self.channel_volume.level(),
            track_settings: settings_entries(self.track_settings),
            track_delay_modes: delay_mode_entries(self.track_delay_modes),
            default_settings: self.default_settings,
            default_delay_mode: self.default_delay_mode,
        }
    }
}

impl ChannelSettings {
    /// The settings of a new channel: full volume, nothing set for any track,
    /// the default playback settings and the default delay mode.
    pub fn new() -> (made: Self)
        ensures
            untouched(made@),
    {
        ChannelSettings {
            channel_volume: Volume::default(),
            track_settings: settings_new(),
            track_delay_modes: delay_modes_new(),
            default_settings: PlaybackSettings::default(),
            default_delay_mode: DelayMode::default(),
        }
    }

    /// Returns the volume of the channel in thousandths.
    pub fn get_channel_volume(&self) -> (volume: u32)
        ensures
            volume == self@.channel_volume,
            volume <= 1000,
    {
        self.channel_volume.get()
    }

    /// Sets the volume of the channel, in thousandths, to the nearest volume
    /// between silence and full.
    pub fn set_channel_volume(&mut self, volume: i32)
        ensures
            final(self)@ == (ChannelSettingsView {
                channel_volume: clamped_volume(volume as int),
                ..old(self)@
            }),
    {
        self.channel_volume = Volume::new(volume);
    }

    /// Returns the playback settings for a specific track, or the default
    /// settings if the track has none for this channel.
    pub fn get_track_setting(&self, id: u64) -> (settings: PlaybackSettings)
        ensures
            settings == self@.track_setting(id),
    {
        match settings_get(&self.track_settings, id) {
            Some(settings) => settings,
            None => self.default_settings,
        }
    }

    /// Sets the playback settings for a specific track.
    pub fn set_track_settings(&mut self, id: u64, settings: PlaybackSettings)
        ensures
            final(self)@ == (ChannelSettingsView {
                track_settings: old(self)@.track_settings.insert(id, settings),
                ..old(self)@
            }),
    {
        settings_insert(&mut self.track_settings, id, settings);
    }

    /// Sets the playback settings for all tracks in this channel: for every
    /// track of `files`, and for every other track that has settings of its
    /// own.
    pub fn set_all_track_settings(&mut self, files: &AudioFiles, settings: PlaybackSettings)
        ensures
            final(self)@ == (ChannelSettingsView {
                track_settings: set_for_all(
                    old(self)@.track_settings,
                    files@.len() as int,
                    settings,
                ),
                ..old(self)@
            }),
    {
        let tracks: Vec<u64> = settings_tracks(&self.track_settings);
        let mut at: usize = 0;
        proof {
            lemma_overwritten_ends(self@.track_settings, tracks@, settings);
        }
        while at < tracks.len()
            invariant
                at <= tracks.len(),
                forall|track: u64|
                    tracks@.contains(track) <==> old(self)@.track_settings.contains_key(track),
                self@ == (ChannelSettingsView {
                    track_settings: overwritten(
                        old(self)@.track_settings,
                        tracks@.take(at as int),
                        settings,
                    ),
                    ..old(self)@
                }),
            decreases tracks.len() - at,
        {
            assert(tracks@.contains(tracks@[at as int]));
            proof {
                lemma_overwritten_step(old(self)@.track_settings, tracks@, at as int, settings);
            }
            settings_insert(&mut self.track_settings, tracks[at], settings);
            at += 1;
        }
        proof {
            lemma_overwritten_ends(old(self)@.track_settings, tracks@, settings);
        }
        let count: u64 = files.len();
        let mut track: u64 = 0;
        while track < count
            invariant
                track <= count,
                count == files@.len(),
                self@ == (ChannelSettingsView {
                    track_settings: set_for_all(old(self)@.track_settings, track as int, settings),
                    ..old(self)@
                }),
            decreases count - track,
        {
            settings_insert(&mut self.track_settings, track, settings);
            assert(set_for_all(old(self)@.track_settings, track as int, settings).insert(
                track,
                settings,
            ) =~= set_for_all(old(self)@.track_settings, track + 1, settings));
            track += 1;
        }
    }

    /// Returns the delay mode for a specific track, or the default delay mode
    /// if the track has none for this channel.
    pub fn get_track_delay_mode(&self, id: u64) -> (mode: DelayMode)
        ensures
            mode == self@.track_delay_mode(id),
    {
        match delay_modes_get(&self.track_delay_modes, id) {
            Some(mode) => mode,
            None => self.default_delay_mode,
        }
    }

    /// Sets the delay mode for a specific track.
    pub fn set_track_delay_mode(&mut self, id: u64, delay_mode: DelayMode)
        ensures
            final(self)@ == (ChannelSettingsView {
                track_delay_modes: old(self)@.track_delay_modes.insert(id, delay_mode),
                ..old(self)@
            }),
    {
        delay_modes_insert(&mut self.track_delay_modes, id, delay_mode);
    }

    /// Sets the delay mode for all tracks in this channel: for every track of
    /// `files`, and for every other track that has a delay mode of its own.
    pub fn set_all_track_delay_modes(&mut self, files: &AudioFiles, delay_mode: DelayMode)
        ensures
            final(self)@ == (ChannelSettingsView {
                track_delay_modes: set_for_all(
                    old(self)@.track_delay_modes,
                    files@.len() as int,
                    delay_mode,
                ),
                ..old(self)@
            }),
    {
        let tracks: Vec<u64> = delay_modes_tracks(&self.track_delay_modes);
        let mut at: usize = 0;
        proof {
            lemma_overwritten_ends(self@.track_delay_modes, tracks@, delay_mode);
        }
        while at < tracks.len()
            invariant
                at <= tracks.len(),
                forall|track: u64|
                    tracks@.contains(track) <==> old(self)@.track_delay_modes.contains_key(track),
                self@ == (ChannelSettingsView {
                    track_delay_modes: overwritten(
                        old(self)@.track_delay_modes,
                        tracks@.take(at as int),
                        delay_mode,
                    ),
                    ..old(self)@
                }),
            decreases tracks.len() - at,
        {
            assert(tracks@.contains(tracks@[at as int]));
            proof {
                lemma_overwritten_step(old(self)@.track_delay_modes, tracks@, at as int, delay_mode);
            }
            delay_modes_insert(&mut self.track_delay_modes, tracks[at], delay_mode);
            at += 1;
        }
        proof {
            lemma_overwritten_ends(old(self)@.track_delay_modes, tracks@, delay_mode);
        }
        let count: u64 = files.len();
        let mut track: u64 = 0;
        while track < count
            invariant
                track <= count,
                count == files@.len(),
                self@ == (ChannelSettingsView {
                    track_delay_modes: set_for_all(old(self)@.track_delay_modes, track as int, delay_mode),
                    ..old(self)@
                }),
            decreases count - track,
        {
            delay_modes_insert(&mut self.track_delay_modes, track, delay_mode);
            assert(set_for_all(old(self)@.track_delay_modes, track as int, delay_mode).insert(
                track,
                delay_mode,
            ) =~= set_for_all(old(self)@.track_delay_modes, track + 1, delay_mode));
            track += 1;
        }
    }

    /// Returns the default playback settings for this channel.
    pub fn get_default_settings(&self) -> (settings: PlaybackSettings)
        ensures
            settings == self@.default_settings,
    {
        self.default_settings
    }

    /// Sets the default playback settings for this channel.
    pub fn set_default_settings(&mut self, settings: PlaybackSettings)
        ensures
            final(self)@ == (ChannelSettingsView { default_settings: settings, ..old(self)@ }),
    {
        self.default_settings = settings;
    }

    /// Returns the default delay mode for this channel.
    pub fn get_default_delay_mode(&self) -> (mode: DelayMode)
        ensures
            mode == self@.default_delay_mode,
    {
        self.default_delay_mode
    }

    /// Sets the default delay mode for this channel.
    pub fn set_default_delay_mode(&mut self, delay_mode: DelayMode)
        ensures
            final(self)@ == (ChannelSettingsView { default_delay_mode: delay_mode, ..old(self)@ }),
    {
        self.default_delay_mode = delay_mode;
    }
}

impl Default for ChannelSettings {
    fn default() -> (made: Self)
        ensures
            untouched(made@),
    {
        ChannelSettings::new()
    }
}

/// The timers of a channel's tracks: one for each track that has played.
pub struct AudioCache {
    timers: TimerMap,
}

impl View for AudioCache {
    type V = Map<u64, DebounceTimer>;

    closed spec fn view(&self) -> Map<u64, DebounceTimer> {
        timer_entries(self.timers)
    }
}

/// The length to go by: the known one, or else the default.
pub open spec fn known_or_default(length: Option<u32>, default_time: u32) -> u32 {
    match length {
        Some(known) => known,
        None => default_time,
    }
}

/// Whether a track may play under `timers`: it has no timer, or its timer has
/// run out.
pub open spec fn may_play(timers: Map<u64, DebounceTimer>, track: u64) -> bool {
    !timers.contains_key(track) || timers[track].finished
}

/// `timers` with each timer ticked by `delta` milliseconds.
pub open spec fn all_ticked(timers: Map<u64, DebounceTimer>, delta: u64) -> Map<
    u64,
    DebounceTimer,
> {
    Map::new(|track: u64| timers.contains_key(track), |track: u64| ticked(timers[track], delta))
}

impl Default for AudioCache {
    fn default() -> (made: Self)
        ensures
            made@ == Map::<u64, DebounceTimer>::empty(),
    {
        AudioCache::new()
    }
}

/// `timers` after the ticks of `deltas`, one after the other.
pub open spec fn ticked_often(timers: Map<u64, DebounceTimer>, deltas: Seq<u64>) -> Map<
    u64,
    DebounceTimer,
>
    decreases deltas.len(),
{
    if deltas.len() == 0 {
        timers
    } else {
        all_ticked(ticked_often(timers, deltas.drop_last()), deltas.last())
    }
}

/// Ticking the timers of a cache ticks each of them, and neither adds a timer
/// nor drops one.
pub proof fn lemma_ticked_often(timers: Map<u64, DebounceTimer>, deltas: Seq<u64>, track: u64)
    ensures
        ticked_often(timers, deltas).contains_key(track) == timers.contains_key(track),
        timers.contains_key(track) ==> ticked_often(timers, deltas)[track] == ticked_through(
            timers[track],
            deltas,
        ),
    decreases deltas.len(),
{
    if deltas.len() > 0 {
        lemma_ticked_often(timers, deltas.drop_last(), track);
    }
}

impl AudioCache {
    /// A cache without timers.
    pub fn new() -> (made: Self)
        ensures
            made@ == (Map::<u64, DebounceTimer>::empty()),
    {
        AudioCache { timers: timers_new() }
    }

    /// Ticks every timer by `delta` milliseconds.
    pub fn tick(&mut self, delta: u64)
        ensures
            final(self)@ == all_ticked(old(self)@, delta),
    {
        let tracks: Vec<u64> = timers_tracks(&self.timers);
        let mut index: usize = 0;
        while index < tracks.len()
            invariant
                index <= tracks.len(),
                tracks@.no_duplicates(),
                forall|track: u64| tracks@.contains(track) <==> old(self)@.contains_key(track),
                self@.dom() == old(self)@.dom(),
                forall|at: int|
                    0 <= at < index ==> self@[#[trigger] tracks@[at]] == ticked(
                        old(self)@[tracks@[at]],
                        delta,
                    ),
                forall|at: int|
                    index <= at < tracks.len() ==> self@[#[trigger] tracks@[at]] == old(
                        self,
                    )@[tracks@[at]],
            decreases tracks.len() - index,
        {
            let track: u64 = tracks[index];
            assert(tracks@.contains(track));
            match timers_get(&self.timers, track) {
                Some(timer) => {
                    let mut timer: DebounceTimer = timer;
                    timer.tick(delta);
                    timers_insert(&mut self.timers, track, timer);
                    assert(self@.dom() =~= old(self)@.dom());
                },
                None => {},
            }
            index += 1;
        }
        assert(final(self)@ =~= all_ticked(old(self)@, delta)) by {
            assert forall|track: u64| old(self)@.contains_key(track) implies #[trigger] self@[track]
                == ticked(old(self)@[track], delta) by {
                assert(tracks@.contains(track));
                let at = choose|at: int| 0 <= at < tracks@.len() && tracks@[at] == track;
                assert(self@[tracks@[at]] == ticked(old(self)@[tracks@[at]], delta));
            }
        }
    }

    /// Whether `id` may play: it has no timer, or its timer has run out.
    pub fn can_play(&self, id: u64) -> (allowed: bool)
        ensures
            allowed == may_play(self@, id),
    {
        match timers_get(&self.timers, id) {
            Some(timer) => timer.finished(),
            None => true,
        }
    }

    /// Starts the timer of `id` again: the timer it has, set back to its start
    /// with the duration it had. Where it has none, it gets a new timer of the
    /// track's length, or of `default_time` milliseconds where no length is
    /// known.
    pub fn reset_entry(&mut self, id: u64, length: Option<u32>, default_time: u32)
        ensures
            final(self)@ == old(self)@.insert(
                id,
                if old(self)@.contains_key(id) {
                    restarted(old(self)@[id])
                } else {
                    fresh_timer(known_or_default(length, default_time) as u64)
                },
            ),
    {
        match timers_get(&self.timers, id) {
            Some(timer) => {
                let mut timer: DebounceTimer = timer;
                timer.reset();
                timers_insert(&mut self.timers, id, timer);
            },
            None => {
                let duration: u32 = match length {
                    Some(known) => known,
                    None => default_time,
                };
                timers_insert(&mut self.timers, id, DebounceTimer::new(duration as u64));
            },
        }
    }

    /// Gives `id` a new timer of `duration` milliseconds in place of the one
    /// it had.
    pub fn set_entry(&mut self, id: u64, duration: u64)
        ensures
            final(self)@ == old(self)@.insert(id, fresh_timer(duration)),
    {
        timers_insert(&mut self.timers, id, DebounceTimer::new(duration));
    }
}

} // verus!
