//! What a channel does with the requests it reads: which tracks play, which
//! are held back, and what a settings request changes.

use vstd::prelude::*;

use crate::delay_mode::{effective_delay, DelayMode};
use crate::events::{PlayEvent, SettingsEvent};
use crate::playback::{PlaybackMode, PlaybackSettings};
use crate::resources::{
    lemma_ticked_often, may_play, set_for_all, ticked_often, AudioCache, ChannelSettings,
    ChannelSettingsView,
};
use crate::timer::{fresh_timer, lemma_ticks_add_up, total, DebounceTimer};
use crate::tracks::AudioFiles;
use crate::volume::{clamped_volume, effective_volume};

verus! {

/// What the engine is to do about one request to play a track.
#[derive(Clone, Copy, Debug, PartialEq, Eq, Structural)]
pub enum PlayAction {
    /// Spawn an entity that plays the track.
    Spawn { track: u64, settings: PlaybackSettings },
    /// Spawn an entity that plays the track and make it a child of `parent`.
    SpawnChild { parent: u64, track: u64, settings: PlaybackSettings },
    /// Let `entity` play the track.
    Insert { entity: u64, track: u64, settings: PlaybackSettings },
    /// The request was denied: despawn `entity` and all below it.
    Despawn { entity: u64 },
    /// The request was denied: take the channel, the playback settings and
    /// the track off `entity`.
    RemoveComponents { entity: u64 },
    /// Nothing is to be done.
    Ignore,
}

/// The playback settings that hold for a request: its own, or else the
/// channel's for the track.
pub open spec fn event_settings(channel: ChannelSettingsView, event: PlayEvent) -> PlaybackSettings {
    match event.settings {
        Some(settings) => settings,
        None => channel.track_setting(event.id),
    }
}

/// The delay mode that holds for a request: its own, or else the channel's for
/// the track.
pub open spec fn event_delay_mode(channel: ChannelSettingsView, event: PlayEvent) -> DelayMode {
    match event.delay_mode {
        Some(mode) => mode,
        None => channel.track_delay_mode(event.id),
    }
}

/// Whether a request plays: always when it is forced or its delay mode is
/// `Immediate`, and else when no timer holds the track back.
pub open spec fn play_allowed(mode: DelayMode, force: bool, timer_free: bool) -> bool {
    force || mode == DelayMode::Immediate || timer_free
}

/// For how many milliseconds a request holds its track back once it plays:
/// the delay that its mode asks for, of the track's length.
pub open spec fn next_delay(
    channel: ChannelSettingsView,
    files: AudioFiles,
    event: PlayEvent,
) -> u64 {
    effective_delay(event_delay_mode(channel, event), files.duration_of(event.id)) as u64
}

/// The timers after a request: the track gets a new timer where none held it
/// back, and a timer that still runs goes on running.
pub open spec fn timers_after_play(
    channel: ChannelSettingsView,
    timers: Map<u64, DebounceTimer>,
    files: AudioFiles,
    event: PlayEvent,
) -> Map<u64, DebounceTimer> {
    if may_play(timers, event.id) {
        timers.insert(event.id, fresh_timer(next_delay(channel, files, event)))
    } else {
        timers
    }
}

/// What is done about a request that plays: nothing for an unknown track, and
/// else the track goes to the entity that the request names, to a new child of
/// it, or to a new entity.
pub open spec fn played(files: AudioFiles, event: PlayEvent, settings: PlaybackSettings) -> PlayAction {
    if !files.knows(event.id) {
        PlayAction::Ignore
    } else {
        match event.entity {
            Some(entity) => if event.child {
                PlayAction::SpawnChild { parent: entity, track: event.id, settings }
            } else {
                PlayAction::Insert { entity, track: event.id, settings }
            },
            None => PlayAction::Spawn { track: event.id, settings },
        }
    }
}

/// What is done about a request that is denied: its entity, if it names one,
/// is dealt with as the playback mode says for a track that has ended. Where
/// the track was to play on a child of that entity, the entity is never
/// despawned.
pub open spec fn denied(event: PlayEvent, settings: PlaybackSettings) -> PlayAction {
    match event.entity {
        Some(entity) => match settings.mode {
            PlaybackMode::Despawn => if event.child {
                PlayAction::Ignore
            } else {
                PlayAction::Despawn { entity }
            },
            PlaybackMode::Remove => PlayAction::RemoveComponents { entity },
            _ => PlayAction::Ignore,
        },
        None => PlayAction::Ignore,
    }
}

/// What is done about a request, given the channel's settings and timers.
pub open spec fn play_action(
    channel: ChannelSettingsView,
    timers: Map<u64, DebounceTimer>,
    files: AudioFiles,
    event: PlayEvent,
) -> PlayAction {
    if play_allowed(event_delay_mode(channel, event), event.force, may_play(timers, event.id)) {
        played(files, event, event_settings(channel, event))
    } else {
        denied(event, event_settings(channel, event))
    }
}

/// A request whose delay mode is `Immediate` plays whatever the timers say,
/// and holds its track back for no time at all. A forced request plays
/// whatever the timers say, too.
pub proof fn lemma_immediate_always_plays(
    channel: ChannelSettingsView,
    timers: Map<u64, DebounceTimer>,
    files: AudioFiles,
    event: PlayEvent,
)
    requires
        event_delay_mode(channel, event) == DelayMode::Immediate || event.force,
    ensures
        play_action(channel, timers, files, event) == played(
            files,
            event,
            event_settings(channel, event),
        ),
        event_delay_mode(channel, event) == DelayMode::Immediate ==> next_delay(
            channel,
            files,
            event,
        ) == 0,
{
}

/// The debounce. Let a request for a track that is free to play be followed,
/// after the ticks of `deltas`, by a second request for the same track that
/// is neither forced nor `Immediate`. If there was no tick in between, or the
/// ticks add up to less than the delay that the first request set, the second
/// is denied and the timer runs on. Otherwise the second plays, and the
/// track's timer starts again with the delay of the second.
pub proof fn lemma_debounce(
    channel: ChannelSettingsView,
    timers: Map<u64, DebounceTimer>,
    files: AudioFiles,
    first: PlayEvent,
    second: PlayEvent,
    deltas: Seq<u64>,
)
    requires
        may_play(timers, first.id),
        second.id == first.id,
        !second.force,
        event_delay_mode(channel, second) != DelayMode::Immediate,
    ensures
        ({
            let started = timers_after_play(channel, timers, files, first);
            let later = ticked_often(started, deltas);
            let ended = timers_after_play(channel, later, files, second);
            &&& started[first.id] == fresh_timer(next_delay(channel, files, first))
            &&& deltas.len() == 0 || total(deltas) < next_delay(channel, files, first) ==> {
                &&& play_action(channel, later, files, second) == denied(
                    second,
                    event_settings(channel, second),
                )
                &&& ended == later
                &&& !ended[first.id].finished
            }
            &&& deltas.len() > 0 && total(deltas) >= next_delay(channel, files, first) ==> {
                &&& play_action(channel, later, files, second) == played(
                    files,
                    second,
                    event_settings(channel, second),
                )
                &&& ended == later.insert(
                    first.id,
                    fresh_timer(next_delay(channel, files, second)),
                )
            }
        }),
{
    let started = timers_after_play(channel, timers, files, first);
    assert(started.contains_key(first.id));
    lemma_ticked_often(started, deltas, first.id);
    lemma_ticks_add_up(started[first.id], deltas);
}

/// Decides one request to play a track, and starts the track's timer where the
/// track was free to play.
pub fn read_play_event(
    channel: &ChannelSettings,
    cache: &mut AudioCache,
    files: &AudioFiles,
    event: &PlayEvent,
) -> (action: PlayAction)
    ensures
        action == play_action(channel@, old(cache)@, *files, *event),
        final(cache)@ == timers_after_play(channel@, old(cache)@, *files, *event),
{
    let settings: PlaybackSettings = match event.settings {
        Some(settings) => settings,
        None => channel.get_track_setting(event.id),
    };
    let delay_mode: DelayMode = match event.delay_mode {
        Some(mode) => mode,
        None => channel.get_track_delay_mode(event.id),
    };
    let can_play: bool = cache.can_play(event.id);
    if event.force || delay_mode == DelayMode::Immediate || can_play {
        if can_play {
            cache.set_entry(event.id, delay_mode.get_delay(files.duration(event.id)));
        }
        if !files.contains(event.id) {
            PlayAction::Ignore
        } else {
            match event.entity {
                Some(entity) => if event.child {
                    PlayAction::SpawnChild { parent: entity, track: event.id, settings }
                } else {
                    PlayAction::Insert { entity, track: event.id, settings }
                },
                None => PlayAction::Spawn { track: event.id, settings },
            }
        }
    } else {
        match event.entity {
            Some(entity) => match settings.mode {
                PlaybackMode::Despawn => if event.child {
                    PlayAction::Ignore
                } else {
                    PlayAction::Despawn { entity }
                },
                PlaybackMode::Remove => PlayAction::RemoveComponents { entity },
                _ => PlayAction::Ignore,
            },
            None => PlayAction::Ignore,
        }
    }
}

/// What is done about the requests of one run, from the one at `from` on, and
/// the timers after them. Each request is decided by the timers that the
/// requests before it have left.
pub open spec fn play_run(
    channel: ChannelSettingsView,
    timers: Map<u64, DebounceTimer>,
    files: AudioFiles,
    events: Seq<PlayEvent>,
    from: int,
) -> (Seq<PlayAction>, Map<u64, DebounceTimer>)
    decreases events.len() - from,
{
    if from < 0 || from >= events.len() {
        (Seq::empty(), timers)
    } else {
        let action = play_action(channel, timers, files, events[from]);
        let after = timers_after_play(channel, timers, files, events[from]);
        let rest = play_run(channel, after, files, events, from + 1);
        (seq![action] + rest.0, rest.1)
    }
}

/// A run says what is to be done about every one of its requests.
pub proof fn lemma_play_run_len(
    channel: ChannelSettingsView,
    timers: Map<u64, DebounceTimer>,
    files: AudioFiles,
    events: Seq<PlayEvent>,
    from: int,
)
    requires
        0 <= from <= events.len(),
    ensures
        play_run(channel, timers, files, events, from).0.len() == events.len() - from,
    decreases events.len() - from,
{
    if from < events.len() {
        lemma_play_run_len(
            channel,
            timers_after_play(channel, timers, files, events[from]),
            files,
            events,
            from + 1,
        );
    }
}

/// Reads the requests of one run in order and says what is to be done about
/// each of them.
pub fn play_event_reader(
    channel: &ChannelSettings,
    cache: &mut AudioCache,
    files: &AudioFiles,
    events: &Vec<PlayEvent>,
) -> (actions: Vec<PlayAction>)
    ensures
        actions@ == play_run(channel@, old(cache)@, *files, events@, 0).0,
        final(cache)@ == play_run(channel@, old(cache)@, *files, events@, 0).1,
        actions@.len() == events@.len(),
{
    let mut actions: Vec<PlayAction> = Vec::new();
    let mut index: usize = 0;
    while index < events.len()
        invariant
            index <= events.len(),
            play_run(channel@, old(cache)@, *files, events@, 0).0 == actions@ + play_run(
                channel@,
                cache@,
                *files,
                events@,
                index as int,
            ).0,
            play_run(channel@, old(cache)@, *files, events@, 0).1 == play_run(
                channel@,
                cache@,
                *files,
                events@,
                index as int,
            ).1,
        decreases events.len() - index,
    {
        let ghost before = cache@;
        let ghost done = actions@;
        let action: PlayAction = read_play_event(channel, cache, files, &events[index]);
        actions.push(action);
        proof {
            let rest = play_run(channel@, before, *files, events@, index as int);
            let tail = play_run(channel@, cache@, *files, events@, index + 1);
            assert(done + rest.0 =~= actions@ + tail.0);
        }
        index += 1;
    }
    proof {
        assert(actions@ + Seq::<PlayAction>::empty() =~= actions@);
        lemma_play_run_len(channel@, old(cache)@, *files, events@, 0);
    }
    actions
}

/// The settings of a channel after a settings request. The volume changes
/// where the request gives one. Its playback settings and its delay mode go to
/// the one track that it names; or, where it names none and is about all
/// tracks, to each of the first `count` tracks and to every track that had
/// some of its own; or else to the channel's defaults.
pub open spec fn settings_after(
    channel: ChannelSettingsView,
    count: int,
    event: SettingsEvent,
) -> ChannelSettingsView {
    let channel_volume = match event.volume {
        Some(volume) => clamped_volume(volume as int),
        None => channel.channel_volume,
    };
    match event.track {
        Some(id) => ChannelSettingsView {
            channel_volume,
            track_settings: match event.settings {
                Some(settings) => channel.track_settings.insert(id, settings),
                None => channel.track_settings,
            },
            track_delay_modes: match event.delay_mode {
                Some(mode) => channel.track_delay_modes.insert(id, mode),
                None => channel.track_delay_modes,
            },
            ..channel
        },
        None => if event.all {
            ChannelSettingsView {
                channel_volume,
                track_settings: match event.settings {
                    Some(settings) => set_for_all(channel.track_settings, count, settings),
                    None => channel.track_settings,
                },
                track_delay_modes: match event.delay_mode {
                    Some(mode) => set_for_all(channel.track_delay_modes, count, mode),
                    None => channel.track_delay_modes,
                },
                ..channel
            }
        } else {
            ChannelSettingsView {
                channel_volume,
                default_settings: match event.settings {
                    Some(settings) => settings,
                    None => channel.default_settings,
                },
                default_delay_mode: match event.delay_mode {
                    Some(mode) => mode,
                    None => channel.default_delay_mode,
                },
                ..channel
            }
        },
    }
}

/// Carries out one settings request on a channel.
pub fn read_settings_event(channel: &mut ChannelSettings, files: &AudioFiles, event: &SettingsEvent)
    ensures
        final(channel)@ == settings_after(old(channel)@, files@.len() as int, *event),
{
    if let Some(volume) = event.volume {
        channel.set_channel_volume(volume);
    }
    if let Some(id) = event.track {
        if let Some(delay_mode) = event.delay_mode {
            channel.set_track_delay_mode(id, delay_mode);
        }
        if let Some(settings) = event.settings {
            channel.set_track_settings(id, settings);
        }
    } else if event.all {
        if let Some(delay_mode) = event.delay_mode {
            channel.set_all_track_delay_modes(files, delay_mode);
        }
        if let Some(settings) = event.settings {
            channel.set_all_track_settings(files, settings);
        }
    } else {
        if let Some(delay_mode) = event.delay_mode {
            channel.set_default_delay_mode(delay_mode);
        }
        if let Some(settings) = event.settings {
            channel.set_default_settings(settings);
        }
    }
}

/// The settings of a channel after the settings requests from `from` on, read
/// in order.
pub open spec fn settings_run(
    channel: ChannelSettingsView,
    count: int,
    events: Seq<SettingsEvent>,
    from: int,
) -> ChannelSettingsView
    decreases events.len() - from,
{
    if from < 0 || from >= events.len() {
        channel
    } else {
        settings_run(settings_after(channel, count, events[from]), count, events, from + 1)
    }
}

/// Carries out the settings requests of one run in order.
pub fn settings_event_reader(
    channel: &mut ChannelSettings,
    files: &AudioFiles,
    events: &Vec<SettingsEvent>,
)
    ensures
        final(channel)@ == settings_run(old(channel)@, files@.len() as int, events@, 0),
{
    let mut index: usize = 0;
    while index < events.len()
        invariant
            index <= events.len(),
            settings_run(old(channel)@, files@.len() as int, events@, 0) == settings_run(
                channel@,
                files@.len() as int,
                events@,
                index as int,
            ),
        decreases events.len() - index,
    {
        read_settings_event(channel, files, &events[index]);
        index += 1;
    }
}

/// An entity that has just joined a channel and has no sink yet.
#[derive(Clone, Copy, Debug, PartialEq, Eq, Structural)]
pub struct AddedTrack {
    /// The entity.
    pub entity: u64,
    /// The track that it holds.
    pub track: u64,
    /// The playback settings that it holds, if any.
    pub settings: Option<PlaybackSettings>,
    /// The delay mode that it holds.
    pub delay_mode: DelayMode,
}

/// The request that lets `added` play its track on `channel`: on the entity
/// itself, with its delay mode and, where it has some, its playback settings.
pub open spec fn request_for(channel: u64, added: AddedTrack) -> PlayEvent {
    PlayEvent {
        channel,
        id: added.track,
        entity: Some(added.entity),
        child: false,
        settings: added.settings,
        delay_mode: Some(added.delay_mode),
        force: false,
    }
}

/// Turns the entities that have just joined `channel` into requests to play
/// their tracks, one each and in the same order.
pub fn ecs_system(channel: u64, added: &Vec<AddedTrack>) -> (events: Vec<PlayEvent>)
    ensures
        events@.len() == added@.len(),
        forall|at: int| 0 <= at < added@.len() ==> events@[at] == request_for(channel, added@[at]),
{
    let mut events: Vec<PlayEvent> = Vec::new();
    let mut index: usize = 0;
    while index < added.len()
        invariant
            index <= added.len(),
            events@.len() == index,
            forall|at: int| 0 <= at < index ==> events@[at] == request_for(channel, added@[at]),
        decreases added.len() - index,
    {
        let row: AddedTrack = added[index];
        let event: PlayEvent = PlayEvent::new(channel, row.track).with_entity(
            row.entity,
        ).with_delay_mode(row.delay_mode);
        match row.settings {
            Some(settings) => events.push(event.with_settings(settings)),
            None => events.push(event),
        }
        index += 1;
    }
    events
}

/// The volume of a channel under the global channel, in millionths: the
/// product of the two channel volumes.
pub fn get_normalized_volume(channel: &ChannelSettings, global: &ChannelSettings) -> (volume: u32)
    ensures
        volume == channel@.channel_volume * global@.channel_volume,
        volume <= 1_000_000,
{
    let c: u32 = channel.get_channel_volume();
    let g: u32 = global.get_channel_volume();
    assert(c * g <= 1_000_000) by (nonlinear_arith)
        requires
            c <= 1000,
            g <= 1000,
    ;
    c * g
}

/// The volume at which the sink of `track` plays on a channel, in billionths:
/// the channel's volume, the global channel's and that of the track's
/// playback settings on the channel, multiplied.
pub fn update_track_volume(channel: &ChannelSettings, global: &ChannelSettings, track: u64) -> (volume: u32)
    ensures
        volume == effective_volume(
            channel@.channel_volume,
            global@.channel_volume,
            channel@.track_setting(track).volume.level(),
        ),
        volume <= 1_000_000_000,
{
    let both: u32 = get_normalized_volume(channel, global);
    let own: u32 = channel.get_track_setting(track).volume.get();
    assert(both * own <= 1_000_000_000) by (nonlinear_arith)
        requires
            both <= 1_000_000,
            own <= 1000,
    ;
    both * own
}

} // verus!
