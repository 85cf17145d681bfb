//! The hash maps that hold what is known per track.
//!
//! The maps are `hashbrown`'s. Verus does not look inside them: what a map
//! holds has a name here, and each call into `hashbrown` has a contract over
//! that name which is taken on trust. Everything else in the library is proved
//! from these contracts.

use hashbrown::HashMap;
use vstd::prelude::*;

use crate::delay_mode::DelayMode;
use crate::playback::PlaybackSettings;
use crate::timer::DebounceTimer;

verus! {

/// A map from tracks to delay modes, kept in a `hashbrown::HashMap` that
/// Verus does not look into.
#[verifier::external_body]
pub struct DelayModeMap {
    inner: HashMap<u64, DelayMode>,
}

/// The delay modes that a `DelayModeMap` holds, by track.
pub uninterp spec fn delay_mode_entries(table: DelayModeMap) -> Map<u64, DelayMode>;

/// `HashMap::new`: the map it returns holds nothing.
#[verifier::external_body]
pub(crate) fn delay_modes_new() -> (table: DelayModeMap)
    ensures
        delay_mode_entries(table) == (Map::<u64, DelayMode>::empty()),
{
    DelayModeMap { inner: HashMap::new() }
}

/// `HashMap::get`: the value stored under `track`, if there is one.
#[verifier::external_body]
pub(crate) fn delay_modes_get(table: &DelayModeMap, track: u64) -> (found: Option<DelayMode>)
    ensures
        found == (if delay_mode_entries(*table).contains_key(track) {
            Some(delay_mode_entries(*table)[track])
        } else {
            None
        }),
{
    table.inner.get(&track).copied()
}

/// `HashMap::insert`: afterwards `track` maps to `mode`, whatever it mapped to
/// before, and every other track is as it was.
#[verifier::external_body]
pub(crate) fn delay_modes_insert(table: &mut DelayModeMap, track: u64, mode: DelayMode)
    ensures
        delay_mode_entries(*final(table)) == delay_mode_entries(*old(table)).insert(track, mode),
{
    table.inner.insert(track, mode);
}

/// `HashMap::keys`: every track that has a delay mode, each once, in the
/// order in which the map happens to hand them out.
#[verifier::external_body]
pub(crate) fn delay_modes_tracks(table: &DelayModeMap) -> (tracks: Vec<u64>)
    ensures
        tracks@.no_duplicates(),
        forall|track: u64|
            tracks@.contains(track) <==> delay_mode_entries(*table).contains_key(track),
{
    table.inner.keys().copied().collect()
}

/// A map from tracks to playback settings, kept in a `hashbrown::HashMap`
/// that Verus does not look into.
#[verifier::external_body]
pub struct SettingsMap {
    inner: HashMap<u64, PlaybackSettings>,
}

/// The playback settings that a `SettingsMap` holds, by track.
pub uninterp spec fn settings_entries(table: SettingsMap) -> Map<u64, PlaybackSettings>;

/// `HashMap::new`: the map it returns holds nothing.
#[verifier::external_body]
pub(crate) fn settings_new() -> (table: SettingsMap)
    ensures
        settings_entries(table) == (Map::<u64, PlaybackSettings>::empty()),
{
    SettingsMap { inner: HashMap::new() }
}

/// `HashMap::get`: the value stored under `track`, if there is one.
#[verifier::external_body]
pub(crate) fn settings_get(table: &SettingsMap, track: u64) -> (found: Option<PlaybackSettings>)
    ensures
        found == (if settings_entries(*table).contains_key(track) {
            Some(settings_entries(*table)[track])
        } else {
            None
        }),
{
    table.inner.get(&track).copied()
}

/// `HashMap::insert`: afterwards `track` maps to `settings`, whatever it
/// mapped to before, and every other track is as it was.
#[verifier::external_body]
pub(crate) fn settings_insert(table: &mut SettingsMap, track: u64, settings: PlaybackSettings)
    ensures
        settings_entries(*final(table)) == settings_entries(*old(table)).insert(track, settings),
{
    table.inner.insert(track, settings);
}

/// `HashMap::keys`: every track that has playback settings, each once, in the
/// order in which the map happens to hand them out.
#[verifier::external_body]
pub(crate) fn settings_tracks(table: &SettingsMap) -> (tracks: Vec<u64>)
    ensures
        tracks@.no_duplicates(),
        forall|track: u64|
            tracks@.contains(track) <==> settings_entries(*table).contains_key(track),
{
    table.inner.keys().copied().collect()
}

/// A map from tracks to their timers, kept in a `hashbrown::HashMap` that
/// Verus does not look into.
#[verifier::external_body]
pub struct TimerMap {
    inner: HashMap<u64, DebounceTimer>,
}

/// The timers that a `TimerMap` holds, by track.
pub uninterp spec fn timer_entries(table: TimerMap) -> Map<u64, DebounceTimer>;

/// `HashMap::new`: the map it returns holds nothing.
#[verifier::external_body]
pub(crate) fn timers_new() -> (table: TimerMap)
    ensures
        timer_entries(table) == (Map::<u64, DebounceTimer>::empty()),
{
    TimerMap { inner: HashMap::new() }
}

/// `HashMap::get`: the value stored under `track`, if there is one.
#[verifier::external_body]
pub(crate) fn timers_get(table: &TimerMap, track: u64) -> (found: Option<DebounceTimer>)
    ensures
        found == (if timer_entries(*table).contains_key(track) {
            Some(timer_entries(*table)[track])
        } else {
            None
        }),
{
    table.inner.get(&track).copied()
}

/// `HashMap::insert`: afterwards `track` maps to `timer`, whatever it mapped
/// to before, and every other track is as it was.
#[verifier::external_body]
pub(crate) fn timers_insert(table: &mut TimerMap, track: u64, timer: DebounceTimer)
    ensures
        timer_entries(*final(table)) == timer_entries(*old(table)).insert(track, timer),
{
    table.inner.insert(track, timer);
}

/// `HashMap::keys`: every track that has a timer, each once, in the order in
/// which the map happens to hand them out.
#[verifier::external_body]
pub(crate) fn timers_tracks(table: &TimerMap) -> (tracks: Vec<u64>)
    ensures
        tracks@.no_duplicates(),
        forall|track: u64|
            tracks@.contains(track) <==> timer_entries(*table).contains_key(track),
{
    table.inner.keys().copied().collect()
}

} // verus!
