use bevy_audio_controller::channel::{
    ecs_system, play_event_reader, read_play_event, read_settings_event, settings_event_reader,
    AddedTrack, PlayAction,
};
use bevy_audio_controller::delay_mode::DelayMode;
use bevy_audio_controller::events::{PlayEvent, SettingsEvent};
use bevy_audio_controller::playback::{PlaybackMode, PlaybackSettings};
use bevy_audio_controller::resources::{AudioCache, ChannelSettings};
use bevy_audio_controller::tracks::{AudioFile, AudioFiles, UNKNOWN_TRACK};
use bevy_audio_controller::volume::Volume;

const FIRE: u64 = 0;
const MUSIC: u64 = 1;

fn files() -> AudioFiles {
    let mut files = AudioFiles::new();
    files.add(AudioFile {
        path: String::from("fire.ogg"),
        duration: 3000,
    });
    files.add(AudioFile {
        path: String::from("music.ogg"),
        duration: 60_000,
    });
    files
}

fn with_mode(mode: PlaybackMode) -> PlaybackSettings {
    PlaybackSettings {
        mode,
        ..PlaybackSettings::default()
    }
}

fn with_speed(speed: i32) -> PlaybackSettings {
    PlaybackSettings {
        speed,
        ..PlaybackSettings::default()
    }
}

#[test]
fn a_free_track_plays_on_a_new_entity() {
    let files = files();
    let channel = ChannelSettings::new();
    let mut cache = AudioCache::new();
    let action = read_play_event(&channel, &mut cache, &files, &PlayEvent::new(1, FIRE));
    assert_eq!(
        action,
        PlayAction::Spawn {
            track: FIRE,
            settings: PlaybackSettings::default()
        }
    );
    assert!(!cache.can_play(FIRE));
    assert!(cache.can_play(MUSIC));
}

#[test]
fn a_free_track_plays_on_the_entity_named() {
    let files = files();
    let channel = ChannelSettings::new();
    let mut cache = AudioCache::new();
    let event = PlayEvent::new(1, FIRE).with_entity(12);
    assert_eq!(
        read_play_event(&channel, &mut cache, &files, &event),
        PlayAction::Insert {
            entity: 12,
            track: FIRE,
            settings: PlaybackSettings::default()
        }
    );
}

#[test]
fn a_free_track_plays_on_a_child_of_the_entity_named() {
    let files = files();
    let channel = ChannelSettings::new();
    let mut cache = AudioCache::new();
    let event = PlayEvent::new(1, FIRE).with_entity(12).as_child();
    assert_eq!(
        read_play_event(&channel, &mut cache, &files, &event),
        PlayAction::SpawnChild {
            parent: 12,
            track: FIRE,
            settings: PlaybackSettings::default()
        }
    );
}

#[test]
fn the_settings_of_the_request_go_first() {
    let files = files();
    let mut channel = ChannelSettings::new();
    channel.set_track_settings(FIRE, with_mode(PlaybackMode::Loop));
    channel.set_default_settings(with_mode(PlaybackMode::Remove));
    let mut cache = AudioCache::new();
    let own = PlayEvent::new(1, FIRE).with_settings(with_mode(PlaybackMode::Despawn));
    assert_eq!(
        read_play_event(&channel, &mut cache, &files, &own),
        PlayAction::Spawn {
            track: FIRE,
            settings: with_mode(PlaybackMode::Despawn)
        }
    );
    let mut cache = AudioCache::new();
    assert_eq!(
        read_play_event(&channel, &mut cache, &files, &PlayEvent::new(1, FIRE)),
        PlayAction::Spawn {
            track: FIRE,
            settings: with_mode(PlaybackMode::Loop)
        }
    );
    assert_eq!(
        read_play_event(&channel, &mut cache, &files, &PlayEvent::new(1, MUSIC)),
        PlayAction::Spawn {
            track: MUSIC,
            settings: with_mode(PlaybackMode::Remove)
        }
    );
}

#[test]
fn a_second_request_before_the_timer_elapses_is_denied() {
    let files = files();
    let channel = ChannelSettings::new();
    let mut cache = AudioCache::new();
    let event = PlayEvent::new(1, FIRE);
    read_play_event(&channel, &mut cache, &files, &event);
    cache.tick(2999);
    assert_eq!(
        read_play_event(&channel, &mut cache, &files, &event),
        PlayAction::Ignore
    );
    cache.tick(1);
    assert_eq!(
        read_play_event(&channel, &mut cache, &files, &event),
        PlayAction::Spawn {
            track: FIRE,
            settings: PlaybackSettings::default()
        }
    );
}

#[test]
fn a_denied_request_does_not_restart_the_timer() {
    let files = files();
    let channel = ChannelSettings::new();
    let mut cache = AudioCache::new();
    let event = PlayEvent::new(1, FIRE);
    read_play_event(&channel, &mut cache, &files, &event);
    cache.tick(2000);
    read_play_event(&channel, &mut cache, &files, &event);
    cache.tick(1000);
    assert!(cache.can_play(FIRE));
}

#[test]
fn a_request_after_the_timer_elapsed_restarts_it() {
    let files = files();
    let channel = ChannelSettings::new();
    let mut cache = AudioCache::new();
    let event = PlayEvent::new(1, FIRE);
    read_play_event(&channel, &mut cache, &files, &event);
    cache.tick(3000);
    assert!(cache.can_play(FIRE));
    read_play_event(&channel, &mut cache, &files, &event);
    assert!(!cache.can_play(FIRE));
    cache.tick(2999);
    assert!(!cache.can_play(FIRE));
    cache.tick(1);
    assert!(cache.can_play(FIRE));
}

#[test]
fn the_delay_follows_the_delay_mode() {
    let files = files();
    let mut channel = ChannelSettings::new();
    channel.set_track_delay_mode(FIRE, DelayMode::Percent(50));
    channel.set_default_delay_mode(DelayMode::Milliseconds(-1000));
    let mut cache = AudioCache::new();
    read_play_event(&channel, &mut cache, &files, &PlayEvent::new(1, FIRE));
    read_play_event(&channel, &mut cache, &files, &PlayEvent::new(1, MUSIC));
    cache.tick(1499);
    assert!(!cache.can_play(FIRE));
    cache.tick(1);
    assert!(cache.can_play(FIRE));
    cache.tick(57_499);
    assert!(!cache.can_play(MUSIC));
    cache.tick(1);
    assert!(cache.can_play(MUSIC));
}

#[test]
fn the_delay_mode_of_the_request_goes_first() {
    let files = files();
    let mut channel = ChannelSettings::new();
    channel.set_track_delay_mode(FIRE, DelayMode::Percent(50));
    let mut cache = AudioCache::new();
    let event = PlayEvent::new(1, FIRE).with_delay_mode(DelayMode::Milliseconds(200));
    read_play_event(&channel, &mut cache, &files, &event);
    cache.tick(3199);
    assert!(!cache.can_play(FIRE));
    cache.tick(1);
    assert!(cache.can_play(FIRE));
}

#[test]
fn the_delay_does_not_follow_the_speed() {
    let files = files();
    let channel = ChannelSettings::new();
    for speed in [2000, 500, 0, -1000] {
        let mut cache = AudioCache::new();
        let event = PlayEvent::new(1, FIRE).with_settings(with_speed(speed));
        read_play_event(&channel, &mut cache, &files, &event);
        cache.tick(2999);
        assert!(!cache.can_play(FIRE));
        cache.tick(1);
        assert!(cache.can_play(FIRE));
    }
}

#[test]
fn immediate_plays_while_the_timer_runs() {
    let files = files();
    let channel = ChannelSettings::new();
    let mut cache = AudioCache::new();
    read_play_event(&channel, &mut cache, &files, &PlayEvent::new(1, FIRE));
    let now = PlayEvent::new(1, FIRE).with_delay_mode(DelayMode::Immediate);
    for _ in 0..3 {
        assert_eq!(
            read_play_event(&channel, &mut cache, &files, &now),
            PlayAction::Spawn {
                track: FIRE,
                settings: PlaybackSettings::default()
            }
        );
    }
    cache.tick(2999);
    assert!(!cache.can_play(FIRE));
    cache.tick(1);
    assert!(cache.can_play(FIRE));
}

#[test]
fn immediate_sets_a_timer_that_the_next_tick_ends() {
    let files = files();
    let mut channel = ChannelSettings::new();
    channel.set_default_delay_mode(DelayMode::Immediate);
    let mut cache = AudioCache::new();
    read_play_event(&channel, &mut cache, &files, &PlayEvent::new(1, FIRE));
    assert!(!cache.can_play(FIRE));
    let waiting = PlayEvent::new(1, FIRE).with_delay_mode(DelayMode::Wait);
    assert_eq!(
        read_play_event(&channel, &mut cache, &files, &waiting),
        PlayAction::Ignore
    );
    cache.tick(0);
    assert!(cache.can_play(FIRE));
}

#[test]
fn a_forced_request_plays_while_the_timer_runs() {
    let files = files();
    let channel = ChannelSettings::new();
    let mut cache = AudioCache::new();
    read_play_event(&channel, &mut cache, &files, &PlayEvent::new(1, FIRE));
    cache.tick(1000);
    let forced = PlayEvent::new(1, FIRE).with_entity(5).with_force();
    assert_eq!(
        read_play_event(&channel, &mut cache, &files, &forced),
        PlayAction::Insert {
            entity: 5,
            track: FIRE,
            settings: PlaybackSettings::default()
        }
    );
    cache.tick(1999);
    assert!(!cache.can_play(FIRE));
    cache.tick(1);
    assert!(cache.can_play(FIRE));
}

#[test]
fn a_denied_request_despawns_its_entity_in_despawn_mode() {
    let files = files();
    let mut channel = ChannelSettings::new();
    channel.set_default_settings(with_mode(PlaybackMode::Despawn));
    let mut cache = AudioCache::new();
    let event = PlayEvent::new(1, FIRE).with_entity(8);
    read_play_event(&channel, &mut cache, &files, &event);
    assert_eq!(
        read_play_event(&channel, &mut cache, &files, &event),
        PlayAction::Despawn { entity: 8 }
    );
}

#[test]
fn a_denied_request_strips_its_entity_in_remove_mode() {
    let files = files();
    let channel = ChannelSettings::new();
    let mut cache = AudioCache::new();
    let event = PlayEvent::new(1, FIRE)
        .with_entity(8)
        .with_settings(with_mode(PlaybackMode::Remove));
    read_play_event(&channel, &mut cache, &files, &event);
    assert_eq!(
        read_play_event(&channel, &mut cache, &files, &event),
        PlayAction::RemoveComponents { entity: 8 }
    );
    assert_eq!(
        read_play_event(&channel, &mut cache, &files, &event.as_child()),
        PlayAction::RemoveComponents { entity: 8 }
    );
}

#[test]
fn a_denied_request_leaves_its_entity_in_the_other_modes() {
    let files = files();
    let channel = ChannelSettings::new();
    let mut cache = AudioCache::new();
    read_play_event(&channel, &mut cache, &files, &PlayEvent::new(1, FIRE));
    for mode in [PlaybackMode::Once, PlaybackMode::Loop] {
        let event = PlayEvent::new(1, FIRE)
            .with_entity(8)
            .with_settings(with_mode(mode));
        assert_eq!(
            read_play_event(&channel, &mut cache, &files, &event),
            PlayAction::Ignore
        );
    }
}

#[test]
fn a_denied_request_without_entity_does_nothing() {
    let files = files();
    let channel = ChannelSettings::new();
    let mut cache = AudioCache::new();
    let event = PlayEvent::new(1, FIRE).with_settings(with_mode(PlaybackMode::Despawn));
    read_play_event(&channel, &mut cache, &files, &event);
    assert_eq!(
        read_play_event(&channel, &mut cache, &files, &event),
        PlayAction::Ignore
    );
}

#[test]
fn a_denied_child_in_despawn_mode_leaves_its_parent_and_the_run_goes_on() {
    let files = files();
    let channel = ChannelSettings::new();
    let mut cache = AudioCache::new();
    let child = PlayEvent::new(1, FIRE)
        .with_entity(8)
        .as_child()
        .with_settings(with_mode(PlaybackMode::Despawn));
    let events = vec![
        PlayEvent::new(1, FIRE),
        child,
        PlayEvent::new(1, MUSIC).with_entity(3),
    ];
    let actions = play_event_reader(&channel, &mut cache, &files, &events);
    assert_eq!(
        actions,
        vec![
            PlayAction::Spawn {
                track: FIRE,
                settings: PlaybackSettings::default()
            },
            PlayAction::Ignore,
            PlayAction::Insert {
                entity: 3,
                track: MUSIC,
                settings: PlaybackSettings::default()
            },
        ]
    );
    assert!(!cache.can_play(MUSIC));
    cache.tick(59_999);
    assert!(!cache.can_play(MUSIC));
    cache.tick(1);
    assert!(cache.can_play(MUSIC));
}

#[test]
fn a_run_reads_every_request_in_order() {
    let files = files();
    let channel = ChannelSettings::new();
    let mut cache = AudioCache::new();
    let events = vec![
        PlayEvent::new(1, FIRE),
        PlayEvent::new(1, FIRE).with_entity(4),
        PlayEvent::new(1, MUSIC).with_entity(4),
        PlayEvent::new(1, FIRE).with_delay_mode(DelayMode::Immediate),
    ];
    let actions = play_event_reader(&channel, &mut cache, &files, &events);
    assert_eq!(
        actions,
        vec![
            PlayAction::Spawn {
                track: FIRE,
                settings: PlaybackSettings::default()
            },
            PlayAction::Ignore,
            PlayAction::Insert {
                entity: 4,
                track: MUSIC,
                settings: PlaybackSettings::default()
            },
            PlayAction::Spawn {
                track: FIRE,
                settings: PlaybackSettings::default()
            },
        ]
    );
    assert!(!cache.can_play(FIRE));
    assert!(!cache.can_play(MUSIC));
}

#[test]
fn an_empty_run_does_nothing() {
    let files = files();
    let channel = ChannelSettings::new();
    let mut cache = AudioCache::new();
    let actions = play_event_reader(&channel, &mut cache, &files, &Vec::new());
    assert!(actions.is_empty());
    assert!(cache.can_play(FIRE));
}

#[test]
fn an_unknown_track_is_not_played_but_gets_a_timer() {
    let files = files();
    let channel = ChannelSettings::new();
    let mut cache = AudioCache::new();
    let event = PlayEvent::new(1, UNKNOWN_TRACK).with_entity(2);
    assert_eq!(
        read_play_event(&channel, &mut cache, &files, &event),
        PlayAction::Ignore
    );
    assert!(!cache.can_play(UNKNOWN_TRACK));
    cache.tick(0);
    assert!(cache.can_play(UNKNOWN_TRACK));
}

#[test]
fn a_settings_request_without_track_sets_the_defaults() {
    let files = files();
    let mut channel = ChannelSettings::new();
    channel.set_track_delay_mode(FIRE, DelayMode::Percent(10));
    let event = SettingsEvent::new(1)
        .with_settings(with_mode(PlaybackMode::Despawn))
        .with_delay_mode(DelayMode::Immediate)
        .with_volume(400);
    read_settings_event(&mut channel, &files, &event);
    assert_eq!(channel.get_channel_volume(), 400);
    assert_eq!(channel.get_default_settings(), with_mode(PlaybackMode::Despawn));
    assert_eq!(channel.get_default_delay_mode(), DelayMode::Immediate);
    assert_eq!(channel.get_track_delay_mode(FIRE), DelayMode::Percent(10));
    assert_eq!(channel.get_track_setting(FIRE), with_mode(PlaybackMode::Despawn));
}

#[test]
fn a_settings_request_with_track_sets_that_track() {
    let files = files();
    let mut channel = ChannelSettings::new();
    let event = SettingsEvent::new(1)
        .with_settings(with_mode(PlaybackMode::Loop))
        .with_delay_mode(DelayMode::Milliseconds(5))
        .with_track(MUSIC);
    read_settings_event(&mut channel, &files, &event);
    assert_eq!(channel.get_track_setting(MUSIC), with_mode(PlaybackMode::Loop));
    assert_eq!(channel.get_track_delay_mode(MUSIC), DelayMode::Milliseconds(5));
    assert_eq!(channel.get_track_setting(FIRE), PlaybackSettings::default());
    assert_eq!(channel.get_track_delay_mode(FIRE), DelayMode::Wait);
    assert_eq!(channel.get_default_settings(), PlaybackSettings::default());
    assert_eq!(channel.get_channel_volume(), 1000);
}

#[test]
fn a_settings_request_for_all_sets_every_track() {
    let files = files();
    let mut channel = ChannelSettings::new();
    channel.set_track_settings(FIRE, with_mode(PlaybackMode::Loop));
    channel.set_track_delay_mode(MUSIC, DelayMode::Immediate);
    let event = SettingsEvent::new(1)
        .with_settings(with_mode(PlaybackMode::Remove))
        .with_delay_mode(DelayMode::Percent(75))
        .all();
    read_settings_event(&mut channel, &files, &event);
    for track in [FIRE, MUSIC] {
        assert_eq!(channel.get_track_setting(track), with_mode(PlaybackMode::Remove));
        assert_eq!(channel.get_track_delay_mode(track), DelayMode::Percent(75));
    }
    assert_eq!(channel.get_default_settings(), PlaybackSettings::default());
    assert_eq!(channel.get_default_delay_mode(), DelayMode::Wait);
}

#[test]
fn a_settings_request_with_only_a_volume_sets_only_the_volume() {
    let files = files();
    let mut channel = ChannelSettings::new();
    channel.set_default_delay_mode(DelayMode::Percent(3));
    read_settings_event(&mut channel, &files, &SettingsEvent::new(1).with_volume(1200));
    assert_eq!(channel.get_channel_volume(), 1000);
    read_settings_event(&mut channel, &files, &SettingsEvent::new(1).with_volume(-1));
    assert_eq!(channel.get_channel_volume(), 0);
    assert_eq!(channel.get_default_delay_mode(), DelayMode::Percent(3));
    assert_eq!(channel.get_default_settings(), PlaybackSettings::default());
}

#[test]
fn a_settings_request_that_names_a_track_and_all_sets_the_track() {
    let files = files();
    let mut channel = ChannelSettings::new();
    let event = SettingsEvent {
        channel: 1,
        settings: Some(with_mode(PlaybackMode::Loop)),
        volume: None,
        track: Some(FIRE),
        delay_mode: None,
        all: true,
    };
    read_settings_event(&mut channel, &files, &event);
    assert_eq!(channel.get_track_setting(FIRE), with_mode(PlaybackMode::Loop));
    assert_eq!(channel.get_track_setting(MUSIC), PlaybackSettings::default());
}

#[test]
fn settings_requests_are_read_in_order() {
    let files = files();
    let mut channel = ChannelSettings::new();
    let events = vec![
        SettingsEvent::new(1).with_volume(100),
        SettingsEvent::new(1)
            .with_delay_mode(DelayMode::Percent(1))
            .with_track(FIRE),
        SettingsEvent::new(1)
            .with_delay_mode(DelayMode::Percent(2))
            .all(),
        SettingsEvent::new(1)
            .with_delay_mode(DelayMode::Percent(3))
            .with_track(MUSIC),
        SettingsEvent::new(1).with_volume(200),
    ];
    settings_event_reader(&mut channel, &files, &events);
    assert_eq!(channel.get_channel_volume(), 200);
    assert_eq!(channel.get_track_delay_mode(FIRE), DelayMode::Percent(2));
    assert_eq!(channel.get_track_delay_mode(MUSIC), DelayMode::Percent(3));
    assert_eq!(channel.get_default_delay_mode(), DelayMode::Wait);
}

#[test]
fn entities_that_join_a_channel_ask_to_play() {
    let quiet = PlaybackSettings {
        volume: Volume::new(100),
        ..PlaybackSettings::default()
    };
    let added = vec![
        AddedTrack {
            entity: 10,
            track: FIRE,
            settings: None,
            delay_mode: DelayMode::Wait,
        },
        AddedTrack {
            entity: 11,
            track: MUSIC,
            settings: Some(quiet),
            delay_mode: DelayMode::Percent(20),
        },
    ];
    let events = ecs_system(6, &added);
    assert_eq!(
        events,
        vec![
            PlayEvent::new(6, FIRE)
                .with_entity(10)
                .with_delay_mode(DelayMode::Wait),
            PlayEvent::new(6, MUSIC)
                .with_entity(11)
                .with_delay_mode(DelayMode::Percent(20))
                .with_settings(quiet),
        ]
    );
    assert!(ecs_system(6, &Vec::new()).is_empty());
}
