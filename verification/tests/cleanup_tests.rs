use bevy_audio::audio::{GlobalVolume, PlaybackSettings, SpatialScale};
use bevy_audio::audio_output::{
    cleanup_finished_audio, play_queued_audio_system, AudioEntity, AudioOutput, AudioSourceBundle,
    PlaybackDespawnMarker, PlaybackRemoveMarker, ReapAction, SinkStatus, SourceState,
};

fn playing(id: u64, settings: PlaybackSettings) -> AudioEntity {
    let mut entity = AudioEntity::spawn(id, AudioSourceBundle { source: SourceState::Ready, settings });
    let plans = play_queued_audio_system(
        &AudioOutput { available: true },
        &vec![entity],
        &GlobalVolume::default(),
        &Vec::new(),
        &SpatialScale::default(),
    );
    assert_eq!(plans.len(), 1);
    entity.sink_opened(&plans[0], true);
    entity
}

fn ended(mut entity: AudioEntity) -> AudioEntity {
    if entity.sink.is_some() {
        entity.sink = Some(SinkStatus { empty: true });
    }
    if entity.spatial_sink.is_some() {
        entity.spatial_sink = Some(SinkStatus { empty: true });
    }
    entity
}

#[test]
fn sound_that_still_plays_is_not_reaped() {
    let entities = vec![
        playing(1, PlaybackSettings::despawn()),
        playing(2, PlaybackSettings::remove()),
        playing(3, PlaybackSettings::despawn().with_spatial(true)),
        playing(4, PlaybackSettings::remove().with_spatial(true)),
    ];
    assert!(cleanup_finished_audio(&AudioOutput { available: true }, &entities).is_empty());
}

#[test]
fn ended_sounds_are_reaped_in_four_sweeps() {
    let entities = vec![
        ended(playing(1, PlaybackSettings::remove().with_spatial(true))),
        ended(playing(2, PlaybackSettings::remove())),
        ended(playing(3, PlaybackSettings::despawn().with_spatial(true))),
        ended(playing(4, PlaybackSettings::despawn())),
        ended(playing(5, PlaybackSettings::once())),
        ended(playing(6, PlaybackSettings::looping())),
        ended(playing(7, PlaybackSettings::remove().with_spatial(true))),
        playing(8, PlaybackSettings::despawn()),
        ended(playing(9, PlaybackSettings::despawn())),
    ];
    assert_eq!(
        cleanup_finished_audio(&AudioOutput { available: true }, &entities),
        vec![
            ReapAction::Despawn { entity: 4 },
            ReapAction::Despawn { entity: 9 },
            ReapAction::Despawn { entity: 3 },
            ReapAction::Remove { entity: 2, spatial: false },
            ReapAction::Remove { entity: 1, spatial: true },
            ReapAction::Remove { entity: 7, spatial: true },
        ]
    );
}

#[test]
fn despawned_entity_is_gone() {
    for spatial in [false, true] {
        let entity = ended(playing(1, PlaybackSettings::despawn().with_spatial(spatial)));
        let actions = cleanup_finished_audio(&AudioOutput { available: true }, &vec![entity]);
        assert_eq!(actions, vec![ReapAction::Despawn { entity: 1 }]);
        assert_eq!(entity.apply_reap(&actions[0]), None);
    }
}

#[test]
fn removal_is_done_once() {
    for spatial in [false, true] {
        let entity = ended(playing(1, PlaybackSettings::remove().with_spatial(spatial)));
        let actions = cleanup_finished_audio(&AudioOutput { available: true }, &vec![entity]);
        assert_eq!(actions, vec![ReapAction::Remove { entity: 1, spatial }]);
        let stripped = entity.apply_reap(&actions[0]).unwrap();
        assert_eq!(stripped.id, 1);
        assert_eq!(stripped.source, None);
        assert_eq!(stripped.settings, None);
        assert_eq!(stripped.sink, None);
        assert_eq!(stripped.spatial_sink, None);
        assert_eq!(stripped.remove_marker, None);
        assert_eq!(stripped.despawn_marker, None);
        assert!(cleanup_finished_audio(&AudioOutput { available: true }, &vec![stripped]).is_empty());
        assert!(cleanup_finished_audio(&AudioOutput { available: true }, &vec![ended(stripped)]).is_empty());
    }
}

#[test]
fn stripped_entity_can_be_played_again() {
    let entity = ended(playing(1, PlaybackSettings::remove()));
    let action = cleanup_finished_audio(&AudioOutput { available: true }, &vec![entity])[0];
    let mut again = entity.apply_reap(&action).unwrap();
    again.source = Some(SourceState::Ready);
    again.settings = Some(PlaybackSettings::despawn().with_spatial(true));
    let plans = play_queued_audio_system(
        &AudioOutput { available: true },
        &vec![again],
        &GlobalVolume::default(),
        &Vec::new(),
        &SpatialScale::default(),
    );
    assert_eq!(plans.len(), 1);
    again.sink_opened(&plans[0], true);
    assert!(again.spatial_sink.is_some());
    assert_eq!(again.despawn_marker, Some(PlaybackDespawnMarker));
    assert_eq!(again.remove_marker, None);
}

#[test]
fn looping_sound_is_never_reaped() {
    for spatial in [false, true] {
        let mut entity = playing(1, PlaybackSettings::looping().with_spatial(spatial));
        let settings = entity.settings;
        for frame in 0..1000u32 {
            let empty = frame % 3 != 0;
            if spatial {
                entity.spatial_sink = Some(SinkStatus { empty });
            } else {
                entity.sink = Some(SinkStatus { empty });
            }
            let plans = play_queued_audio_system(
                &AudioOutput { available: true },
                &vec![entity],
                &GlobalVolume::default(),
                &Vec::new(),
                &SpatialScale::default(),
            );
            assert!(plans.is_empty());
            assert!(cleanup_finished_audio(&AudioOutput { available: true }, &vec![entity]).is_empty());
        }
        assert_eq!(entity.settings, settings);
        assert_eq!(entity.despawn_marker, None);
        assert_eq!(entity.remove_marker, None);
    }
}

#[test]
fn sound_played_once_lingers() {
    let entity = ended(playing(1, PlaybackSettings::once()));
    assert!(entity.sink.is_some());
    for _ in 0..10 {
        assert!(cleanup_finished_audio(&AudioOutput { available: true }, &vec![entity]).is_empty());
    }
}

#[test]
fn marker_without_source_handle_is_left_alone() {
    let mut entity = ended(playing(1, PlaybackSettings::despawn()));
    entity.source = None;
    assert!(cleanup_finished_audio(&AudioOutput { available: true }, &vec![entity]).is_empty());
    let mut entity = ended(playing(2, PlaybackSettings::remove().with_spatial(true)));
    entity.source = None;
    assert!(cleanup_finished_audio(&AudioOutput { available: true }, &vec![entity]).is_empty());
}

#[test]
fn marker_without_sink_is_left_alone() {
    let mut entity = AudioEntity::spawn(
        1,
        AudioSourceBundle { source: SourceState::Ready, settings: PlaybackSettings::despawn() },
    );
    entity.despawn_marker = Some(PlaybackDespawnMarker);
    entity.remove_marker = Some(PlaybackRemoveMarker);
    assert!(cleanup_finished_audio(&AudioOutput { available: true }, &vec![entity]).is_empty());
}

#[test]
fn removal_takes_the_sink_it_names() {
    let mut entity = ended(playing(1, PlaybackSettings::remove()));
    entity.spatial_sink = Some(SinkStatus { empty: false });
    let stripped = entity.apply_reap(&ReapAction::Remove { entity: 1, spatial: false }).unwrap();
    assert_eq!(stripped.sink, None);
    assert_eq!(stripped.spatial_sink, Some(SinkStatus { empty: false }));
    let stripped = entity.apply_reap(&ReapAction::Remove { entity: 1, spatial: true }).unwrap();
    assert_eq!(stripped.sink, Some(SinkStatus { empty: true }));
    assert_eq!(stripped.spatial_sink, None);
}

#[test]
fn each_entity_is_acted_upon_once_at_most() {
    let entities: Vec<AudioEntity> = (0..40u64)
        .map(|id| {
            let settings = match id % 4 {
                0 => PlaybackSettings::once(),
                1 => PlaybackSettings::looping(),
                2 => PlaybackSettings::despawn(),
                _ => PlaybackSettings::remove(),
            };
            let entity = playing(id, settings.with_spatial(id % 8 >= 4));
            if id % 3 == 0 {
                entity
            } else {
                ended(entity)
            }
        })
        .collect();
    let actions = cleanup_finished_audio(&AudioOutput { available: true }, &entities);
    for entity in &entities {
        let own = actions
            .iter()
            .filter(|action| match action {
                ReapAction::Despawn { entity: id } => *id == entity.id,
                ReapAction::Remove { entity: id, .. } => *id == entity.id,
            })
            .count();
        let due = entity.id % 3 != 0 && entity.id % 4 >= 2;
        assert_eq!(own, if due { 1 } else { 0 });
        assert_eq!(cleanup_finished_audio(&AudioOutput { available: true }, &vec![*entity]).len(), own);
    }
}

#[test]
fn nothing_to_sweep_gives_no_action() {
    assert!(cleanup_finished_audio(&AudioOutput { available: true }, &Vec::new()).is_empty());
}

#[test]
fn without_a_device_nothing_is_reaped() {
    let entities = vec![
        ended(playing(1, PlaybackSettings::despawn())),
        ended(playing(2, PlaybackSettings::remove().with_spatial(true))),
    ];
    assert!(cleanup_finished_audio(&AudioOutput { available: false }, &entities).is_empty());
    assert_eq!(cleanup_finished_audio(&AudioOutput { available: true }, &entities).len(), 2);
}
