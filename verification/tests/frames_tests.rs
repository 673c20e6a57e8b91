use bevy_audio::audio::{GlobalVolume, PlaybackMode, PlaybackSettings, SpatialScale};
use bevy_audio::audio_output::{
    cleanup_finished_audio, play_queued_audio_system, update_emitter_positions, update_listener_positions,
    AudioEntity, AudioOutput, AudioSourceBundle, ReapAction, SinkStatus, SourceState,
};

struct Dice(u64);

impl Dice {
    fn roll(&mut self, sides: u64) -> u64 {
        self.0 = self.0.wrapping_mul(6364136223846793005).wrapping_add(1442695040888963407);
        (self.0 >> 33) % sides
    }

    fn flip(&mut self) -> bool {
        self.roll(2) == 1
    }
}

fn settings_of(kind: u64) -> PlaybackSettings {
    let base = match kind % 4 {
        0 => PlaybackSettings::once(),
        1 => PlaybackSettings::looping(),
        2 => PlaybackSettings::despawn(),
        _ => PlaybackSettings::remove(),
    };
    base.with_spatial(kind % 8 >= 4)
}

fn target(action: &ReapAction) -> u64 {
    match action {
        ReapAction::Despawn { entity } => *entity,
        ReapAction::Remove { entity, .. } => *entity,
    }
}

fn keeps_invariant(entity: &AudioEntity) -> bool {
    let one_sink = !(entity.sink.is_some() && entity.spatial_sink.is_some());
    let one_marker = !(entity.despawn_marker.is_some() && entity.remove_marker.is_some());
    let marked = entity.despawn_marker.is_some() || entity.remove_marker.is_some();
    let playing = entity.sink.is_some() || entity.spatial_sink.is_some();
    one_sink && one_marker && (!marked || playing)
}

#[test]
fn any_course_of_frames_keeps_the_invariant() {
    let device = AudioOutput { available: true };
    let mut dice = Dice(2024);
    let mut world: Vec<AudioEntity> = (0..64u64)
        .map(|id| AudioEntity::spawn(id, AudioSourceBundle { source: SourceState::Loading, settings: settings_of(id) }))
        .collect();
    let mut reaped = vec![0u32; 64];
    for _ in 0..400 {
        for entity in world.iter_mut() {
            if entity.source.is_some() {
                entity.source = Some(if dice.roll(4) == 0 { SourceState::Loading } else { SourceState::Ready });
            }
            let empty = dice.flip();
            if entity.sink.is_some() {
                entity.sink = Some(SinkStatus { empty });
            }
            if entity.spatial_sink.is_some() {
                entity.spatial_sink = Some(SinkStatus { empty });
            }
        }
        let plans =
            play_queued_audio_system(&device, &world, &GlobalVolume::default(), &Vec::new(), &SpatialScale::default());
        let actions = cleanup_finished_audio(&device, &world);
        for plan in &plans {
            assert!(actions.iter().all(|action| target(action) != plan.entity));
            assert_eq!(plans.iter().filter(|other| other.entity == plan.entity).count(), 1);
            let entity = world.iter_mut().find(|entity| entity.id == plan.entity).unwrap();
            assert!(entity.sink.is_none() && entity.spatial_sink.is_none());
            assert_eq!(entity.source, Some(SourceState::Ready));
            assert_eq!(plan.placement.is_some(), entity.settings.unwrap().spatial);
            entity.sink_opened(plan, dice.roll(3) != 0);
        }
        for action in &actions {
            assert_eq!(actions.iter().filter(|other| target(other) == target(action)).count(), 1);
            let at = world.iter().position(|entity| entity.id == target(action)).unwrap();
            let mode = settings_of(target(action)).mode;
            assert!(mode == PlaybackMode::Despawn || mode == PlaybackMode::Remove);
            reaped[target(action) as usize] += 1;
            match world[at].apply_reap(action) {
                Some(stripped) => {
                    assert_eq!(mode, PlaybackMode::Remove);
                    assert!(stripped.source.is_none() && stripped.settings.is_none());
                    assert!(stripped.sink.is_none() && stripped.spatial_sink.is_none());
                    world[at] = stripped;
                }
                None => {
                    assert_eq!(mode, PlaybackMode::Despawn);
                    world.remove(at);
                }
            }
        }
        for entity in &world {
            assert!(keeps_invariant(entity));
        }
    }
    for id in 0..64u64 {
        let mode = settings_of(id).mode;
        let alive = world.iter().find(|entity| entity.id == id);
        match mode {
            PlaybackMode::Once | PlaybackMode::Loop => {
                assert_eq!(reaped[id as usize], 0);
                let entity = alive.unwrap();
                assert_eq!(entity.settings, Some(settings_of(id)));
                assert!(entity.sink.is_some() || entity.spatial_sink.is_some());
            }
            PlaybackMode::Despawn => {
                assert_eq!(reaped[id as usize], 1);
                assert!(alive.is_none());
            }
            PlaybackMode::Remove => {
                assert_eq!(reaped[id as usize], 1);
                let entity = alive.unwrap();
                assert!(entity.settings.is_none() && entity.source.is_none());
            }
        }
    }
}

#[test]
fn passes_of_one_frame_act_on_different_entities() {
    let device = AudioOutput { available: true };
    let mut world: Vec<AudioEntity> = (0..16u64)
        .map(|id| AudioEntity::spawn(id, AudioSourceBundle { source: SourceState::Ready, settings: settings_of(id) }))
        .collect();
    let scale = SpatialScale::default();
    let plans = play_queued_audio_system(&device, &world, &GlobalVolume::default(), &Vec::new(), &scale);
    assert_eq!(plans.len(), 16);
    assert!(cleanup_finished_audio(&device, &world).is_empty());
    assert!(update_emitter_positions(&device, &world, &scale).is_empty());
    assert!(update_listener_positions(&device, &world, true, true, &Vec::new(), &scale).is_empty());
    for (entity, plan) in world.iter_mut().zip(plans.iter()) {
        entity.sink_opened(plan, true);
    }
    assert!(play_queued_audio_system(&device, &world, &GlobalVolume::default(), &Vec::new(), &scale).is_empty());
    assert_eq!(update_listener_positions(&device, &world, true, false, &Vec::new(), &scale).len(), 8);
}
