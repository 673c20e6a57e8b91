use bevy_audio::audio::{
    GlobalVolume, PlaybackMode, PlaybackSettings, SpatialListener, SpatialScale, Volume, VolumeLevel,
};
use bevy_audio::scalar::{Scalar, Vec3};
use bevy_audio::AudioPlugin;

fn scalar(number: f32) -> Scalar {
    Scalar::from_bits(number.to_bits())
}

fn vec3(x: f32, y: f32, z: f32) -> Vec3 {
    Vec3::new(scalar(x), scalar(y), scalar(z))
}

fn preset(mode: PlaybackMode) -> PlaybackSettings {
    PlaybackSettings {
        mode,
        volume: Volume::Relative(VolumeLevel(scalar(1.0))),
        speed: scalar(1.0),
        paused: false,
        spatial: false,
    }
}

#[test]
fn volume_level_holds_its_number() {
    assert_eq!(f32::from_bits(VolumeLevel::new(scalar(0.5)).get().to_bits()), 0.5);
    assert_eq!(VolumeLevel::new(scalar(0.0)).get(), scalar(0.0));
    assert_eq!(VolumeLevel::new(scalar(7.25)), VolumeLevel(scalar(7.25)));
    assert_eq!(VolumeLevel::new(scalar(f32::INFINITY)).get(), scalar(f32::INFINITY));
}

#[test]
fn volume_level_defaults_to_one() {
    assert_eq!(f32::from_bits(VolumeLevel::default().get().to_bits()), 1.0);
}

#[test]
fn volume_is_relative_or_absolute() {
    assert_eq!(Volume::new_relative(scalar(0.25)), Volume::Relative(VolumeLevel(scalar(0.25))));
    assert_eq!(Volume::new_absolute(scalar(0.25)), Volume::Absolute(VolumeLevel(scalar(0.25))));
    assert_ne!(Volume::new_relative(scalar(0.25)), Volume::new_absolute(scalar(0.25)));
    assert_eq!(Volume::default(), Volume::Relative(VolumeLevel(scalar(1.0))));
}

#[test]
fn presets_differ_in_their_mode_only() {
    assert_eq!(PlaybackSettings::once(), preset(PlaybackMode::Once));
    assert_eq!(PlaybackSettings::looping(), preset(PlaybackMode::Loop));
    assert_eq!(PlaybackSettings::despawn(), preset(PlaybackMode::Despawn));
    assert_eq!(PlaybackSettings::remove(), preset(PlaybackMode::Remove));
}

#[test]
fn default_settings_play_once() {
    assert_eq!(PlaybackSettings::default(), PlaybackSettings::once());
    assert_eq!(PlaybackSettings::default().mode, PlaybackMode::Once);
}

#[test]
fn builders_change_one_field() {
    let base = PlaybackSettings::despawn();
    assert_eq!(base.paused(), PlaybackSettings { paused: true, ..base });
    assert_eq!(base.paused().paused(), PlaybackSettings { paused: true, ..base });
    let volume = Volume::new_absolute(scalar(0.75));
    assert_eq!(base.with_volume(volume), PlaybackSettings { volume, ..base });
    assert_eq!(base.with_speed(scalar(1.5)), PlaybackSettings { speed: scalar(1.5), ..base });
    assert_eq!(base.with_spatial(true), PlaybackSettings { spatial: true, ..base });
    assert_eq!(base.with_spatial(true).with_spatial(false), base);
}

#[test]
fn builders_can_be_chained() {
    let settings = PlaybackSettings::looping()
        .with_volume(Volume::new_relative(scalar(0.5)))
        .with_speed(scalar(2.0))
        .with_spatial(true)
        .paused();
    assert_eq!(
        settings,
        PlaybackSettings {
            mode: PlaybackMode::Loop,
            volume: Volume::Relative(VolumeLevel(scalar(0.5))),
            speed: scalar(2.0),
            paused: true,
            spatial: true,
        }
    );
}

#[test]
fn default_listener_has_ears_four_apart() {
    let gap = 4.0f32;
    let unit_x = [1.0f32, 0.0, 0.0];
    let left: Vec<f32> = unit_x.iter().map(|c| c * gap / -2.0).collect();
    let right: Vec<f32> = unit_x.iter().map(|c| c * gap / 2.0).collect();
    let listener = SpatialListener::default();
    assert_eq!(listener.left_ear_offset, vec3(left[0], left[1], left[2]));
    assert_eq!(listener.right_ear_offset, vec3(right[0], right[1], right[2]));
    assert_eq!(f32::from_bits(listener.left_ear_offset.x.to_bits()), -2.0);
    assert_eq!(f32::from_bits(listener.right_ear_offset.x.to_bits()), 2.0);
    let apart = f32::from_bits(listener.right_ear_offset.x.to_bits())
        - f32::from_bits(listener.left_ear_offset.x.to_bits());
    assert_eq!(apart, 4.0);
}

#[test]
fn global_volume_holds_its_level() {
    assert_eq!(GlobalVolume::new(scalar(2.0)), GlobalVolume { volume: VolumeLevel(scalar(2.0)) });
    assert_eq!(GlobalVolume::default(), GlobalVolume { volume: VolumeLevel(scalar(1.0)) });
}

#[test]
fn spatial_scale_fills_its_axes() {
    assert_eq!(SpatialScale::new(scalar(2.0)), SpatialScale(vec3(2.0, 2.0, 2.0)));
    assert_eq!(SpatialScale::new_2d(scalar(3.0)), SpatialScale(vec3(3.0, 3.0, 0.0)));
    assert_eq!(SpatialScale::default(), SpatialScale(vec3(1.0, 1.0, 1.0)));
    assert_ne!(SpatialScale::new_2d(scalar(3.0)), SpatialScale(vec3(3.0, 3.0, -0.0)));
}

#[test]
fn plugin_starts_with_the_defaults() {
    let plugin = AudioPlugin::default();
    assert_eq!(plugin.global_volume, GlobalVolume::default());
    assert_eq!(plugin.spatial_scale, SpatialScale::default());
}
