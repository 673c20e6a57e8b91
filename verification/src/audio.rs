//! What a sound is asked to be played with: volume, playback mode and the
//! other initial settings, the listener's ears, and the two values that hold
//! for every sound at once, the global volume and the spatial scale.

use crate::scalar::{Scalar, Vec3, NEG_TWO, NEG_ZERO, ONE, TWO, ZERO};
use vstd::prelude::*;

verus! {

/// Defines the volume to play an audio source at.
#[derive(Clone, Copy, Debug, PartialEq, Eq, Structural)]
pub enum Volume {
    /// A volume level relative to the global volume.
    Relative(VolumeLevel),
    /// A volume level that ignores the global volume.
    Absolute(VolumeLevel),
}

impl Volume {
    /// The level inside, whichever way it is to be read.
    pub open spec fn level(self) -> VolumeLevel {
        match self {
            Volume::Relative(level) => level,
            Volume::Absolute(level) => level,
        }
    }

    /// The level inside is a volume level.
    pub open spec fn wf(self) -> bool {
        self.level().wf()
    }

    /// Create a new volume level relative to the global volume.
    pub fn new_relative(volume: Scalar) -> (result: Self)
        requires
            volume.non_negative(),
        ensures
            result == Volume::Relative(VolumeLevel(volume)),
            result.wf(),
    {
        Volume::Relative(VolumeLevel::new(volume))
    }

    /// Create a new volume level that ignores the global volume.
    pub fn new_absolute(volume: Scalar) -> (result: Self)
        requires
            volume.non_negative(),
        ensures
            result == Volume::Absolute(VolumeLevel(volume)),
            result.wf(),
    {
        Volume::Absolute(VolumeLevel::new(volume))
    }
}

impl Default for Volume {
    /// Relative to the global volume, at level `1.0`.
    fn default() -> (result: Self)
        ensures
            result == Volume::Relative(VolumeLevel(Scalar { bits: ONE })),
            result.wf(),
    {
        Volume::Relative(VolumeLevel::default())
    }
}

/// A volume level equivalent to a non-negative number.
#[derive(Clone, Copy, Debug, PartialEq, Eq, Structural)]
pub struct VolumeLevel(pub Scalar);

impl VolumeLevel {
    /// The number is a volume level: it is not below zero, and no NaN.
    pub open spec fn wf(self) -> bool {
        self.0.non_negative()
    }

    /// Create a new volume level.
    pub fn new(volume: Scalar) -> (level: Self)
        requires
            volume.non_negative(),
        ensures
            level == VolumeLevel(volume),
            level.wf(),
    {
        VolumeLevel(volume)
    }

    /// Get the value of the volume level.
    pub fn get(&self) -> (volume: Scalar)
        ensures
            volume == self.0,
    {
        self.0
    }
}

impl Default for VolumeLevel {
    /// The level `1.0`.
    fn default() -> (level: Self)
        ensures
            level == VolumeLevel(Scalar { bits: ONE }),
            level.wf(),
    {
        VolumeLevel(Scalar { bits: ONE })
    }
}

/// The way the sound playback is managed.
#[derive(Clone, Copy, Debug, PartialEq, Eq, Structural)]
pub enum PlaybackMode {
    /// Play the sound once. Do nothing when it ends.
    Once,
    /// Repeat the sound forever.
    Loop,
    /// Despawn the entity when the sound finishes playing.
    Despawn,
    /// Remove the audio components from the entity, when the sound finishes playing.
    Remove,
}

/// Initial settings to be used when audio starts playing.
///
/// They are read once, when the sink is created. Changes made to them
/// afterwards are not applied to audio that is already playing.
#[derive(Clone, Copy, Debug, PartialEq, Eq, Structural)]
pub struct PlaybackSettings {
    /// The desired playback behavior.
    pub mode: PlaybackMode,
    /// Volume to play at.
    pub volume: Volume,
    /// Speed to play at.
    pub speed: Scalar,
    /// Create the sink in paused state.
    /// Useful for "deferred playback", if you want to prepare
    /// the entity, but hear the sound later.
    pub paused: bool,
    /// Enables spatial audio for this source.
    ///
    /// Spatial audio is simple left-right stereo panning, heard by the
    /// [`SpatialListener`].
    pub spatial: bool,
}

impl PlaybackSettings {
    /// The settings that every preset shares, with the given mode: relative
    /// volume `1.0`, speed `1.0`, not paused, not spatial.
    pub open spec fn preset(mode: PlaybackMode) -> PlaybackSettings {
        PlaybackSettings {
            mode,
            volume: Volume::Relative(VolumeLevel(Scalar { bits: ONE })),
            speed: Scalar { bits: ONE },
            paused: false,
            spatial: false,
        }
    }

    /// The volume is a volume level and the speed is above zero.
    pub open spec fn wf(self) -> bool {
        self.volume.wf() && self.speed.positive()
    }

    /// Will play the associated audio source once.
    pub fn once() -> (settings: Self)
        ensures
            settings == Self::preset(PlaybackMode::Once),
            settings.wf(),
    {
        PlaybackSettings {
            mode: PlaybackMode::Once,
            volume: Volume::Relative(VolumeLevel(Scalar { bits: ONE })),
            speed: Scalar { bits: ONE },
            paused: false,
            spatial: false,
        }
    }

    /// Will play the associated audio source in a loop.
    pub fn looping() -> (settings: Self)
        ensures
            settings == Self::preset(PlaybackMode::Loop),
            settings.wf(),
    {
        PlaybackSettings {
            mode: PlaybackMode::Loop,
            volume: Volume::Relative(VolumeLevel(Scalar { bits: ONE })),
            speed: Scalar { bits: ONE },
            paused: false,
            spatial: false,
        }
    }

    /// Will play the associated audio source once and despawn the entity afterwards.
    pub fn despawn() -> (settings: Self)
        ensures
            settings == Self::preset(PlaybackMode::Despawn),
            settings.wf(),
    {
        PlaybackSettings {
            mode: PlaybackMode::Despawn,
            volume: Volume::Relative(VolumeLevel(Scalar { bits: ONE })),
            speed: Scalar { bits: ONE },
            paused: false,
            spatial: false,
        }
    }

    /// Will play the associated audio source once and remove the audio components afterwards.
    pub fn remove() -> (settings: Self)
        ensures
            settings == Self::preset(PlaybackMode::Remove),
            settings.wf(),
    {
        PlaybackSettings {
            mode: PlaybackMode::Remove,
            volume: Volume::Relative(VolumeLevel(Scalar { bits: ONE })),
            speed: Scalar { bits: ONE },
            paused: false,
            spatial: false,
        }
    }

    /// Helper to start in a paused state.
    pub fn paused(self) -> (settings: Self)
        ensures
            settings == (PlaybackSettings { paused: true, ..self }),
    {
        let mut settings = self;
        settings.paused = true;
        settings
    }

    /// Helper to set the volume from start of playback.
    pub fn with_volume(self, volume: Volume) -> (settings: Self)
        ensures
            settings == (PlaybackSettings { volume, ..self }),
    {
        let mut settings = self;
        settings.volume = volume;
        settings
    }

    /// Helper to set the speed from start of playback.
    pub fn with_speed(self, speed: Scalar) -> (settings: Self)
        ensures
            settings == (PlaybackSettings { speed, ..self }),
    {
        let mut settings = self;
        settings.speed = speed;
        settings
    }

    /// Helper to enable or disable spatial audio.
    pub fn with_spatial(self, spatial: bool) -> (settings: Self)
        ensures
            settings == (PlaybackSettings { spatial, ..self }),
    {
        let mut settings = self;
        settings.spatial = spatial;
        settings
    }
}

impl Default for PlaybackSettings {
    /// Play once and do nothing when the sound ends: of the three modes that
    /// play a sound a single time, the one that leaves the entity alone.
    fn default() -> (settings: Self)
        ensures
            settings == Self::preset(PlaybackMode::Once),
            settings.wf(),
    {
        PlaybackSettings::once()
    }
}

/// Settings for the listener for a spatial audio source.
#[derive(Clone, Copy, Debug, PartialEq, Eq, Structural)]
pub struct SpatialListener {
    /// Left ear position relative to the listener's world transform.
    pub left_ear_offset: Vec3,
    /// Right ear position relative to the listener's world transform.
    pub right_ear_offset: Vec3,
}

impl SpatialListener {
    /// The ears of a listener whose gap is `4.0`: `2.0` to either side on the
    /// x axis. The left ear is `(-2.0, -0.0, -0.0)`, the zeros negative as the
    /// division of `(4.0, 0.0, 0.0)` by `-2.0` leaves them, and the right ear
    /// is `(2.0, 0.0, 0.0)`.
    pub open spec fn default_ears() -> SpatialListener {
        SpatialListener {
            left_ear_offset: Vec3 {
                x: Scalar { bits: NEG_TWO },
                y: Scalar { bits: NEG_ZERO },
                z: Scalar { bits: NEG_ZERO },
            },
            right_ear_offset: Vec3 {
                x: Scalar { bits: TWO },
                y: Scalar { bits: ZERO },
                z: Scalar { bits: ZERO },
            },
        }
    }
}

impl Default for SpatialListener {
    /// A listener whose ears are `4.0` apart.
    fn default() -> (listener: Self)
        ensures
            listener == Self::default_ears(),
    {
        SpatialListener {
            left_ear_offset: Vec3 {
                x: Scalar { bits: NEG_TWO },
                y: Scalar { bits: NEG_ZERO },
                z: Scalar { bits: NEG_ZERO },
            },
            right_ear_offset: Vec3 {
                x: Scalar { bits: TWO },
                y: Scalar { bits: ZERO },
                z: Scalar { bits: ZERO },
            },
        }
    }
}

/// The global volume of all audio with a [`Volume::Relative`] volume.
///
/// Changing this value will not affect already playing audio.
#[derive(Clone, Copy, Debug, PartialEq, Eq, Structural)]
pub struct GlobalVolume {
    /// The global volume of all audio.
    pub volume: VolumeLevel,
}

impl GlobalVolume {
    /// The level is a volume level.
    pub open spec fn wf(self) -> bool {
        self.volume.wf()
    }

    /// Create a new [`GlobalVolume`] with the given volume.
    pub fn new(volume: Scalar) -> (global: Self)
        requires
            volume.non_negative(),
        ensures
            global == (GlobalVolume { volume: VolumeLevel(volume) }),
            global.wf(),
    {
        GlobalVolume { volume: VolumeLevel::new(volume) }
    }
}

impl Default for GlobalVolume {
    /// The level `1.0`, which leaves every relative volume as it is.
    fn default() -> (global: Self)
        ensures
            global == (GlobalVolume { volume: VolumeLevel(Scalar { bits: ONE }) }),
            global.wf(),
    {
        GlobalVolume { volume: VolumeLevel::default() }
    }
}

/// The scale factor applied to the positions of audio sources and listeners for
/// spatial audio.
///
/// You may need to adjust this scale to fit your world's units.
///
/// Default is `(1.0, 1.0, 1.0)`.
#[derive(Clone, Copy, Debug, PartialEq, Eq, Structural)]
pub struct SpatialScale(pub Vec3);

impl SpatialScale {
    /// Create a new `SpatialScale` with the same value for all 3 dimensions.
    pub fn new(scale: Scalar) -> (result: Self)
        ensures
            result == SpatialScale(Vec3 { x: scale, y: scale, z: scale }),
    {
        SpatialScale(Vec3::splat(scale))
    }

    /// Create a new `SpatialScale` with the same value for `x` and `y`, and `0.0`
    /// for `z`.
    pub fn new_2d(scale: Scalar) -> (result: Self)
        ensures
            result == SpatialScale(Vec3 { x: scale, y: scale, z: Scalar { bits: ZERO } }),
    {
        SpatialScale(Vec3::new(scale, scale, Scalar { bits: ZERO }))
    }
}

impl Default for SpatialScale {
    /// The scale that changes no position.
    fn default() -> (result: Self)
        ensures
            result == SpatialScale(Vec3::ones()),
    {
        SpatialScale(Vec3::splat(Scalar { bits: ONE }))
    }
}

} // verus!
