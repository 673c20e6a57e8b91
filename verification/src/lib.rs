//! Audio playback for entities in a game world.
//!
//! An entity asks for a sound with a source handle and [`PlaybackSettings`].
//! Frame by frame the engine gives each such entity a sink once its source is
//! ready, keeps the sinks of spatial sounds told where emitter and listener
//! are, and reaps the entities whose sound has ended.
//!
//! - [`scalar`]: numbers and vectors, carried as bit patterns;
//! - [`audio`]: volume, playback settings, listener, global volume and scale;
//! - [`audio_output`]: the passes of the engine and what they ask for;
//! - [`lifecycle`]: the course of a request over the frames, with its laws;
//! - [`loading_bar`]: a loading bar widget.

pub mod audio;
pub mod audio_output;
pub mod lifecycle;
pub mod loading_bar;
pub mod scalar;

pub use audio::{GlobalVolume, PlaybackMode, PlaybackSettings, SpatialListener, SpatialScale, Volume, VolumeLevel};
pub use audio_output::{AudioSourceBundle, PlaybackDespawnMarker, PlaybackRemoveMarker};

use vstd::prelude::*;

verus! {

/// Adds support for audio playback to an application: the two values that
/// the engine starts with.
#[derive(Clone, Copy, Debug, PartialEq, Eq, Structural)]
pub struct AudioPlugin {
    /// The global volume for all audio entities with a [`Volume::Relative`] volume.
    pub global_volume: GlobalVolume,
    /// The scale factor applied to the positions of audio sources and listeners for
    /// spatial audio.
    pub spatial_scale: SpatialScale,
}

impl Default for AudioPlugin {
    /// Global volume `1.0` and a spatial scale that changes no position.
    fn default() -> (plugin: Self)
        ensures
            plugin == (AudioPlugin {
                global_volume: GlobalVolume { volume: VolumeLevel(scalar::Scalar { bits: scalar::ONE }) },
                spatial_scale: SpatialScale(scalar::Vec3::ones()),
            }),
    {
        AudioPlugin { global_volume: GlobalVolume::default(), spatial_scale: SpatialScale::default() }
    }
}

} // verus!
