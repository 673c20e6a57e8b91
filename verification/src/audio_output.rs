//! The playback engine: which entities get a sink and how it is set up, which
//! live sinks are told a new position, and which entities are reaped once
//! their sound has ended.
//!
//! The engine decides and the caller acts. Each pass reads the audio entities
//! as one frame finds them and returns, in the order in which they are to be
//! carried out, the sinks to open or the commands to give. Opening a sink,
//! feeding it and changing the entity store are the caller's part, and so is
//! all arithmetic on positions and volumes: a [`ScaledPoint`] names the two
//! factors of a position and a [`SinkVolume`] those of a volume.

use crate::audio::{GlobalVolume, PlaybackMode, PlaybackSettings, SpatialListener, SpatialScale, Volume, VolumeLevel};
use crate::scalar::{Scalar, Vec3};
use vstd::prelude::*;

verus! {

/// The connection to the audio device, if one was found.
///
/// The connection itself stays with the caller, for the life of the process;
/// the engine only asks whether there is one.
#[derive(Clone, Copy, Debug, PartialEq, Eq, Structural)]
pub struct AudioOutput {
    /// Whether the default audio device could be opened.
    pub available: bool,
}

/// Marker for internal use, to despawn entities when playback finishes.
#[derive(Clone, Copy, Debug, PartialEq, Eq, Structural)]
pub struct PlaybackDespawnMarker;

/// Marker for internal use, to remove audio components when playback finishes.
#[derive(Clone, Copy, Debug, PartialEq, Eq, Structural)]
pub struct PlaybackRemoveMarker;

/// Whether the audio data behind a source handle can be decoded yet.
#[derive(Clone, Copy, Debug, PartialEq, Eq, Structural)]
pub enum SourceState {
    /// The asset is still loading.
    Loading,
    /// The decoded source is there.
    Ready,
}

/// What a frame sees of a live sink.
#[derive(Clone, Copy, Debug, PartialEq, Eq, Structural)]
pub struct SinkStatus {
    /// The backend reports that the sink has nothing left to play.
    pub empty: bool,
}

/// What a frame sees of an entity's world transform.
#[derive(Clone, Copy, Debug, PartialEq, Eq, Structural)]
pub struct WorldTransform {
    /// Where the entity is, in world units.
    pub position: Vec3,
    /// The transform changed since the last frame.
    pub changed: bool,
}

/// The audio side of one entity, as one frame finds it: the components it
/// carries, and what the asset store and the backend report of them.
#[derive(Clone, Copy, Debug, PartialEq, Eq, Structural)]
pub struct AudioEntity {
    /// The entity's identifier.
    pub id: u64,
    /// The handle of the source to play, with the state of its asset.
    pub source: Option<SourceState>,
    /// The settings to start playback with.
    pub settings: Option<PlaybackSettings>,
    /// The sink without panning.
    pub sink: Option<SinkStatus>,
    /// The sink with panning.
    pub spatial_sink: Option<SinkStatus>,
    /// The entity is to be despawned when its sound ends.
    pub despawn_marker: Option<PlaybackDespawnMarker>,
    /// The entity is to lose its audio components when its sound ends.
    pub remove_marker: Option<PlaybackRemoveMarker>,
    /// The world transform.
    pub transform: Option<WorldTransform>,
}

/// A spatial listener that has a world transform, as one frame finds it.
#[derive(Clone, Copy, Debug, PartialEq, Eq, Structural)]
pub struct Listener {
    /// The entity's identifier.
    pub entity: u64,
    /// The left ear in world units: its offset carried through the world transform.
    pub left_ear: Vec3,
    /// The right ear in world units: its offset carried through the world transform.
    pub right_ear: Vec3,
}

/// A position that has yet to be scaled: each component of `point` times the
/// same component of `scale` is what the panning backend is given.
#[derive(Clone, Copy, Debug, PartialEq, Eq, Structural)]
pub struct ScaledPoint {
    pub point: Vec3,
    pub scale: Vec3,
}

/// Where a spatial sound comes from.
#[derive(Clone, Copy, Debug, PartialEq, Eq, Structural)]
pub enum EmitterPosition {
    /// The origin, unscaled: the entity has no world transform, which is
    /// worth a warning.
    Origin,
    /// The entity's position, to be scaled.
    At(ScaledPoint),
}

/// The positions that a spatial sink is opened with.
#[derive(Clone, Copy, Debug, PartialEq, Eq, Structural)]
pub struct SpatialPlacement {
    pub emitter: EmitterPosition,
    pub left_ear: ScaledPoint,
    pub right_ear: ScaledPoint,
    /// Set where more than one listener was found: the one whose ears are
    /// used, which is worth a warning.
    pub ambiguous_listener: Option<u64>,
}

/// The volume that a new sink is set to.
#[derive(Clone, Copy, Debug, PartialEq, Eq, Structural)]
pub enum SinkVolume {
    /// The level as it is.
    Exact(VolumeLevel),
    /// The product of the level and the global volume.
    Scaled { level: VolumeLevel, global: VolumeLevel },
}

/// What is to happen to an entity once its sound has ended.
#[derive(Clone, Copy, Debug, PartialEq, Eq, Structural)]
pub enum TerminalMarker {
    Despawn,
    Remove,
}

/// A sink to open for an entity, with all that is decided at that moment.
#[derive(Clone, Copy, Debug, PartialEq, Eq, Structural)]
pub struct SinkPlan {
    /// The entity that is to own the sink.
    pub entity: u64,
    /// The positions of a spatial sink; `None` asks for a sink without panning.
    pub placement: Option<SpatialPlacement>,
    /// The speed to play at.
    pub speed: Scalar,
    /// The volume to play at.
    pub volume: SinkVolume,
    /// The sink starts paused.
    pub paused: bool,
    /// The source is repeated without end.
    pub repeat: bool,
    /// The marker that is attached together with the sink.
    pub marker: Option<TerminalMarker>,
}

/// One step in setting up a sink that was just opened.
#[derive(Clone, Copy, Debug, PartialEq, Eq, Structural)]
pub enum SinkCommand {
    SetSpeed(Scalar),
    SetVolume(SinkVolume),
    Pause,
    /// Feed the decoded source, wrapped in endless repetition if `repeat`.
    Append { repeat: bool },
}

/// The volume of a sink that is created while the global volume is `global`.
pub open spec fn sink_volume_of(volume: Volume, global: GlobalVolume) -> SinkVolume {
    match volume {
        Volume::Relative(level) => SinkVolume::Scaled { level, global: global.volume },
        Volume::Absolute(level) => SinkVolume::Exact(level),
    }
}

/// The marker that goes with a playback mode.
pub open spec fn marker_of(mode: PlaybackMode) -> Option<TerminalMarker> {
    match mode {
        PlaybackMode::Once => None,
        PlaybackMode::Loop => None,
        PlaybackMode::Despawn => Some(TerminalMarker::Despawn),
        PlaybackMode::Remove => Some(TerminalMarker::Remove),
    }
}

/// The ears that every spatial sink hears with: those of the first listener,
/// or the default ones where there is no listener, left before right, each
/// to be scaled by `scale`.
pub open spec fn ear_positions_of(listeners: Seq<Listener>, scale: SpatialScale) -> (
    ScaledPoint,
    ScaledPoint,
) {
    if listeners.len() > 0 {
        (
            ScaledPoint { point: listeners[0].left_ear, scale: scale.0 },
            ScaledPoint { point: listeners[0].right_ear, scale: scale.0 },
        )
    } else {
        (
            ScaledPoint { point: SpatialListener::default_ears().left_ear_offset, scale: scale.0 },
            ScaledPoint { point: SpatialListener::default_ears().right_ear_offset, scale: scale.0 },
        )
    }
}

/// The positions of a spatial sink for an entity with the given transform.
pub open spec fn placement_of(
    transform: Option<WorldTransform>,
    listeners: Seq<Listener>,
    scale: SpatialScale,
) -> SpatialPlacement {
    SpatialPlacement {
        emitter: match transform {
            Some(t) => EmitterPosition::At(ScaledPoint { point: t.position, scale: scale.0 }),
            None => EmitterPosition::Origin,
        },
        left_ear: ear_positions_of(listeners, scale).0,
        right_ear: ear_positions_of(listeners, scale).1,
        ambiguous_listener: if listeners.len() > 1 {
            Some(listeners[0].entity)
        } else {
            None
        },
    }
}

impl AudioEntity {
    /// The entity has a sink, of either kind.
    pub open spec fn playing(self) -> bool {
        self.sink is Some || self.spatial_sink is Some
    }

    /// The lifecycle invariant: at most one sink, at most one marker, and a
    /// marker only beside a sink.
    pub open spec fn wf(self) -> bool {
        &&& !(self.sink is Some && self.spatial_sink is Some)
        &&& !(self.despawn_marker is Some && self.remove_marker is Some)
        &&& (self.despawn_marker is Some || self.remove_marker is Some) ==> self.playing()
    }

    /// The entity carries nothing of a playback request any more: no source
    /// handle, no settings, no sink and no marker.
    pub open spec fn bare(self) -> bool {
        &&& self.source is None
        &&& self.settings is None
        &&& !self.playing()
        &&& self.despawn_marker is None
        &&& self.remove_marker is None
    }

    /// The entity asks for playback and has none yet: it has a source handle
    /// and settings, and no sink of either kind.
    pub open spec fn queued(self) -> bool {
        self.source is Some && self.settings is Some && !self.playing()
    }

    /// The sink that the entity is given in this frame, if it is given one:
    /// it is queued and its source is ready.
    pub open spec fn sink_plan(
        self,
        global: GlobalVolume,
        listeners: Seq<Listener>,
        scale: SpatialScale,
    ) -> Option<SinkPlan> {
        if self.queued() && self.source == Some(SourceState::Ready) {
            let settings = self.settings->0;
            Some(
                SinkPlan {
                    entity: self.id,
                    placement: if settings.spatial {
                        Some(placement_of(self.transform, listeners, scale))
                    } else {
                        None
                    },
                    speed: settings.speed,
                    volume: sink_volume_of(settings.volume, global),
                    paused: settings.paused,
                    repeat: settings.mode is Loop,
                    marker: marker_of(settings.mode),
                },
            )
        } else {
            None
        }
    }
}

/// The function that gives each entity its sink plan.
pub open spec fn planner(global: GlobalVolume, listeners: Seq<Listener>, scale: SpatialScale)
    -> spec_fn(AudioEntity) -> Option<SinkPlan> {
    |e: AudioEntity| e.sink_plan(global, listeners, scale)
}

/// Gets the ear positions that spatial sinks are given, left before right.
///
/// If there are no listeners, the default ears are used. If there are
/// several, the first one is used.
pub fn get_ear_positions(listeners: &Vec<Listener>, spatial_scale: &SpatialScale) -> (ears: (
    ScaledPoint,
    ScaledPoint,
))
    ensures
        ears == ear_positions_of(listeners@, *spatial_scale),
{
    if listeners.len() > 0 {
        let first = listeners[0];
        (
            ScaledPoint { point: first.left_ear, scale: spatial_scale.0 },
            ScaledPoint { point: first.right_ear, scale: spatial_scale.0 },
        )
    } else {
        let listener = SpatialListener::default();
        (
            ScaledPoint { point: listener.left_ear_offset, scale: spatial_scale.0 },
            ScaledPoint { point: listener.right_ear_offset, scale: spatial_scale.0 },
        )
    }
}

/// The volume to set a new sink to: a relative volume is multiplied by the
/// global volume as it is now, an absolute volume is taken as it is.
pub fn sink_volume(volume: Volume, global_volume: &GlobalVolume) -> (result: SinkVolume)
    ensures
        result == sink_volume_of(volume, *global_volume),
{
    match volume {
        Volume::Relative(level) => SinkVolume::Scaled { level, global: global_volume.volume },
        Volume::Absolute(level) => SinkVolume::Exact(level),
    }
}

/// Decides for one entity whether it is given a sink in this frame, and which.
///
/// An entity that has a sink already, or lacks the source handle or the
/// settings, is passed over, and so is one whose source is not ready: it is
/// looked at again in the next frame.
pub fn plan_sink(
    entity: &AudioEntity,
    global_volume: &GlobalVolume,
    listeners: &Vec<Listener>,
    spatial_scale: &SpatialScale,
) -> (plan: Option<SinkPlan>)
    ensures
        plan == entity.sink_plan(*global_volume, listeners@, *spatial_scale),
{
    if entity.sink.is_some() || entity.spatial_sink.is_some() {
        return None;
    }
    let ready = match entity.source {
        Some(SourceState::Ready) => true,
        _ => false,
    };
    if !ready {
        return None;
    }
    match entity.settings {
        None => None,
        Some(settings) => {
            let placement = if settings.spatial {
                let (left_ear, right_ear) = get_ear_positions(listeners, spatial_scale);
                // Only one listener can be heard with. If there are more,
                // the user may have made a mistake.
                let ambiguous_listener = if listeners.len() > 1 {
                    Some(listeners[0].entity)
                } else {
                    None
                };
                let emitter = match entity.transform {
                    Some(transform) => EmitterPosition::At(
                        ScaledPoint { point: transform.position, scale: spatial_scale.0 },
                    ),
                    None => EmitterPosition::Origin,
                };
                Some(SpatialPlacement { emitter, left_ear, right_ear, ambiguous_listener })
            } else {
                None
            };
            let (repeat, marker) = match settings.mode {
                PlaybackMode::Loop => (true, None),
                PlaybackMode::Once => (false, None),
                PlaybackMode::Despawn => (false, Some(TerminalMarker::Despawn)),
                PlaybackMode::Remove => (false, Some(TerminalMarker::Remove)),
            };
            Some(
                SinkPlan {
                    entity: entity.id,
                    placement,
                    speed: settings.speed,
                    volume: sink_volume(settings.volume, global_volume),
                    paused: settings.paused,
                    repeat,
                    marker,
                },
            )
        },
    }
}

/// Plays "queued" audio through the audio output.
///
/// "Queued" audio is any entity that has a source handle and playback
/// settings and does not have a sink of either kind. The pass detects such
/// entities and checks whether their source is ready. It returns, in the
/// entities' order, the sinks to open. Without an audio device it returns
/// none.
pub fn play_queued_audio_system(
    audio_output: &AudioOutput,
    entities: &Vec<AudioEntity>,
    global_volume: &GlobalVolume,
    listeners: &Vec<Listener>,
    spatial_scale: &SpatialScale,
) -> (plans: Vec<SinkPlan>)
    ensures
        !audio_output.available ==> plans@ == Seq::<SinkPlan>::empty(),
        audio_output.available ==> plans@ == entities@.filter_map(
            planner(*global_volume, listeners@, *spatial_scale),
        ),
{
    let mut plans: Vec<SinkPlan> = Vec::new();
    if !audio_output.available {
        // audio output unavailable; cannot play sound
        return plans;
    }
    let ghost plan = planner(*global_volume, listeners@, *spatial_scale);
    let mut i: usize = 0;
    while i < entities.len()
        invariant
            i <= entities.len(),
            plan == planner(*global_volume, listeners@, *spatial_scale),
            plans@ == entities@.take(i as int).filter_map(plan),
        decreases entities.len() - i,
    {
        proof {
            entities@.lemma_filter_map_take_succ(plan, i as int);
        }
        match plan_sink(&entities[i], global_volume, listeners, spatial_scale) {
            Some(p) => {
                plans.push(p);
            },
            None => {},
        }
        i += 1;
    }
    proof {
        assert(entities@.take(entities@.len() as int) == entities@);
    }
    plans
}

impl SinkPlan {
    /// The steps that set up the sink once it is open, in their fixed order:
    /// speed, volume, the pause if there is one, then the source.
    pub open spec fn setup(self) -> Seq<SinkCommand> {
        if self.paused {
            seq![
                SinkCommand::SetSpeed(self.speed),
                SinkCommand::SetVolume(self.volume),
                SinkCommand::Pause,
                SinkCommand::Append { repeat: self.repeat },
            ]
        } else {
            seq![
                SinkCommand::SetSpeed(self.speed),
                SinkCommand::SetVolume(self.volume),
                SinkCommand::Append { repeat: self.repeat },
            ]
        }
    }

    /// The steps that set up the sink once it is open, in the order in which
    /// they are to be carried out.
    pub fn commands(&self) -> (commands: Vec<SinkCommand>)
        ensures
            commands@ == self.setup(),
    {
        let mut commands: Vec<SinkCommand> = Vec::new();
        commands.push(SinkCommand::SetSpeed(self.speed));
        commands.push(SinkCommand::SetVolume(self.volume));
        if self.paused {
            commands.push(SinkCommand::Pause);
        }
        commands.push(SinkCommand::Append { repeat: self.repeat });
        commands
    }
}

/// Bundle for playing a sound.
///
/// Give this bundle to an entity to have a sound begin playing. If the
/// source is not ready (such as if it has not finished loading yet), the
/// audio will not begin playing immediately. The audio will play when the
/// source is ready.
#[derive(Clone, Copy, Debug, PartialEq, Eq, Structural)]
pub struct AudioSourceBundle {
    /// State of the asset containing the audio data to play.
    pub source: SourceState,
    /// Initial settings that the audio starts playing with.
    pub settings: PlaybackSettings,
}

impl Default for AudioSourceBundle {
    /// A source that is not there yet, to be played with the default settings.
    fn default() -> (bundle: Self)
        ensures
            bundle == (AudioSourceBundle {
                source: SourceState::Loading,
                settings: PlaybackSettings::preset(PlaybackMode::Once),
            }),
    {
        AudioSourceBundle { source: SourceState::Loading, settings: PlaybackSettings::default() }
    }
}

impl AudioEntity {
    /// An entity that carries the bundle and nothing else.
    pub open spec fn spawned(id: u64, bundle: AudioSourceBundle) -> AudioEntity {
        AudioEntity {
            id,
            source: Some(bundle.source),
            settings: Some(bundle.settings),
            sink: None,
            spatial_sink: None,
            despawn_marker: None,
            remove_marker: None,
            transform: None,
        }
    }

    /// The entity once the sink of `plan` is attached to it: the sink, which
    /// has just been fed, and the marker, if the plan has one.
    pub open spec fn with_sink(self, plan: SinkPlan) -> AudioEntity {
        AudioEntity {
            sink: if plan.placement is None {
                Some(SinkStatus { empty: false })
            } else {
                self.sink
            },
            spatial_sink: if plan.placement is Some {
                Some(SinkStatus { empty: false })
            } else {
                self.spatial_sink
            },
            despawn_marker: if plan.marker == Some(TerminalMarker::Despawn) {
                Some(PlaybackDespawnMarker)
            } else {
                self.despawn_marker
            },
            remove_marker: if plan.marker == Some(TerminalMarker::Remove) {
                Some(PlaybackRemoveMarker)
            } else {
                self.remove_marker
            },
            ..self
        }
    }

    /// The entity after the backend was asked for the sink of `plan`. Where
    /// the backend failed the entity is as before, and so is asked for again
    /// in the next frame.
    pub open spec fn after_open(self, plan: SinkPlan, opened: bool) -> AudioEntity {
        if opened {
            self.with_sink(plan)
        } else {
            self
        }
    }

    /// An entity that carries the bundle and nothing else.
    pub fn spawn(id: u64, bundle: AudioSourceBundle) -> (entity: AudioEntity)
        ensures
            entity == Self::spawned(id, bundle),
            entity.wf(),
            entity.queued(),
    {
        AudioEntity {
            id,
            source: Some(bundle.source),
            settings: Some(bundle.settings),
            sink: None,
            spatial_sink: None,
            despawn_marker: None,
            remove_marker: None,
            transform: None,
        }
    }

    /// Records what became of the attempt to open the sink of `plan`: where
    /// it was opened, the sink is attached, and with it the marker of the
    /// plan, in the same write; where it failed nothing changes.
    pub fn sink_opened(&mut self, plan: &SinkPlan, opened: bool)
        ensures
            *final(self) == old(self).after_open(*plan, opened),
            old(self).wf() && old(self).queued() ==> final(self).wf(),
    {
        if opened {
            if plan.placement.is_some() {
                self.spatial_sink = Some(SinkStatus { empty: false });
            } else {
                self.sink = Some(SinkStatus { empty: false });
            }
            match plan.marker {
                Some(TerminalMarker::Despawn) => {
                    self.despawn_marker = Some(PlaybackDespawnMarker);
                },
                Some(TerminalMarker::Remove) => {
                    self.remove_marker = Some(PlaybackRemoveMarker);
                },
                None => {},
            }
        }
    }
}

/// What is done to an entity whose sound has ended.
#[derive(Clone, Copy, Debug, PartialEq, Eq, Structural)]
pub enum ReapAction {
    /// The entity is removed from the world.
    Despawn { entity: u64 },
    /// The entity loses the source handle, the settings, the remove marker
    /// and the sink: the spatial one if `spatial`, else the other.
    Remove { entity: u64, spatial: bool },
}

impl AudioEntity {
    /// The entity has a source handle and a sink of the kind asked for, and
    /// that sink is reported empty.
    pub open spec fn finished(self, spatial: bool) -> bool {
        let sink = if spatial {
            self.spatial_sink
        } else {
            self.sink
        };
        self.source is Some && sink == Some(SinkStatus { empty: true })
    }

    /// The entity carries the marker.
    pub open spec fn marked(self, marker: TerminalMarker) -> bool {
        match marker {
            TerminalMarker::Despawn => self.despawn_marker is Some,
            TerminalMarker::Remove => self.remove_marker is Some,
        }
    }

    /// What the sweep for `marker` over the sinks of one kind does to the entity.
    pub open spec fn reap(self, marker: TerminalMarker, spatial: bool) -> Option<ReapAction> {
        if self.marked(marker) && self.finished(spatial) {
            Some(
                match marker {
                    TerminalMarker::Despawn => ReapAction::Despawn { entity: self.id },
                    TerminalMarker::Remove => ReapAction::Remove { entity: self.id, spatial },
                },
            )
        } else {
            None
        }
    }

    /// The entity after the action: nothing if it is despawned, else the
    /// entity without the components that the action removes.
    pub open spec fn reaped(self, action: ReapAction) -> Option<AudioEntity> {
        match action {
            ReapAction::Despawn { .. } => None,
            ReapAction::Remove { spatial, .. } => Some(
                AudioEntity {
                    source: None,
                    settings: None,
                    sink: if spatial {
                        self.sink
                    } else {
                        None
                    },
                    spatial_sink: if spatial {
                        None
                    } else {
                        self.spatial_sink
                    },
                    remove_marker: None,
                    ..self
                },
            ),
        }
    }

    /// Carries out the action on the entity: `None` if that despawns it,
    /// else the entity without the components that the action removes.
    pub fn apply_reap(self, action: &ReapAction) -> (entity: Option<AudioEntity>)
        ensures
            entity == self.reaped(*action),
            self.wf() && self.remove_marker is Some && entity is Some ==> entity->0.wf(),
    {
        match action {
            ReapAction::Despawn { .. } => None,
            ReapAction::Remove { spatial, .. } => {
                let mut entity = self;
                entity.source = None;
                entity.settings = None;
                if *spatial {
                    entity.spatial_sink = None;
                } else {
                    entity.sink = None;
                }
                entity.remove_marker = None;
                Some(entity)
            },
        }
    }
}

/// The function that gives each entity what one sweep does to it.
pub open spec fn reaper(marker: TerminalMarker, spatial: bool) -> spec_fn(AudioEntity) -> Option<
    ReapAction,
> {
    |e: AudioEntity| e.reap(marker, spatial)
}

/// All that a frame reaps: the four sweeps one after the other, first the
/// entities to despawn, those with a plain sink before those with a spatial
/// one, then the entities to strip, in the same order.
pub open spec fn reaped_of(entities: Seq<AudioEntity>) -> Seq<ReapAction> {
    entities.filter_map(reaper(TerminalMarker::Despawn, false)) + entities.filter_map(
        reaper(TerminalMarker::Despawn, true),
    ) + entities.filter_map(reaper(TerminalMarker::Remove, false)) + entities.filter_map(
        reaper(TerminalMarker::Remove, true),
    )
}

/// Decides what one sweep does to one entity.
fn reap_one(entity: &AudioEntity, marker: TerminalMarker, spatial: bool) -> (action: Option<
    ReapAction,
>)
    ensures
        action == entity.reap(marker, spatial),
{
    let marked = match marker {
        TerminalMarker::Despawn => entity.despawn_marker.is_some(),
        TerminalMarker::Remove => entity.remove_marker.is_some(),
    };
    let sink = if spatial {
        entity.spatial_sink
    } else {
        entity.sink
    };
    let empty = match sink {
        Some(status) => status.empty,
        None => false,
    };
    if marked && entity.source.is_some() && empty {
        match marker {
            TerminalMarker::Despawn => Some(ReapAction::Despawn { entity: entity.id }),
            TerminalMarker::Remove => Some(ReapAction::Remove { entity: entity.id, spatial }),
        }
    } else {
        None
    }
}

/// One sweep: appends to `actions` what is done to the entities that carry
/// the marker and whose sink of the given kind is empty.
fn sweep(
    entities: &Vec<AudioEntity>,
    marker: TerminalMarker,
    spatial: bool,
    actions: &mut Vec<ReapAction>,
)
    ensures
        final(actions)@ == old(actions)@ + entities@.filter_map(reaper(marker, spatial)),
{
    let ghost reap = reaper(marker, spatial);
    let ghost before = actions@;
    let mut i: usize = 0;
    while i < entities.len()
        invariant
            i <= entities.len(),
            reap == reaper(marker, spatial),
            actions@ == before + entities@.take(i as int).filter_map(reap),
        decreases entities.len() - i,
    {
        proof {
            entities@.lemma_filter_map_take_succ(reap, i as int);
        }
        match reap_one(&entities[i], marker, spatial) {
            Some(action) => {
                actions.push(action);
            },
            None => {},
        }
        i += 1;
    }
    proof {
        assert(entities@.take(entities@.len() as int) == entities@);
    }
}

/// Finds the entities whose sound has ended and says what is done to each.
///
/// An entity is reaped if it has a source handle, a marker, and a sink that
/// is reported empty. One that is marked for despawning is despawned; one
/// that is marked for removal loses its audio components and stays. The
/// actions come in the order of the four sweeps. Without an audio device
/// there are none.
pub fn cleanup_finished_audio(audio_output: &AudioOutput, entities: &Vec<AudioEntity>) -> (actions:
    Vec<ReapAction>)
    ensures
        !audio_output.available ==> actions@ == Seq::<ReapAction>::empty(),
        audio_output.available ==> actions@ == reaped_of(entities@),
{
    let mut actions: Vec<ReapAction> = Vec::new();
    if !audio_output.available {
        return actions;
    }
    sweep(entities, TerminalMarker::Despawn, false, &mut actions);
    sweep(entities, TerminalMarker::Despawn, true, &mut actions);
    sweep(entities, TerminalMarker::Remove, false, &mut actions);
    sweep(entities, TerminalMarker::Remove, true, &mut actions);
    actions
}

/// Run condition to only play audio if the audio output is available.
pub fn audio_output_available(audio_output: &AudioOutput) -> (available: bool)
    ensures
        available == audio_output.available,
{
    audio_output.available
}

/// A new emitter position for the spatial sink of an entity.
#[derive(Clone, Copy, Debug, PartialEq, Eq, Structural)]
pub struct EmitterUpdate {
    pub entity: u64,
    pub position: ScaledPoint,
}

/// New ear positions for the spatial sink of an entity.
#[derive(Clone, Copy, Debug, PartialEq, Eq, Structural)]
pub struct EarsUpdate {
    pub entity: u64,
    pub left_ear: ScaledPoint,
    pub right_ear: ScaledPoint,
}

impl AudioEntity {
    /// The emitter position that the entity's spatial sink is told in this
    /// frame: its own, if it has such a sink and its transform changed.
    pub open spec fn emitter_update(self, scale: SpatialScale) -> Option<EmitterUpdate> {
        if self.spatial_sink is Some && self.transform is Some && self.transform->0.changed {
            Some(
                EmitterUpdate {
                    entity: self.id,
                    position: ScaledPoint { point: self.transform->0.position, scale: scale.0 },
                },
            )
        } else {
            None
        }
    }

    /// The ear positions that the entity's spatial sink is told, if it has
    /// such a sink.
    pub open spec fn ears_update(self, ears: (ScaledPoint, ScaledPoint)) -> Option<EarsUpdate> {
        if self.spatial_sink is Some {
            Some(EarsUpdate { entity: self.id, left_ear: ears.0, right_ear: ears.1 })
        } else {
            None
        }
    }
}

/// The function that gives each entity its new emitter position.
pub open spec fn emitter_updater(scale: SpatialScale) -> spec_fn(AudioEntity) -> Option<
    EmitterUpdate,
> {
    |e: AudioEntity| e.emitter_update(scale)
}

/// The function that gives each entity its new ear positions.
pub open spec fn ears_updater(ears: (ScaledPoint, ScaledPoint)) -> spec_fn(AudioEntity) -> Option<
    EarsUpdate,
> {
    |e: AudioEntity| e.ears_update(ears)
}

/// Updates spatial audio sinks when emitter positions change.
///
/// Every entity that has a spatial sink and whose transform changed in this
/// frame has its sink told the new position, as it is, without smoothing.
/// Without an audio device nothing is told.
pub fn update_emitter_positions(
    audio_output: &AudioOutput,
    entities: &Vec<AudioEntity>,
    spatial_scale: &SpatialScale,
) -> (updates: Vec<EmitterUpdate>)
    ensures
        !audio_output.available ==> updates@ == Seq::<EmitterUpdate>::empty(),
        audio_output.available ==> updates@ == entities@.filter_map(
            emitter_updater(*spatial_scale),
        ),
{
    let mut updates: Vec<EmitterUpdate> = Vec::new();
    if !audio_output.available {
        return updates;
    }
    let ghost update = emitter_updater(*spatial_scale);
    let mut i: usize = 0;
    while i < entities.len()
        invariant
            i <= entities.len(),
            update == emitter_updater(*spatial_scale),
            updates@ == entities@.take(i as int).filter_map(update),
        decreases entities.len() - i,
    {
        proof {
            entities@.lemma_filter_map_take_succ(update, i as int);
        }
        let entity = &entities[i];
        if entity.spatial_sink.is_some() {
            match entity.transform {
                Some(transform) => {
                    if transform.changed {
                        updates.push(
                            EmitterUpdate {
                                entity: entity.id,
                                position: ScaledPoint {
                                    point: transform.position,
                                    scale: spatial_scale.0,
                                },
                            },
                        );
                    }
                },
                None => {},
            }
        }
        i += 1;
    }
    proof {
        assert(entities@.take(entities@.len() as int) == entities@);
    }
    updates
}

/// Updates spatial audio sink ear positions when spatial listeners change.
///
/// Nothing is done unless the spatial scale changed in this frame or some
/// listener did, its ears or its transform. Otherwise the ears are worked
/// out once and told to every spatial sink. Without an audio device nothing
/// is told.
pub fn update_listener_positions(
    audio_output: &AudioOutput,
    entities: &Vec<AudioEntity>,
    scale_changed: bool,
    listener_changed: bool,
    listeners: &Vec<Listener>,
    spatial_scale: &SpatialScale,
) -> (updates: Vec<EarsUpdate>)
    ensures
        !audio_output.available || (!scale_changed && !listener_changed) ==> updates@ == Seq::<
            EarsUpdate,
        >::empty(),
        audio_output.available && (scale_changed || listener_changed) ==> updates@
            == entities@.filter_map(ears_updater(ear_positions_of(listeners@, *spatial_scale))),
{
    let mut updates: Vec<EarsUpdate> = Vec::new();
    if !audio_output.available {
        return updates;
    }
    if !scale_changed && !listener_changed {
        return updates;
    }
    let ears = get_ear_positions(listeners, spatial_scale);
    let ghost update = ears_updater(ears);
    let mut i: usize = 0;
    while i < entities.len()
        invariant
            i <= entities.len(),
            update == ears_updater(ears),
            updates@ == entities@.take(i as int).filter_map(update),
        decreases entities.len() - i,
    {
        proof {
            entities@.lemma_filter_map_take_succ(update, i as int);
        }
        let entity = &entities[i];
        if entity.spatial_sink.is_some() {
            updates.push(EarsUpdate { entity: entity.id, left_ear: ears.0, right_ear: ears.1 });
        }
        i += 1;
    }
    proof {
        assert(entities@.take(entities@.len() as int) == entities@);
    }
    updates
}

} // verus!
