//! The life of a playback request over the frames, and what holds of it.
//!
//! The passes of the engine say what is to be done in one frame. Here those
//! answers are put together into the course that one entity takes from frame to
//! frame, whatever the asset store and the backend report, and the laws of the
//! engine are proved of that course.

use crate::audio::{GlobalVolume, SpatialListener, SpatialScale};
use crate::audio_output::{
    ear_positions_of, marker_of, planner, reaped_of, reaper, sink_volume_of, AudioEntity, Listener,
    ReapAction, ScaledPoint, SinkCommand, SinkPlan, SinkStatus, SinkVolume, SourceState, TerminalMarker,
};
use vstd::prelude::*;

verus! {

/// What reaches one entity from outside in one frame, in a process that has
/// an audio device. Without a device the passes ask for nothing, and there is
/// no course to follow.
pub struct Frame {
    /// What the asset store says of the entity's source.
    pub source: SourceState,
    /// Whether the backend opens a sink if it is asked for one.
    pub sink_opens: bool,
    /// Whether the backend reports the entity's sink empty.
    pub sink_empty: bool,
    /// The global volume in this frame.
    pub global_volume: GlobalVolume,
    /// The listeners in this frame.
    pub listeners: Seq<Listener>,
    /// The spatial scale in this frame.
    pub spatial_scale: SpatialScale,
}

impl ReapAction {
    /// The entity that the action is done to.
    pub open spec fn target(self) -> u64 {
        match self {
            ReapAction::Despawn { entity } => entity,
            ReapAction::Remove { entity, .. } => entity,
        }
    }
}

/// The entity after the actions, one after the other; `None` once it is despawned.
pub open spec fn after_actions(entity: Option<AudioEntity>, actions: Seq<ReapAction>) -> Option<
    AudioEntity,
>
    decreases actions.len(),
{
    if actions.len() == 0 {
        entity
    } else {
        match after_actions(entity, actions.drop_last()) {
            Some(e) => e.reaped(actions.last()),
            None => None,
        }
    }
}

impl AudioEntity {
    /// The entity as the frame finds it: the asset store has said whether the
    /// source is ready, and the backend whether the sink is empty.
    pub open spec fn observed(self, frame: Frame) -> AudioEntity {
        AudioEntity {
            source: if self.source is Some {
                Some(frame.source)
            } else {
                None
            },
            sink: if self.sink is Some {
                Some(SinkStatus { empty: frame.sink_empty })
            } else {
                None
            },
            spatial_sink: if self.spatial_sink is Some {
                Some(SinkStatus { empty: frame.sink_empty })
            } else {
                None
            },
            ..self
        }
    }

    /// The entity after the playback pass of the frame.
    pub open spec fn played(self, frame: Frame) -> AudioEntity {
        match self.sink_plan(frame.global_volume, frame.listeners, frame.spatial_scale) {
            Some(plan) => self.after_open(plan, frame.sink_opens),
            None => self,
        }
    }

    /// The entity after the cleanup pass, `None` if it was despawned.
    pub open spec fn swept(self) -> Option<AudioEntity> {
        after_actions(Some(self), reaped_of(seq![self]))
    }

    /// The entity after one frame with an audio device: it is found as the
    /// frame reports it, then the playback pass runs, then the cleanup pass.
    /// The passes that tell positions change no entity.
    pub open spec fn after_frame(self, frame: Frame) -> Option<AudioEntity> {
        self.observed(frame).played(frame).swept()
    }
}

/// The entity after the frames, one after the other; `None` once it is despawned.
pub open spec fn after_frames(entity: Option<AudioEntity>, frames: Seq<Frame>) -> Option<AudioEntity>
    decreases frames.len(),
{
    if frames.len() == 0 {
        entity
    } else {
        match after_frames(entity, frames.drop_last()) {
            Some(e) => e.after_frame(frames.last()),
            None => None,
        }
    }
}

/// What the cleanup pass does to a single entity: each of the four sweeps
/// adds its action, if it has one.
pub proof fn reaped_of_one(e: AudioEntity)
    ensures
        reaped_of(seq![e]) == option_seq(e.reap(TerminalMarker::Despawn, false)) + option_seq(
            e.reap(TerminalMarker::Despawn, true),
        ) + option_seq(e.reap(TerminalMarker::Remove, false)) + option_seq(
            e.reap(TerminalMarker::Remove, true),
        ),
{
    Seq::lemma_filter_map_singleton(e, reaper(TerminalMarker::Despawn, false));
    Seq::lemma_filter_map_singleton(e, reaper(TerminalMarker::Despawn, true));
    Seq::lemma_filter_map_singleton(e, reaper(TerminalMarker::Remove, false));
    Seq::lemma_filter_map_singleton(e, reaper(TerminalMarker::Remove, true));
}

/// The sequence that holds the value, if there is one.
pub open spec fn option_seq<T>(value: Option<T>) -> Seq<T> {
    match value {
        Some(v) => seq![v],
        None => Seq::empty(),
    }
}

/// An entity that no sweep selects is left as it is by the cleanup pass.
pub proof fn unreaped_is_unchanged(e: AudioEntity)
    requires
        forall|marker: TerminalMarker, spatial: bool| e.reap(marker, spatial) is None,
    ensures
        reaped_of(seq![e]) == Seq::<ReapAction>::empty(),
        e.swept() == Some(e),
{
    reaped_of_one(e);
    assert(e.reap(TerminalMarker::Despawn, false) is None);
    assert(e.reap(TerminalMarker::Despawn, true) is None);
    assert(e.reap(TerminalMarker::Remove, false) is None);
    assert(e.reap(TerminalMarker::Remove, true) is None);
    assert(reaped_of(seq![e]) =~= Seq::<ReapAction>::empty());
}

/// An entity that keeps the lifecycle invariant is selected by one sweep
/// at most: where a sweep has an action for it, that action is all that the
/// cleanup pass does to it.
pub proof fn reaped_by_one_sweep(e: AudioEntity, marker: TerminalMarker, spatial: bool)
    requires
        e.wf(),
        e.reap(marker, spatial) is Some,
    ensures
        reaped_of(seq![e]) == seq![e.reap(marker, spatial)->0],
        e.swept() == e.reaped(e.reap(marker, spatial)->0),
{
    reaped_of_one(e);
    let action = e.reap(marker, spatial)->0;
    assert(reaped_of(seq![e]) =~= seq![action]);
    assert(seq![action].drop_last() =~= Seq::<ReapAction>::empty());
    assert(after_actions(Some(e), seq![action].drop_last()) == Some(e));
    assert(seq![action].last() == action);
}

/// A sound without panning gets a sink without panning, and only that: a
/// queued entity whose source is ready and whose settings are not spatial
/// has, after a playback pass in which the backend opens the sink, a plain
/// sink and no spatial sink.
pub proof fn plain_request_gets_plain_sink(e: AudioEntity, frame: Frame)
    requires
        e.queued(),
        e.source == Some(SourceState::Ready),
        !e.settings->0.spatial,
        frame.sink_opens,
    ensures
        e.sink_plan(frame.global_volume, frame.listeners, frame.spatial_scale) is Some,
        e.sink_plan(frame.global_volume, frame.listeners, frame.spatial_scale)->0.placement is None,
        e.played(frame).sink is Some,
        e.played(frame).spatial_sink is None,
        !e.played(frame).queued(),
{
}

/// A spatial sound gets a spatial sink, and only that.
pub proof fn spatial_request_gets_spatial_sink(e: AudioEntity, frame: Frame)
    requires
        e.queued(),
        e.source == Some(SourceState::Ready),
        e.settings->0.spatial,
        frame.sink_opens,
    ensures
        e.sink_plan(frame.global_volume, frame.listeners, frame.spatial_scale)->0.placement is Some,
        e.played(frame).spatial_sink is Some,
        e.played(frame).sink is None,
        !e.played(frame).queued(),
{
}

/// An entity that has a sink is never given another: the playback pass
/// passes it over, whatever the frame brings.
pub proof fn playing_entity_is_passed_over(e: AudioEntity, frame: Frame)
    requires
        e.playing(),
    ensures
        e.sink_plan(frame.global_volume, frame.listeners, frame.spatial_scale) is None,
        e.played(frame) == e,
{
}

/// One frame keeps the lifecycle invariant.
pub proof fn frame_keeps_invariant(e: AudioEntity, frame: Frame)
    requires
        e.wf(),
    ensures
        e.observed(frame).wf(),
        e.observed(frame).played(frame).wf(),
        e.after_frame(frame) matches Some(next) ==> next.wf() && next.id == e.id,
{
    let played = e.observed(frame).played(frame);
    assert(played.wf());
    assert(played.id == e.id);
    if played.reap(TerminalMarker::Despawn, false) is Some {
        reaped_by_one_sweep(played, TerminalMarker::Despawn, false);
    } else if played.reap(TerminalMarker::Despawn, true) is Some {
        reaped_by_one_sweep(played, TerminalMarker::Despawn, true);
    } else if played.reap(TerminalMarker::Remove, false) is Some {
        reaped_by_one_sweep(played, TerminalMarker::Remove, false);
    } else if played.reap(TerminalMarker::Remove, true) is Some {
        reaped_by_one_sweep(played, TerminalMarker::Remove, true);
    } else {
        assert forall|marker: TerminalMarker, spatial: bool| played.reap(marker, spatial) is None by {
            match marker {
                TerminalMarker::Despawn => {},
                TerminalMarker::Remove => {},
            }
        }
        unreaped_is_unchanged(played);
    }
}

/// The passes of one frame can run in either order. The playback pass
/// followed by the cleanup pass leaves an entity as the cleanup pass followed
/// by the playback pass does, since the one acts on entities without a sink
/// and the other on entities with one.
pub proof fn passes_commute(e: AudioEntity, frame: Frame)
    requires
        e.wf(),
    ensures
        e.played(frame).swept() == match e.swept() {
            Some(swept) => Some(swept.played(frame)),
            None => None,
        },
{
    if e.sink_plan(frame.global_volume, frame.listeners, frame.spatial_scale) is Some {
        let played = e.played(frame);
        assert forall|marker: TerminalMarker, spatial: bool| e.reap(marker, spatial) is None by {
            assert(!e.finished(spatial));
        }
        assert forall|marker: TerminalMarker, spatial: bool| played.reap(marker, spatial) is None by {
            assert(!played.finished(spatial));
        }
        unreaped_is_unchanged(e);
        unreaped_is_unchanged(played);
    } else if e.reap(TerminalMarker::Despawn, false) is Some {
        reaped_by_one_sweep(e, TerminalMarker::Despawn, false);
    } else if e.reap(TerminalMarker::Despawn, true) is Some {
        reaped_by_one_sweep(e, TerminalMarker::Despawn, true);
    } else if e.reap(TerminalMarker::Remove, false) is Some {
        reaped_by_one_sweep(e, TerminalMarker::Remove, false);
    } else if e.reap(TerminalMarker::Remove, true) is Some {
        reaped_by_one_sweep(e, TerminalMarker::Remove, true);
    } else {
        assert forall|marker: TerminalMarker, spatial: bool| e.reap(marker, spatial) is None by {
            match marker {
                TerminalMarker::Despawn => {},
                TerminalMarker::Remove => {},
            }
        }
        unreaped_is_unchanged(e);
    }
}

/// A sound whose mode attaches no marker is never reaped: a queued request
/// whose mode is `Once` or `Loop` is still there after any number of
/// frames, with its source handle and its settings and without a marker,
/// whatever the asset store and the backend report in them, and be it that
/// the sink is empty. No sweep selects it; its sink stays until something
/// else takes the entity away.
pub proof fn sound_without_marker_is_never_reaped(e: AudioEntity, frames: Seq<Frame>)
    requires
        e.wf(),
        e.queued(),
        marker_of(e.settings->0.mode) is None,
    ensures
        after_frames(Some(e), frames) is Some,
        ({
            let last = after_frames(Some(e), frames)->0;
            &&& last.id == e.id
            &&& last.source is Some
            &&& last.settings == e.settings
            &&& last.despawn_marker is None
            &&& last.remove_marker is None
            &&& forall|marker: TerminalMarker, spatial: bool| last.reap(marker, spatial) is None
        }),
    decreases frames.len(),
{
    if frames.len() > 0 {
        sound_without_marker_is_never_reaped(e, frames.drop_last());
        let before = after_frames(Some(e), frames.drop_last())->0;
        let played = before.observed(frames.last()).played(frames.last());
        assert(played.despawn_marker is None && played.remove_marker is None);
        assert forall|marker: TerminalMarker, spatial: bool| played.reap(marker, spatial) is None by {
            assert(!played.marked(marker));
        }
        unreaped_is_unchanged(played);
    } else {
        assert forall|marker: TerminalMarker, spatial: bool| e.reap(marker, spatial) is None by {
            assert(!e.marked(marker));
        }
    }
}

/// A looping sound is never reaped: a queued request whose mode is `Loop`
/// is alive after any number of frames and no cleanup pass has an action
/// for it, whatever the backend reports of its sink.
pub proof fn looping_sound_is_never_reaped(e: AudioEntity, frames: Seq<Frame>)
    requires
        e.wf(),
        e.queued(),
        e.settings->0.mode is Loop,
    ensures
        after_frames(Some(e), frames) is Some,
        after_frames(Some(e), frames)->0.id == e.id,
        after_frames(Some(e), frames)->0.settings == e.settings,
        reaped_of(seq![after_frames(Some(e), frames)->0]) == Seq::<ReapAction>::empty(),
{
    sound_without_marker_is_never_reaped(e, frames);
    unreaped_is_unchanged(after_frames(Some(e), frames)->0);
}

/// A sound that is to be despawned or removed when it ends is reaped once:
/// when the sink of a marked entity is reported empty, the cleanup pass has
/// exactly one action for it. That action despawns the entity if the marker
/// says so; else it leaves the entity bare, and a second cleanup pass then
/// finds nothing to do, whatever is reported.
pub proof fn finished_sound_is_reaped_once(
    e: AudioEntity,
    marker: TerminalMarker,
    spatial: bool,
    later: Frame,
)
    requires
        e.wf(),
        e.marked(marker),
        e.finished(spatial),
    ensures
        e.reap(marker, spatial) is Some,
        reaped_of(seq![e]) == seq![e.reap(marker, spatial)->0],
        e.swept() == e.reaped(e.reap(marker, spatial)->0),
        marker is Despawn ==> e.swept() is None,
        marker is Remove ==> e.swept() is Some && e.swept()->0.bare() && e.swept()->0.id == e.id
            && e.swept()->0.transform == e.transform,
        e.swept() matches Some(next) ==> reaped_of(seq![next.observed(later)]) == Seq::<
            ReapAction,
        >::empty() && next.observed(later).swept() == Some(next),
{
    reaped_by_one_sweep(e, marker, spatial);
    if marker is Remove {
        let next = e.swept()->0;
        let seen = next.observed(later);
        assert(seen == next);
        assert forall|m: TerminalMarker, s: bool| seen.reap(m, s) is None by {
            assert(!seen.finished(s));
        }
        unreaped_is_unchanged(seen);
    }
}

/// A request that asks to be despawned or removed is reaped once, when its
/// sound has ended. It is given its sink in a frame that finds the source
/// ready, and is left alone in that frame. In a later frame that finds the
/// sink empty the cleanup pass has exactly one action for it: the entity is
/// gone if the mode is `Despawn`; if the mode is `Remove` it stays, bare, and
/// no cleanup pass after that has anything to do with it.
pub proof fn ended_request_is_reaped_once(e: AudioEntity, start: Frame, end: Frame, later: Frame)
    requires
        e.wf(),
        e.queued(),
        e.settings->0.mode is Despawn || e.settings->0.mode is Remove,
        start.source == SourceState::Ready,
        start.sink_opens,
        end.sink_empty,
    ensures
        e.after_frame(start) is Some,
        e.after_frame(start)->0.playing(),
        ({
            let ended = e.after_frame(start)->0.observed(end);
            &&& ended.played(end) == ended
            &&& reaped_of(seq![ended]).len() == 1
            &&& reaped_of(seq![ended])[0].target() == e.id
            &&& e.settings->0.mode is Despawn ==> ended.swept() is None
            &&& e.settings->0.mode is Remove ==> ended.swept() is Some && ended.swept()->0.bare()
                && ended.swept()->0.id == e.id
            &&& ended.swept() matches Some(next) ==> reaped_of(seq![next.observed(later)])
                == Seq::<ReapAction>::empty() && next.observed(later).swept() == Some(next)
        }),
{
    let played = e.observed(start).played(start);
    assert forall|marker: TerminalMarker, spatial: bool| played.reap(marker, spatial) is None by {
        assert(!played.finished(spatial));
    }
    unreaped_is_unchanged(played);
    let ended = played.observed(end);
    let marker = marker_of(e.settings->0.mode)->0;
    let spatial = e.settings->0.spatial;
    assert(ended.marked(marker));
    assert(ended.finished(spatial));
    finished_sound_is_reaped_once(ended, marker, spatial, later);
}

/// The marker that the engine attaches is the one of the mode: a request
/// that is given its sink carries the despawn marker if its mode is
/// `Despawn`, the remove marker if it is `Remove`, and no marker otherwise,
/// and its source repeats only if the mode is `Loop`.
pub proof fn marker_follows_mode(e: AudioEntity, frame: Frame)
    requires
        e.wf(),
        e.queued(),
        e.source == Some(SourceState::Ready),
        frame.sink_opens,
    ensures
        ({
            let plan = e.sink_plan(frame.global_volume, frame.listeners, frame.spatial_scale)->0;
            let mode = e.settings->0.mode;
            &&& plan.entity == e.id
            &&& plan.repeat == (mode is Loop)
            &&& plan.marker == marker_of(mode)
            &&& e.played(frame).playing()
            &&& e.played(frame).despawn_marker is Some <==> mode is Despawn
            &&& e.played(frame).remove_marker is Some <==> mode is Remove
            &&& e.played(frame).wf()
        }),
{
}

/// The volume of a sink is fixed when the sink is created. A relative
/// volume makes it the level times the global volume of that frame, an
/// absolute volume the level alone, the same under every global volume. Once
/// the entity has its sink, no later playback pass has a plan for it, and so
/// none sets a volume again, whatever the global volume has become.
pub proof fn sink_volume_is_fixed_at_creation(
    e: AudioEntity,
    frame: Frame,
    later: Frame,
    other: GlobalVolume,
)
    requires
        e.queued(),
        e.source == Some(SourceState::Ready),
        frame.sink_opens,
    ensures
        ({
            let volume = e.settings->0.volume;
            let plan = e.sink_plan(frame.global_volume, frame.listeners, frame.spatial_scale)->0;
            &&& plan.volume == sink_volume_of(volume, frame.global_volume)
            &&& volume is Relative ==> plan.volume == (SinkVolume::Scaled {
                level: volume.level(),
                global: frame.global_volume.volume,
            })
            &&& volume is Absolute ==> plan.volume == SinkVolume::Exact(volume.level())
            &&& volume is Absolute ==> plan.volume == sink_volume_of(volume, other)
            &&& plan.setup()[1] == SinkCommand::SetVolume(plan.volume)
        }),
        e.played(frame).observed(later).sink_plan(
            later.global_volume,
            later.listeners,
            later.spatial_scale,
        ) is None,
        e.played(frame).observed(later).played(later) == e.played(frame).observed(later),
{
}

/// The engine hands on the numbers it is given. Where the settings hold a
/// volume level and a speed above zero, and the global volume is a volume
/// level, the sink is set to that speed and to a volume whose factors are
/// volume levels.
pub proof fn plan_keeps_the_numbers(e: AudioEntity, frame: Frame)
    requires
        e.queued(),
        e.source == Some(SourceState::Ready),
        e.settings->0.wf(),
        frame.global_volume.wf(),
    ensures
        ({
            let plan = e.sink_plan(frame.global_volume, frame.listeners, frame.spatial_scale)->0;
            &&& plan.speed == e.settings->0.speed
            &&& plan.speed.positive()
            &&& plan.paused == e.settings->0.paused
            &&& match plan.volume {
                SinkVolume::Exact(level) => level.wf(),
                SinkVolume::Scaled { level, global } => level.wf() && global.wf(),
            }
        }),
{
}

/// The passes of one frame act on different entities. An entity that the
/// playback pass gives a sink has none yet, so in that frame no position is
/// told to it and the cleanup pass has nothing to reap of it.
pub proof fn passes_act_on_different_entities(
    e: AudioEntity,
    frame: Frame,
    ears: (ScaledPoint, ScaledPoint),
)
    requires
        e.sink_plan(frame.global_volume, frame.listeners, frame.spatial_scale) is Some,
    ensures
        e.emitter_update(frame.spatial_scale) is None,
        e.ears_update(ears) is None,
        forall|marker: TerminalMarker, spatial: bool| e.reap(marker, spatial) is None,
        reaped_of(seq![e]) == Seq::<ReapAction>::empty(),
{
    assert forall|marker: TerminalMarker, spatial: bool| e.reap(marker, spatial) is None by {
        assert(!e.finished(spatial));
    }
    unreaped_is_unchanged(e);
}

/// Spatial sinks hear with the first listener. Where there is no listener,
/// the ears are the default ones; where there are listeners, they are those
/// of the first, however many follow. Either way both are to be scaled by the
/// spatial scale.
pub proof fn ears_are_those_of_the_first_listener(listeners: Seq<Listener>, scale: SpatialScale)
    ensures
        ear_positions_of(listeners, scale).0.scale == scale.0,
        ear_positions_of(listeners, scale).1.scale == scale.0,
        listeners.len() == 0 ==> ear_positions_of(listeners, scale).0.point
            == SpatialListener::default_ears().left_ear_offset && ear_positions_of(
            listeners,
            scale,
        ).1.point == SpatialListener::default_ears().right_ear_offset,
        listeners.len() >= 1 ==> ear_positions_of(listeners, scale).0.point
            == listeners[0].left_ear && ear_positions_of(listeners, scale).1.point
            == listeners[0].right_ear,
        forall|more: Seq<Listener>|
            listeners.len() >= 1 ==> #[trigger] ear_positions_of(listeners + more, scale)
                == ear_positions_of(listeners.take(1), scale),
{
    assert forall|more: Seq<Listener>| listeners.len() >= 1 implies #[trigger] ear_positions_of(
        listeners + more,
        scale,
    ) == ear_positions_of(listeners.take(1), scale) by {
        assert((listeners + more)[0] == listeners[0]);
        assert(listeners.take(1)[0] == listeners[0]);
    }
}

/// A request waits for its source. While the asset store reports the source
/// as loading, the playback pass does nothing for the entity, frame after
/// frame. In the first frame that finds the source ready the entity is
/// given its sink, if the backend opens one.
pub proof fn request_waits_for_its_source(e: AudioEntity, waiting: Seq<Frame>, ready: Frame)
    requires
        e.wf(),
        e.queued(),
        forall|k: int| 0 <= k < waiting.len() ==> (#[trigger] waiting[k]).source
            == SourceState::Loading,
        ready.source == SourceState::Ready,
    ensures
        after_frames(Some(e), waiting) is Some,
        ({
            let waited = after_frames(Some(e), waiting)->0;
            &&& waited.queued()
            &&& waited.wf()
            &&& waiting.len() > 0 ==> waited == (AudioEntity {
                source: Some(SourceState::Loading),
                ..e
            })
            &&& waiting.len() > 0 ==> waited.sink_plan(
                ready.global_volume,
                ready.listeners,
                ready.spatial_scale,
            ) is None
            &&& waited.observed(ready).sink_plan(
                ready.global_volume,
                ready.listeners,
                ready.spatial_scale,
            ) is Some
            &&& ready.sink_opens ==> waited.observed(ready).played(ready).playing()
            &&& !ready.sink_opens ==> waited.observed(ready).played(ready) == waited.observed(ready)
        }),
    decreases waiting.len(),
{
    if waiting.len() > 0 {
        request_waits_for_its_source(e, waiting.drop_last(), ready);
        let before = after_frames(Some(e), waiting.drop_last())->0;
        let frame = waiting.last();
        let seen = before.observed(frame);
        assert(seen.played(frame) == seen);
        assert forall|marker: TerminalMarker, spatial: bool| seen.reap(marker, spatial) is None by {
            assert(!seen.finished(spatial));
        }
        unreaped_is_unchanged(seen);
    }
}

/// A sink that the backend fails to open is asked for again: the entity is
/// left as it was, and the next playback pass has the same plan for it if
/// nothing else has changed.
pub proof fn failed_open_is_retried(e: AudioEntity, frame: Frame)
    requires
        !frame.sink_opens,
    ensures
        e.played(frame) == e,
        e.played(frame).sink_plan(frame.global_volume, frame.listeners, frame.spatial_scale)
            == e.sink_plan(frame.global_volume, frame.listeners, frame.spatial_scale),
{
}

/// No two of the entities have the same identifier.
pub open spec fn distinct_ids(entities: Seq<AudioEntity>) -> bool {
    forall|i: int, j: int| 0 <= i < j < entities.len() ==> entities[i].id != entities[j].id
}

/// Of the plans, those for the entity.
pub open spec fn plans_for(plans: Seq<SinkPlan>, entity: u64) -> Seq<SinkPlan> {
    plans.filter(|plan: SinkPlan| plan.entity == entity)
}

/// Of the actions, those done to the entity.
pub open spec fn actions_for(actions: Seq<ReapAction>, entity: u64) -> Seq<ReapAction> {
    actions.filter(|action: ReapAction| action.target() == entity)
}

/// What is left of a single value under `pred`.
proof fn lemma_filter_one<B>(b: B, pred: spec_fn(B) -> bool)
    ensures
        seq![b].filter(pred) == if pred(b) {
            seq![b]
        } else {
            Seq::<B>::empty()
        },
{
    reveal_with_fuel(Seq::filter, 2);
    assert(seq![b].drop_last() =~= Seq::<B>::empty());
    assert(Seq::<B>::empty().push(b) =~= seq![b]);
}

/// What is left of `s.filter_map(f)` under `pred`, by the last value of `s`.
proof fn lemma_filter_map_filter_last<A, B>(
    s: Seq<A>,
    f: spec_fn(A) -> Option<B>,
    pred: spec_fn(B) -> bool,
)
    requires
        s.len() > 0,
    ensures
        s.filter_map(f).filter(pred) == s.drop_last().filter_map(f).filter(pred) + (if f(
            s[s.len() - 1],
        ) is Some && pred(f(s[s.len() - 1])->0) {
            seq![f(s[s.len() - 1])->0]
        } else {
            Seq::<B>::empty()
        }),
{
    let rest = s.drop_last().filter_map(f);
    match f(s.last()) {
        Some(b) => {
            assert(s.filter_map(f) == rest + seq![b]);
            Seq::filter_distributes_over_add(rest, seq![b], pred);
            lemma_filter_one(b, pred);
        },
        None => {
            assert(rest.filter(pred) + Seq::<B>::empty() =~= rest.filter(pred));
        },
    }
}

/// Where nothing that `f` yields from `s` meets `pred`, nothing is left of
/// `s.filter_map(f)` under `pred`.
proof fn lemma_filter_map_selects_none<A, B>(
    s: Seq<A>,
    f: spec_fn(A) -> Option<B>,
    pred: spec_fn(B) -> bool,
)
    requires
        forall|j: int| 0 <= j < s.len() && f(#[trigger] s[j]) is Some ==> !pred(f(s[j])->0),
    ensures
        s.filter_map(f).filter(pred) == Seq::<B>::empty(),
    decreases s.len(),
{
    if s.len() > 0 {
        let rest = s.drop_last();
        assert forall|j: int| 0 <= j < rest.len() && f(#[trigger] rest[j]) is Some implies !pred(
            f(rest[j])->0,
        ) by {
            assert(rest[j] == s[j]);
        }
        lemma_filter_map_selects_none(rest, f, pred);
        lemma_filter_map_filter_last(s, f, pred);
        assert(f(s[s.len() - 1]) is Some ==> !pred(f(s[s.len() - 1])->0));
    } else {
        reveal(Seq::filter);
    }
}

/// Where of all that `f` yields from `s` only what it yields from `s[i]`
/// meets `pred`, that is what is left of `s.filter_map(f)` under `pred`.
proof fn lemma_filter_map_selects_one<A, B>(
    s: Seq<A>,
    f: spec_fn(A) -> Option<B>,
    pred: spec_fn(B) -> bool,
    i: int,
)
    requires
        0 <= i < s.len(),
        f(s[i]) is Some ==> pred(f(s[i])->0),
        forall|j: int|
            0 <= j < s.len() && j != i && f(#[trigger] s[j]) is Some ==> !pred(f(s[j])->0),
    ensures
        s.filter_map(f).filter(pred) == option_seq(f(s[i])),
    decreases s.len(),
{
    let rest = s.drop_last();
    lemma_filter_map_filter_last(s, f, pred);
    if i == s.len() - 1 {
        assert forall|j: int| 0 <= j < rest.len() && f(#[trigger] rest[j]) is Some implies !pred(
            f(rest[j])->0,
        ) by {
            assert(rest[j] == s[j]);
        }
        lemma_filter_map_selects_none(rest, f, pred);
        assert(s.filter_map(f).filter(pred) =~= option_seq(f(s[i])));
    } else {
        assert(rest[i] == s[i]);
        assert forall|j: int|
            0 <= j < rest.len() && j != i && f(#[trigger] rest[j]) is Some implies !pred(
            f(rest[j])->0,
        ) by {
            assert(rest[j] == s[j]);
        }
        lemma_filter_map_selects_one(rest, f, pred, i);
        assert(f(s[s.len() - 1]) is Some ==> !pred(f(s[s.len() - 1])->0));
        assert(s.filter_map(f).filter(pred) =~= option_seq(f(s[i])));
    }
}

/// A sink is created at most once per request and pass: where no two
/// entities share an identifier, the plans that a playback pass has for an
/// entity are its own plan, once, or none.
pub proof fn entity_gets_its_own_plan_once(
    entities: Seq<AudioEntity>,
    global: GlobalVolume,
    listeners: Seq<Listener>,
    scale: SpatialScale,
    i: int,
)
    requires
        distinct_ids(entities),
        0 <= i < entities.len(),
    ensures
        plans_for(entities.filter_map(planner(global, listeners, scale)), entities[i].id)
            == option_seq(entities[i].sink_plan(global, listeners, scale)),
        plans_for(entities.filter_map(planner(global, listeners, scale)), entities[i].id).len()
            <= 1,
{
    lemma_filter_map_selects_one(
        entities,
        planner(global, listeners, scale),
        |plan: SinkPlan| plan.entity == entities[i].id,
        i,
    );
}

/// A finished sink is acted upon at most once: where no two entities share
/// an identifier, the actions that a cleanup pass has for an entity are
/// those that it has when the entity is alone, and for an entity that
/// keeps the lifecycle invariant that is one action or none.
pub proof fn entity_is_reaped_at_most_once(entities: Seq<AudioEntity>, i: int)
    requires
        distinct_ids(entities),
        0 <= i < entities.len(),
    ensures
        actions_for(reaped_of(entities), entities[i].id) == reaped_of(seq![entities[i]]),
        entities[i].wf() ==> actions_for(reaped_of(entities), entities[i].id).len() <= 1,
{
    let e = entities[i];
    let pred = |action: ReapAction| action.target() == entities[i].id;
    let r1 = reaper(TerminalMarker::Despawn, false);
    let r2 = reaper(TerminalMarker::Despawn, true);
    let r3 = reaper(TerminalMarker::Remove, false);
    let r4 = reaper(TerminalMarker::Remove, true);
    lemma_filter_map_selects_one(entities, r1, pred, i);
    lemma_filter_map_selects_one(entities, r2, pred, i);
    lemma_filter_map_selects_one(entities, r3, pred, i);
    lemma_filter_map_selects_one(entities, r4, pred, i);
    let s1 = entities.filter_map(r1);
    let s2 = entities.filter_map(r2);
    let s3 = entities.filter_map(r3);
    let s4 = entities.filter_map(r4);
    Seq::filter_distributes_over_add(s1, s2, pred);
    Seq::filter_distributes_over_add(s1 + s2, s3, pred);
    Seq::filter_distributes_over_add(s1 + s2 + s3, s4, pred);
    reaped_of_one(e);
}

} // verus!
