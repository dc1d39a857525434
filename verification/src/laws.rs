//! What holds of every construction, whatever the outside world reports.

use crate::core_state::CoreView;
use crate::identity::CollabObjectView;
use crate::lifecycle::{
    action_of, finalized, lemma_step_keeps_invariant, step, Action, ConstructionView, EventView,
    Protocol, Stage,
};
use crate::provider::{CollabPluginProviderType, CollabPluginType};
use vstd::prelude::*;

verus! {

/// Whether each of the events is the value of some event.
pub open spec fn representable(events: Seq<EventView>) -> bool {
    forall|i: int| 0 <= i < events.len() ==> (#[trigger] events[i]).representable()
}

/// The construction after the given events, in their order.
pub open spec fn run(v: ConstructionView, events: Seq<EventView>) -> ConstructionView
    decreases events.len(),
{
    if events.len() == 0 {
        v
    } else {
        step(run(v, events.drop_last()), events.last())
    }
}

/// How often the given events bring the construction to the stage at which
/// a flush is asked for.
pub open spec fn flushes_asked(v: ConstructionView, events: Seq<EventView>) -> nat
    decreases events.len(),
{
    if events.len() == 0 {
        0
    } else {
        let before = flushes_asked(v, events.drop_last());
        if run(v, events).stage == Stage::Flushing {
            before + 1
        } else {
            before
        }
    }
}

/// Whether the typed view has been made when a construction is at `stage`.
pub open spec fn view_made(stage: Stage) -> bool {
    match stage {
        Stage::Flushing
        | Stage::Locking
        | Stage::QueryingProvider
        | Stage::RequestingPlugins
        | Stage::AttachingPlugin(_)
        | Stage::Reinitializing
        | Stage::Releasing
        | Stage::Finished => true,
        _ => false,
    }
}

/// Whether the core can be seen by other subsystems when a construction is
/// at `stage`: only once the construction has finished.
pub open spec fn exposed(stage: Stage) -> bool {
    stage == Stage::Finished
}

/// Whether a construction has ended at `stage`.
pub open spec fn ended(stage: Stage) -> bool {
    stage is Finished || stage is Failed
}

/// How far a construction has come at `stage`: the steps are numbered in
/// the order in which they are taken.
pub open spec fn rank(stage: Stage) -> int {
    match stage {
        Stage::BuildingCore => 0,
        Stage::AttachingPersistence => 1,
        Stage::Initializing => 2,
        Stage::EnablingUndoRedo => 3,
        Stage::OpeningView => 4,
        Stage::CreatingView => 4,
        Stage::Flushing => 5,
        Stage::Locking => 6,
        Stage::QueryingProvider => 7,
        Stage::RequestingPlugins => 8,
        Stage::AttachingPlugin(index) => 9 + index,
        Stage::Reinitializing => 10 + usize::MAX,
        Stage::Releasing => 11 + usize::MAX,
        Stage::Finished => 12 + usize::MAX,
        Stage::Failed(_) => 12 + usize::MAX,
    }
}

/// A construction only moves forward: every event takes it to a later step,
/// until it has ended, and then it stays as it is. So the persistence plugin
/// is attached before the core is initialized, the core is initialized
/// before the view is made, the view is made before it is flushed, and
/// everything is done before the result is handed out.
pub proof fn lemma_steps_move_forward(v: ConstructionView, event: EventView)
    requires
        v.well_formed(),
    ensures
        ended(v.stage) ==> step(v, event) == v,
        !ended(v.stage) ==> rank(step(v, event).stage) > rank(v.stage),
{
}

/// The invariant holds all along a run.
pub proof fn lemma_run_keeps_invariant(v: ConstructionView, events: Seq<EventView>)
    requires
        v.well_formed(),
        representable(events),
    ensures
        run(v, events).well_formed(),
    decreases events.len(),
{
    if events.len() > 0 {
        lemma_run_keeps_invariant(v, events.drop_last());
        lemma_step_keeps_invariant(run(v, events.drop_last()), events.last());
    }
}

/// The count of flush attempts that a construction keeps is the number of
/// times that a flush was asked for.
pub proof fn lemma_flushes_are_counted(v: ConstructionView, events: Seq<EventView>)
    requires
        v.well_formed(),
        representable(events),
    ensures
        run(v, events).flush_attempts == v.flush_attempts + flushes_asked(v, events),
    decreases events.len(),
{
    if events.len() > 0 {
        lemma_flushes_are_counted(v, events.drop_last());
        lemma_run_keeps_invariant(v, events.drop_last());
    }
}

/// A construction from seed data asks for a flush exactly once, whether the
/// flush succeeds or not, provided that the core is built and the view made:
/// a construction that fails before that asks for none. A construction
/// without seed data never asks for one.
pub proof fn lemma_flush_exactly_once(v: ConstructionView, events: Seq<EventView>)
    requires
        v.well_formed(),
        v.flush_attempts == 0,
        representable(events),
    ensures
        flushes_asked(v, events) <= 1,
        !v.seeded ==> flushes_asked(v, events) == 0,
        v.seeded && v.protocol.has_view() && view_made(run(v, events).stage) ==> flushes_asked(
            v,
            events,
        ) == 1,
{
    lemma_flushes_are_counted(v, events);
    lemma_run_keeps_invariant(v, events);
    lemma_run_keeps_request(v, events);
}

/// A construction without seed data never makes a view from seed data and
/// never asks for a flush: what its view shows is what storage held.
pub proof fn lemma_unseeded_only_opens(v: ConstructionView, events: Seq<EventView>)
    requires
        v.well_formed(),
        !v.seeded,
        representable(events),
    ensures
        action_of(run(v, events).stage) != Action::CreateView,
        action_of(run(v, events).stage) != Action::Flush,
{
    lemma_run_keeps_invariant(v, events);
    lemma_run_keeps_request(v, events);
}

/// What was asked for does not change in a run.
pub proof fn lemma_run_keeps_request(v: ConstructionView, events: Seq<EventView>)
    ensures
        run(v, events).object == v.object,
        run(v, events).device_id == v.device_id,
        run(v, events).protocol == v.protocol,
        run(v, events).seeded == v.seeded,
        run(v, events).sync_enable == v.sync_enable,
    decreases events.len(),
{
    if events.len() > 0 {
        lemma_run_keeps_request(v, events.drop_last());
    }
}

/// A core that the builder built is seen by others only after the
/// persistence plugin was attached, as the first plugin, and the core was
/// initialized; and the initialization came after the attachment.
pub proof fn lemma_initialized_before_exposure(v: ConstructionView)
    requires
        v.well_formed(),
        v.protocol.builds(),
    ensures
        v.core.initialized ==> v.core.plugins.len() > 0 && v.core.plugins[0]
            == CollabPluginType::LocalStorage,
        view_made(v.stage) ==> v.core.initialized,
        exposed(v.stage) ==> v.core.initialized,
{
}

/// Finalizing leaves a core alone that carries a plugin for remote
/// synchronization: whatever the configuration, the provider and its offer
/// are, nothing is attached.
pub proof fn lemma_finalize_guard(
    core: CoreView,
    sync_enable: bool,
    provider: CollabPluginProviderType,
    offered: Seq<CollabPluginType>,
)
    requires
        core.has_cloud_plugin(),
    ensures
        finalized(core, sync_enable, provider, offered) == core,
{
}

/// After a core has been finalized with a remote provider that offered a
/// plugin for remote synchronization, it carries such a plugin.
pub proof fn lemma_finalize_attaches_cloud(core: CoreView, offered: Seq<CollabPluginType>)
    requires
        offered.contains(CollabPluginType::CloudStorage),
    ensures
        finalized(
            core,
            true,
            CollabPluginProviderType::AppFlowyCloud,
            offered,
        ).has_cloud_plugin(),
{
    if !core.has_cloud_plugin() {
        let i = choose|i: int| 0 <= i < offered.len() && offered[i] == CollabPluginType::CloudStorage;
        let all = core.plugins + offered;
        assert(all[core.plugins.len() + i] == CollabPluginType::CloudStorage);
    }
}

/// Finalizing twice with synchronization enabled attaches the plugins of a
/// remote provider once: the core has the same plugins after the second time
/// as after the first, given that the first time left a plugin for remote
/// synchronization on it, as it does where the provider offered one.
pub proof fn lemma_finalize_twice(
    core: CoreView,
    provider: CollabPluginProviderType,
    offered: Seq<CollabPluginType>,
    again_provider: CollabPluginProviderType,
    again_offered: Seq<CollabPluginType>,
)
    requires
        core.has_cloud_plugin() || (provider == CollabPluginProviderType::AppFlowyCloud
            && offered.contains(CollabPluginType::CloudStorage)),
    ensures
        ({
            let once = finalized(core, true, provider, offered);
            let twice = finalized(once, true, again_provider, again_offered);
            &&& twice == once
            &&& twice.plugins.len() == once.plugins.len()
        }),
{
    if !core.has_cloud_plugin() {
        lemma_finalize_attaches_cloud(core, offered);
    }
}

/// With a local provider, or with synchronization disabled, finalizing
/// attaches nothing, however often it is done.
pub proof fn lemma_finalize_local(
    core: CoreView,
    sync_enable: bool,
    provider: CollabPluginProviderType,
    offered: Seq<CollabPluginType>,
)
    requires
        !sync_enable || provider == CollabPluginProviderType::Local,
    ensures
        finalized(core, sync_enable, provider, offered).plugins == core.plugins,
{
}

/// The finalizing of a handle over `core`, before its first step.
pub open spec fn finalizing(object: CollabObjectView, core: CoreView, sync_enable: bool) -> ConstructionView {
    ConstructionView::begun(object, None, Protocol::FinalizeOnly, false, sync_enable, core)
}

/// While a handle is finalized, the core that was found when exclusive
/// access was taken is the core that the finalizing began with.
pub proof fn lemma_finalizing_locks_given_core(
    object: CollabObjectView,
    core: CoreView,
    sync_enable: bool,
    events: Seq<EventView>,
)
    requires
        representable(events),
    ensures
        run(finalizing(object, core, sync_enable), events).locked == core,
        run(finalizing(object, core, sync_enable), events).stage == Stage::Locking ==> run(
            finalizing(object, core, sync_enable),
            events,
        ).core == core,
    decreases events.len(),
{
    if events.len() > 0 {
        let begun = finalizing(object, core, sync_enable);
        lemma_finalizing_locks_given_core(object, core, sync_enable, events.drop_last());
        lemma_run_keeps_request(begun, events.drop_last());
        lemma_run_keeps_invariant(begun, events.drop_last());
    }
}

/// A handle that was finalized, and carries a plugin for remote
/// synchronization since, is not changed by being finalized again: whatever
/// the second run is told, it ends with the core that the first run left.
pub proof fn lemma_refinalize_is_idempotent(
    object: CollabObjectView,
    core: CoreView,
    sync_enable: bool,
    events: Seq<EventView>,
    again_sync_enable: bool,
    again_events: Seq<EventView>,
)
    requires
        representable(events),
        representable(again_events),
        run(finalizing(object, core, sync_enable), events).stage == Stage::Finished,
        run(finalizing(object, core, sync_enable), events).core.has_cloud_plugin(),
        run(
            finalizing(
                object,
                run(finalizing(object, core, sync_enable), events).core,
                again_sync_enable,
            ),
            again_events,
        ).stage == Stage::Finished,
    ensures
        run(
            finalizing(
                object,
                run(finalizing(object, core, sync_enable), events).core,
                again_sync_enable,
            ),
            again_events,
        ).core == run(finalizing(object, core, sync_enable), events).core,
{
    let once = run(finalizing(object, core, sync_enable), events).core;
    let second = finalizing(object, once, again_sync_enable);
    lemma_run_keeps_invariant(second, again_events);
    lemma_run_keeps_request(second, again_events);
    lemma_finalizing_locks_given_core(object, once, again_sync_enable, again_events);
}

/// A finished construction of an object without synchronization leaves the
/// core that the builder built with its persistence plugin alone: no plugin
/// for synchronization is attached.
pub proof fn lemma_unsynced_object_is_local(v: ConstructionView)
    requires
        v.well_formed(),
        v.protocol.builds(),
        v.protocol.finalizes(),
        !v.sync_enable,
        v.stage == Stage::Finished,
    ensures
        v.core.plugins == seq![CollabPluginType::LocalStorage],
        !v.core.has_cloud_plugin(),
        v.core.initialized,
{
    let built = CoreView::built();
    assert(built.plugins == seq![CollabPluginType::LocalStorage]);
    assert(!built.has_cloud_plugin()) by {
        assert forall|i: int| 0 <= i < built.plugins.len() implies built.plugins[i]
            != CollabPluginType::CloudStorage by {}
    }
}

} // verus!
