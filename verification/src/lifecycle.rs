//! The construction of one collaborative object, step by step.
//!
//! Building a core, opening a typed view over it, flushing it and attaching
//! synchronization plugins all happen outside this library. What happens in
//! which order is decided here: a [`Construction`] names the step that is due,
//! takes what came of it, and names the next one.

use crate::core_state::{CoreRecord, CoreView};
use crate::identity::{CollabObject, CollabObjectView, FlowyError};
use crate::provider::{
    CollabPluginProviderContext, CollabPluginProviderType, CollabPluginType, context_for,
};
use vstd::prelude::*;

verus! {

/// What a construction is to produce.
#[derive(Clone, Copy, Debug, PartialEq, Eq, Structural)]
pub enum Protocol {
    /// A raw core with its persistence plugin, initialized.
    CoreOnly,
    /// Nothing new: an existing handle is finalized.
    FinalizeOnly,
    /// A document.
    Document,
    /// A folder.
    Folder,
    /// A user-awareness record.
    UserAwareness,
    /// A workspace-database index over a core that the caller brings.
    WorkspaceDatabase,
}

impl Protocol {
    /// Whether the protocol builds the core itself.
    pub open spec fn builds(self) -> bool {
        self == Protocol::CoreOnly || self == Protocol::Document || self == Protocol::Folder
            || self == Protocol::UserAwareness
    }

    /// Whether the protocol ends with a finalized handle.
    pub open spec fn finalizes(self) -> bool {
        self != Protocol::CoreOnly
    }

    /// Whether an object of this protocol can be made from seed data.
    pub open spec fn seedable(self) -> bool {
        self == Protocol::Document || self == Protocol::Folder
    }

    /// Whether the protocol makes a typed view.
    pub open spec fn has_view(self) -> bool {
        self != Protocol::CoreOnly && self != Protocol::FinalizeOnly
    }
}

/// Why a construction was given up.
#[derive(Clone, Copy, Debug, PartialEq, Eq, Structural)]
pub enum Failure {
    /// The core could not be built.
    CoreRejected,
    /// The typed view could not be made.
    ViewRejected,
    /// Exclusive access to the handle could not be had.
    HandleBusy,
    /// An event was given that answers no step of the construction.
    OutOfTurn,
}

/// The step that a construction waits for, or its end.
#[derive(Clone, Copy, Debug, PartialEq, Eq, Structural)]
pub enum Stage {
    BuildingCore,
    AttachingPersistence,
    Initializing,
    EnablingUndoRedo,
    OpeningView,
    CreatingView,
    Flushing,
    Locking,
    QueryingProvider,
    RequestingPlugins,
    /// Attaching the offered plugin with this index.
    AttachingPlugin(usize),
    Reinitializing,
    Releasing,
    Finished,
    Failed(Failure),
}

/// What the caller is to do for a stage.
#[derive(Clone, Copy, Debug, PartialEq, Eq, Structural)]
pub enum Action {
    /// Build the raw core, off the calling thread.
    BuildCore,
    /// Attach the persistence adapter to the core.
    AttachPersistence,
    /// Run an initialization pass on the core.
    Initialize,
    /// Switch on undo and redo.
    EnableUndoRedo,
    /// Open the typed view over the hydrated core.
    OpenView,
    /// Make the typed view from the seed data.
    CreateView,
    /// Flush the compacted state to storage; failure is only logged.
    Flush,
    /// Wrap the view in the shared handle and take exclusive access.
    AcquireWrite,
    /// Ask the active provider for its kind.
    QueryProvider,
    /// Ask the provider for plugins, with the context of this object and a
    /// non-owning reference to the handle.
    RequestPlugins,
    /// Attach the offered plugin with this index.
    AttachPlugin(usize),
    /// Give up exclusive access.
    Release,
    /// Hand the result to the caller.
    Return,
    /// Fail with this reason.
    Fail(Failure),
}

/// What came of the step that was due.
#[derive(Debug)]
pub enum Event {
    /// The step went through.
    Completed,
    /// The step failed.
    Rejected,
    /// The kind of the active provider.
    Provider(CollabPluginProviderType),
    /// The kinds of the plugins that the provider offers, in its order.
    Plugins(Vec<CollabPluginType>),
}

/// The mathematical value of an [`Event`].
pub enum EventView {
    Completed,
    Rejected,
    Provider(CollabPluginProviderType),
    Plugins(Seq<CollabPluginType>),
}

impl EventView {
    /// Whether the event is the value of some [`Event`]: a list of offered
    /// plugins is no longer than a vector can be.
    pub open spec fn representable(self) -> bool {
        match self {
            EventView::Plugins(kinds) => kinds.len() <= usize::MAX,
            _ => true,
        }
    }
}

impl View for Event {
    type V = EventView;

    open spec fn view(&self) -> EventView {
        match self {
            Event::Completed => EventView::Completed,
            Event::Rejected => EventView::Rejected,
            Event::Provider(kind) => EventView::Provider(*kind),
            Event::Plugins(kinds) => EventView::Plugins(kinds@),
        }
    }
}

/// The action of a stage.
pub open spec fn action_of(stage: Stage) -> Action {
    match stage {
        Stage::BuildingCore => Action::BuildCore,
        Stage::AttachingPersistence => Action::AttachPersistence,
        Stage::Initializing => Action::Initialize,
        Stage::EnablingUndoRedo => Action::EnableUndoRedo,
        Stage::OpeningView => Action::OpenView,
        Stage::CreatingView => Action::CreateView,
        Stage::Flushing => Action::Flush,
        Stage::Locking => Action::AcquireWrite,
        Stage::QueryingProvider => Action::QueryProvider,
        Stage::RequestingPlugins => Action::RequestPlugins,
        Stage::AttachingPlugin(index) => Action::AttachPlugin(index),
        Stage::Reinitializing => Action::Initialize,
        Stage::Releasing => Action::Release,
        Stage::Finished => Action::Return,
        Stage::Failed(failure) => Action::Fail(failure),
    }
}

/// The stage at which the typed view is made.
pub open spec fn view_stage(seeded: bool) -> Stage {
    if seeded {
        Stage::CreatingView
    } else {
        Stage::OpeningView
    }
}

/// The stage that follows the first initialization of a core.
pub open spec fn after_initialized(protocol: Protocol, seeded: bool) -> Stage {
    match protocol {
        Protocol::CoreOnly => Stage::Finished,
        Protocol::Document => Stage::EnablingUndoRedo,
        Protocol::Folder => view_stage(seeded),
        Protocol::UserAwareness => Stage::OpeningView,
        _ => Stage::Failed(Failure::OutOfTurn),
    }
}

/// The stage at which a construction begins.
pub open spec fn first_stage(protocol: Protocol) -> Stage {
    match protocol {
        Protocol::FinalizeOnly => Stage::Locking,
        Protocol::WorkspaceDatabase => Stage::OpeningView,
        _ => Stage::BuildingCore,
    }
}

/// A core after a handle that holds it has been finalized.
///
/// A core that carries a plugin for remote synchronization is left as it
/// is. Any other core is initialized once more, after the plugins that a
/// remote provider offered have been attached, if synchronization is enabled.
pub open spec fn finalized(
    core: CoreView,
    sync_enable: bool,
    provider: CollabPluginProviderType,
    offered: Seq<CollabPluginType>,
) -> CoreView {
    if core.has_cloud_plugin() {
        core
    } else if sync_enable && provider == CollabPluginProviderType::AppFlowyCloud {
        core.attach_all(offered).initialize()
    } else {
        core.initialize()
    }
}

/// The most flush attempts that one construction makes.
pub const MAX_FLUSH_ATTEMPTS: u8 = 1;

/// The mathematical value of a [`Construction`].
pub struct ConstructionView {
    pub object: CollabObjectView,
    /// The device on whose behalf the core is built, where it is built here.
    pub device_id: Option<Seq<char>>,
    pub protocol: Protocol,
    pub seeded: bool,
    pub sync_enable: bool,
    pub stage: Stage,
    pub core: CoreView,
    /// The kind of the provider, once it has been asked.
    pub provider: Option<CollabPluginProviderType>,
    /// The plugins that the provider offered.
    pub offered: Seq<CollabPluginType>,
    /// How often a flush has been asked for.
    pub flush_attempts: nat,
    /// The core as it was when exclusive access was taken.
    pub locked: CoreView,
}

impl ConstructionView {
    /// The construction at another stage.
    pub open spec fn at(self, stage: Stage) -> ConstructionView {
        ConstructionView { stage, ..self }
    }

    /// The construction with another core.
    pub open spec fn with_core(self, core: CoreView) -> ConstructionView {
        ConstructionView { core, ..self }
    }

    /// A construction before its first step.
    pub open spec fn begun(
        object: CollabObjectView,
        device_id: Option<Seq<char>>,
        protocol: Protocol,
        seeded: bool,
        sync_enable: bool,
        core: CoreView,
    ) -> ConstructionView {
        ConstructionView {
            object,
            device_id,
            protocol,
            seeded,
            sync_enable,
            stage: first_stage(protocol),
            core,
            provider: None,
            offered: Seq::empty(),
            flush_attempts: 0,
            locked: core,
        }
    }

    /// The provider's kind, taken as local while it has not been asked.
    pub open spec fn provider_kind(self) -> CollabPluginProviderType {
        match self.provider {
            Some(kind) => kind,
            None => CollabPluginProviderType::Local,
        }
    }

    /// The core that finalizing leaves behind.
    pub open spec fn goal(self) -> CoreView {
        finalized(self.locked, self.sync_enable, self.provider_kind(), self.offered)
    }

    /// Whether no provider has been asked for anything yet.
    pub open spec fn unsynced(self) -> bool {
        self.provider is None && self.offered.len() == 0
    }

    /// How many flushes a construction has asked for once the view is made.
    pub open spec fn due_flushes(self) -> nat {
        if self.seeded {
            1
        } else {
            0
        }
    }

    /// What holds of the provider and its offer once exclusive access has
    /// been taken and the guard against a second attachment has been passed.
    pub open spec fn provider_consistent(self) -> bool {
        &&& self.provider is Some ==> self.sync_enable && !self.locked.has_cloud_plugin()
        &&& self.provider != Some(CollabPluginProviderType::AppFlowyCloud) ==> self.offered.len()
            == 0
    }

    /// Whether the provider has been asked wherever finalizing asks it.
    pub open spec fn provider_asked(self) -> bool {
        self.provider is Some <==> self.sync_enable && !self.locked.has_cloud_plugin()
    }

    /// What holds while the handle is held exclusively.
    pub open spec fn held(self) -> bool {
        &&& self.protocol.finalizes()
        &&& self.flush_attempts == self.due_flushes()
        &&& self.protocol.builds() ==> self.locked == CoreView::built()
        &&& self.provider_consistent()
    }

    /// The invariant of a construction: at each stage, what has been done to
    /// the core, asked of the provider and flushed is what the steps before
    /// that stage do, and nothing else.
    pub open spec fn well_formed(self) -> bool {
        &&& self.seeded ==> self.protocol.seedable()
        &&& self.protocol.builds() <==> self.device_id is Some
        &&& self.flush_attempts <= self.due_flushes()
        &&& self.offered.len() <= usize::MAX
        &&& self.protocol.builds() ==> self.core.persistence_first()
        &&& match self.stage {
            Stage::BuildingCore | Stage::AttachingPersistence => {
                &&& self.protocol.builds()
                &&& self.core == CoreView::fresh()
                &&& self.unsynced()
                &&& self.flush_attempts == 0
            },
            Stage::Initializing => {
                &&& self.protocol.builds()
                &&& self.core == CoreView::fresh().attach(CollabPluginType::LocalStorage)
                &&& self.unsynced()
                &&& self.flush_attempts == 0
            },
            Stage::EnablingUndoRedo => {
                &&& self.protocol == Protocol::Document
                &&& self.core == CoreView::built()
                &&& self.unsynced()
                &&& self.flush_attempts == 0
            },
            Stage::OpeningView => {
                &&& self.protocol.has_view()
                &&& !self.seeded
                &&& self.protocol.builds() ==> self.core == CoreView::built()
                &&& self.unsynced()
                &&& self.flush_attempts == 0
            },
            Stage::CreatingView => {
                &&& self.seeded
                &&& self.core == CoreView::built()
                &&& self.unsynced()
                &&& self.flush_attempts == 0
            },
            Stage::Flushing => {
                &&& self.seeded
                &&& self.core == CoreView::built()
                &&& self.unsynced()
                &&& self.flush_attempts == 1
            },
            Stage::Locking => {
                &&& self.protocol.finalizes()
                &&& self.flush_attempts == self.due_flushes()
                &&& self.protocol.builds() ==> self.core == CoreView::built()
                &&& self.unsynced()
            },
            Stage::QueryingProvider => {
                &&& self.held()
                &&& self.core == self.locked
                &&& self.sync_enable
                &&& !self.locked.has_cloud_plugin()
                &&& self.unsynced()
            },
            Stage::RequestingPlugins => {
                &&& self.held()
                &&& self.core == self.locked
                &&& self.provider == Some(CollabPluginProviderType::AppFlowyCloud)
                &&& self.offered.len() == 0
            },
            Stage::AttachingPlugin(index) => {
                &&& self.held()
                &&& self.provider == Some(CollabPluginProviderType::AppFlowyCloud)
                &&& index < self.offered.len()
                &&& self.core == self.locked.attach_all(self.offered.take(index as int))
            },
            Stage::Reinitializing => {
                &&& self.held()
                &&& self.provider_asked()
                &&& !self.locked.has_cloud_plugin()
                &&& self.core == self.locked.attach_all(self.offered)
            },
            Stage::Releasing => {
                &&& self.held()
                &&& self.provider_asked()
                &&& self.core == self.goal()
            },
            Stage::Finished => if self.protocol.finalizes() {
                &&& self.held()
                &&& self.provider_asked()
                &&& self.core == self.goal()
            } else {
                &&& self.core == CoreView::built()
                &&& self.unsynced()
                &&& self.flush_attempts == 0
            },
            Stage::Failed(_) => true,
        }
    }
}

/// The construction after one event.
///
/// The steps follow one another in a fixed order; an event that answers no
/// step of the stage ends the construction with `OutOfTurn`, and a
/// construction that has ended stays as it is. The core cannot be built or
/// the view not made: the construction fails. A flush that fails does not:
/// the next save will store the object. Finalizing leaves a handle alone
/// that carries a plugin for remote synchronization, asks the provider only
/// if synchronization is enabled, attaches what a remote provider offers,
/// one plugin after the other, and initializes once more.
pub open spec fn step(v: ConstructionView, event: EventView) -> ConstructionView {
    match (v.stage, event) {
        (Stage::Finished, _) => v,
        (Stage::Failed(_), _) => v,
        (Stage::BuildingCore, EventView::Completed) => v.at(Stage::AttachingPersistence),
        (Stage::BuildingCore, EventView::Rejected) => v.at(Stage::Failed(Failure::CoreRejected)),
        (Stage::AttachingPersistence, EventView::Completed) => v.with_core(
            v.core.attach(CollabPluginType::LocalStorage),
        ).at(Stage::Initializing),
        (Stage::Initializing, EventView::Completed) => v.with_core(v.core.initialize()).at(
            after_initialized(v.protocol, v.seeded),
        ),
        (Stage::EnablingUndoRedo, EventView::Completed) => v.at(view_stage(v.seeded)),
        (Stage::OpeningView, EventView::Completed) => v.at(Stage::Locking),
        (Stage::OpeningView, EventView::Rejected) => v.at(Stage::Failed(Failure::ViewRejected)),
        (Stage::CreatingView, EventView::Completed) => if v.flush_attempts < MAX_FLUSH_ATTEMPTS {
            ConstructionView { flush_attempts: v.flush_attempts + 1, ..v }.at(Stage::Flushing)
        } else {
            v.at(Stage::Failed(Failure::OutOfTurn))
        },
        (Stage::CreatingView, EventView::Rejected) => v.at(Stage::Failed(Failure::ViewRejected)),
        (Stage::Flushing, EventView::Completed) => v.at(Stage::Locking),
        (Stage::Flushing, EventView::Rejected) => v.at(Stage::Locking),
        (Stage::Locking, EventView::Completed) => {
            let held = ConstructionView { locked: v.core, ..v };
            if v.core.has_cloud_plugin() {
                held.at(Stage::Releasing)
            } else if v.sync_enable {
                held.at(Stage::QueryingProvider)
            } else {
                held.at(Stage::Reinitializing)
            }
        },
        (Stage::Locking, EventView::Rejected) => v.at(Stage::Failed(Failure::HandleBusy)),
        (Stage::QueryingProvider, EventView::Provider(kind)) => ConstructionView {
            provider: Some(kind),
            ..v
        }.at(
            if kind == CollabPluginProviderType::AppFlowyCloud {
                Stage::RequestingPlugins
            } else {
                Stage::Reinitializing
            },
        ),
        (Stage::RequestingPlugins, EventView::Plugins(kinds)) => ConstructionView {
            offered: kinds,
            ..v
        }.at(
            if kinds.len() == 0 {
                Stage::Reinitializing
            } else {
                Stage::AttachingPlugin(0)
            },
        ),
        (Stage::AttachingPlugin(index), EventView::Completed) => if index < v.offered.len() {
            v.with_core(v.core.attach(v.offered[index as int])).at(
                if index + 1 < v.offered.len() {
                    Stage::AttachingPlugin((index + 1) as usize)
                } else {
                    Stage::Reinitializing
                },
            )
        } else {
            v.at(Stage::Failed(Failure::OutOfTurn))
        },
        (Stage::Reinitializing, EventView::Completed) => v.with_core(v.core.initialize()).at(
            Stage::Releasing,
        ),
        (Stage::Releasing, EventView::Completed) => v.at(Stage::Finished),
        _ => v.at(Stage::Failed(Failure::OutOfTurn)),
    }
}

/// The construction of one object.
pub struct Construction {
    object: CollabObject,
    device_id: Option<String>,
    protocol: Protocol,
    seeded: bool,
    sync_enable: bool,
    stage: Stage,
    core: CoreRecord,
    provider: Option<CollabPluginProviderType>,
    offered: Vec<CollabPluginType>,
    flush_attempts: u8,
    locked: Ghost<CoreView>,
}

impl View for Construction {
    type V = ConstructionView;

    closed spec fn view(&self) -> ConstructionView {
        ConstructionView {
            object: self.object@,
            device_id: match self.device_id {
                Some(id) => Some(id@),
                None => None,
            },
            protocol: self.protocol,
            seeded: self.seeded,
            sync_enable: self.sync_enable,
            stage: self.stage,
            core: self.core@,
            provider: self.provider,
            offered: self.offered@,
            flush_attempts: self.flush_attempts as nat,
            locked: self.locked@,
        }
    }
}

/// Whether `begun` is what beginning a construction gives, after the
/// application was asked for the device: the error of a device that is not
/// known, or else a construction at its first step, for that device and a
/// fresh core.
pub open spec fn begins_on_device(
    begun: Result<Construction, FlowyError>,
    object: CollabObjectView,
    device_id: Result<String, FlowyError>,
    protocol: Protocol,
    seeded: bool,
    sync_enable: bool,
) -> bool {
    match device_id {
        Err(err) => begun == Err::<Construction, FlowyError>(err),
        Ok(device_id) => {
            &&& begun is Ok
            &&& begun.unwrap()@ == ConstructionView::begun(
                object,
                Some(device_id@),
                protocol,
                seeded,
                sync_enable,
                CoreView::fresh(),
            )
            &&& begun.unwrap()@.well_formed()
        },
    }
}

/// The view of an optional text.
pub open spec fn text_of(text: Option<String>) -> Option<Seq<char>> {
    match text {
        Some(text) => Some(text@),
        None => None,
    }
}

impl Construction {
    fn begin(
        object: CollabObject,
        device_id: Option<String>,
        protocol: Protocol,
        seeded: bool,
        sync_enable: bool,
        core: CoreRecord,
    ) -> (made: Self)
        ensures
            made@ == ConstructionView::begun(
                object@,
                text_of(device_id),
                protocol,
                seeded,
                sync_enable,
                core@,
            ),
    {
        let stage = match protocol {
            Protocol::FinalizeOnly => Stage::Locking,
            Protocol::WorkspaceDatabase => Stage::OpeningView,
            _ => Stage::BuildingCore,
        };
        let locked = Ghost(core@);
        Construction {
            object,
            device_id,
            protocol,
            seeded,
            sync_enable,
            stage,
            core,
            provider: None,
            offered: Vec::new(),
            flush_attempts: 0,
            locked,
        }
    }

    /// Begins a construction that builds its core, given what the
    /// application said of the device: its error is passed on, and nothing is
    /// begun.
    fn begin_on_device(
        object: CollabObject,
        device_id: Result<String, FlowyError>,
        protocol: Protocol,
        seeded: bool,
        sync_enable: bool,
    ) -> (begun: Result<Self, FlowyError>)
        requires
            protocol.builds(),
            seeded ==> protocol.seedable(),
        ensures
            begins_on_device(begun, object@, device_id, protocol, seeded, sync_enable),
    {
        match device_id {
            Ok(device_id) => Ok(
                Self::begin(
                    object,
                    Some(device_id),
                    protocol,
                    seeded,
                    sync_enable,
                    CoreRecord::new(),
                ),
            ),
            Err(err) => Err(err),
        }
    }

    /// The construction of a raw core for `object`: the core is built, gets
    /// its persistence plugin and is initialized.
    pub fn core_only(object: CollabObject, device_id: Result<String, FlowyError>) -> (begun: Result<
        Self,
        FlowyError,
    >)
        ensures
            begins_on_device(begun, object@, device_id, Protocol::CoreOnly, false, false),
    {
        Self::begin_on_device(object, device_id, Protocol::CoreOnly, false, false)
    }

    /// The construction of a document, from seed data if `seeded`.
    pub fn document(
        object: CollabObject,
        device_id: Result<String, FlowyError>,
        seeded: bool,
        sync_enable: bool,
    ) -> (begun: Result<Self, FlowyError>)
        ensures
            begins_on_device(begun, object@, device_id, Protocol::Document, seeded, sync_enable),
    {
        Self::begin_on_device(object, device_id, Protocol::Document, seeded, sync_enable)
    }

    /// The construction of a folder, from seed data if `seeded`.
    pub fn folder(
        object: CollabObject,
        device_id: Result<String, FlowyError>,
        seeded: bool,
        sync_enable: bool,
    ) -> (begun: Result<Self, FlowyError>)
        ensures
            begins_on_device(begun, object@, device_id, Protocol::Folder, seeded, sync_enable),
    {
        Self::begin_on_device(object, device_id, Protocol::Folder, seeded, sync_enable)
    }

    /// The construction of a user-awareness record.
    pub fn user_awareness(
        object: CollabObject,
        device_id: Result<String, FlowyError>,
        sync_enable: bool,
    ) -> (begun: Result<Self, FlowyError>)
        ensures
            begins_on_device(begun, object@, device_id, Protocol::UserAwareness, false, sync_enable),
    {
        Self::begin_on_device(object, device_id, Protocol::UserAwareness, false, sync_enable)
    }

    /// The construction of a workspace-database index over the core that
    /// `core` records.
    pub fn workspace_database(object: CollabObject, core: CoreRecord, sync_enable: bool) -> (made:
        Self)
        ensures
            made@ == ConstructionView::begun(
                object@,
                None,
                Protocol::WorkspaceDatabase,
                false,
                sync_enable,
                core@,
            ),
            made@.well_formed(),
    {
        Self::begin(object, None, Protocol::WorkspaceDatabase, false, sync_enable, core)
    }

    /// The finalizing of a handle over the core that `core` records.
    pub fn finalize_only(object: CollabObject, core: CoreRecord, sync_enable: bool) -> (made: Self)
        ensures
            made@ == ConstructionView::begun(
                object@,
                None,
                Protocol::FinalizeOnly,
                false,
                sync_enable,
                core@,
            ),
            made@.well_formed(),
    {
        Self::begin(object, None, Protocol::FinalizeOnly, false, sync_enable, core)
    }

    /// The stage that the construction is at.
    pub fn stage(&self) -> (stage: Stage)
        ensures
            stage == self@.stage,
    {
        self.stage
    }

    /// What the caller is to do now.
    pub fn pending(&self) -> (action: Action)
        ensures
            action == action_of(self@.stage),
    {
        match self.stage {
            Stage::BuildingCore => Action::BuildCore,
            Stage::AttachingPersistence => Action::AttachPersistence,
            Stage::Initializing => Action::Initialize,
            Stage::EnablingUndoRedo => Action::EnableUndoRedo,
            Stage::OpeningView => Action::OpenView,
            Stage::CreatingView => Action::CreateView,
            Stage::Flushing => Action::Flush,
            Stage::Locking => Action::AcquireWrite,
            Stage::QueryingProvider => Action::QueryProvider,
            Stage::RequestingPlugins => Action::RequestPlugins,
            Stage::AttachingPlugin(index) => Action::AttachPlugin(index),
            Stage::Reinitializing => Action::Initialize,
            Stage::Releasing => Action::Release,
            Stage::Finished => Action::Return,
            Stage::Failed(failure) => Action::Fail(failure),
        }
    }

    /// How the construction ended, once it has: `Ok` where the result is to be
    /// handed to the caller, the reason where it was given up.
    pub fn outcome(&self) -> (outcome: Option<Result<(), Failure>>)
        ensures
            outcome == match self@.stage {
                Stage::Finished => Some(Ok::<(), Failure>(())),
                Stage::Failed(failure) => Some(Err::<(), Failure>(failure)),
                _ => None::<Result<(), Failure>>,
            },
    {
        match self.stage {
            Stage::Finished => Some(Ok(())),
            Stage::Failed(failure) => Some(Err(failure)),
            _ => None,
        }
    }

    /// The identity of the object under construction.
    pub fn object(&self) -> (object: &CollabObject)
        ensures
            object@ == self@.object,
    {
        &self.object
    }

    /// The device on whose behalf the core is built, where it is built here.
    pub fn device_id(&self) -> (device_id: &Option<String>)
        ensures
            text_of(*device_id) == self@.device_id,
    {
        &self.device_id
    }

    /// The record of the core.
    pub fn core_record(&self) -> (core: &CoreRecord)
        ensures
            core@ == self@.core,
    {
        &self.core
    }

    /// Gives up the construction and keeps the record of its core.
    pub fn into_core(self) -> (core: CoreRecord)
        ensures
            core@ == self@.core,
    {
        self.core
    }

    /// What the construction is to produce.
    pub fn protocol(&self) -> (protocol: Protocol)
        ensures
            protocol == self@.protocol,
    {
        self.protocol
    }

    /// Whether synchronization plugins may be attached.
    pub fn sync_enable(&self) -> (sync_enable: bool)
        ensures
            sync_enable == self@.sync_enable,
    {
        self.sync_enable
    }

    /// Whether the object is made from seed data.
    pub fn seeded(&self) -> (seeded: bool)
        ensures
            seeded == self@.seeded,
    {
        self.seeded
    }

    /// How often a flush has been asked for.
    pub fn flush_attempts(&self) -> (attempts: u8)
        ensures
            attempts == self@.flush_attempts,
    {
        self.flush_attempts
    }

    /// How many plugins the provider offered.
    pub fn offered_count(&self) -> (count: usize)
        ensures
            count == self@.offered.len(),
    {
        self.offered.len()
    }

    /// The context that the provider is asked with, once its kind is known.
    pub fn provider_context(&self) -> (context: Option<CollabPluginProviderContext>)
        ensures
            match self@.provider {
                Some(kind) => context is Some && context.unwrap()@ == context_for(
                    kind,
                    self@.object,
                ),
                None => context is None,
            },
    {
        match self.provider {
            Some(kind) => Some(CollabPluginProviderContext::for_provider(kind, &self.object)),
            None => None,
        }
    }

    /// Takes what came of the step that was due and moves to the next one.
    pub fn advance(self, event: Event) -> (next: Self)
        ensures
            next@ == step(self@, event@),
            self@.well_formed() ==> next@.well_formed(),
    {
        proof {
            if let Event::Plugins(kinds) = &event {
                assert(kinds@.len() == kinds.len());
            }
            lemma_step_keeps_invariant(self@, event@);
        }
        let mut next = self;
        let out_of_turn = Stage::Failed(Failure::OutOfTurn);
        match next.stage {
            Stage::Finished => {},
            Stage::Failed(_) => {},
            Stage::BuildingCore => match event {
                Event::Completed => {
                    next.stage = Stage::AttachingPersistence;
                },
                Event::Rejected => {
                    next.stage = Stage::Failed(Failure::CoreRejected);
                },
                _ => {
                    next.stage = out_of_turn;
                },
            },
            Stage::AttachingPersistence => match event {
                Event::Completed => {
                    next.core.add_plugin(CollabPluginType::LocalStorage);
                    next.stage = Stage::Initializing;
                },
                _ => {
                    next.stage = out_of_turn;
                },
            },
            Stage::Initializing => match event {
                Event::Completed => {
                    next.core.initialize();
                    next.stage = match next.protocol {
                        Protocol::CoreOnly => Stage::Finished,
                        Protocol::Document => Stage::EnablingUndoRedo,
                        Protocol::Folder => if next.seeded {
                            Stage::CreatingView
                        } else {
                            Stage::OpeningView
                        },
                        Protocol::UserAwareness => Stage::OpeningView,
                        _ => out_of_turn,
                    };
                },
                _ => {
                    next.stage = out_of_turn;
                },
            },
            Stage::EnablingUndoRedo => match event {
                Event::Completed => {
                    next.stage = if next.seeded {
                        Stage::CreatingView
                    } else {
                        Stage::OpeningView
                    };
                },
                _ => {
                    next.stage = out_of_turn;
                },
            },
            Stage::OpeningView => match event {
                Event::Completed => {
                    next.stage = Stage::Locking;
                },
                Event::Rejected => {
                    next.stage = Stage::Failed(Failure::ViewRejected);
                },
                _ => {
                    next.stage = out_of_turn;
                },
            },
            Stage::CreatingView => match event {
                Event::Completed => {
                    if next.flush_attempts < MAX_FLUSH_ATTEMPTS {
                        next.flush_attempts = next.flush_attempts + 1;
                        next.stage = Stage::Flushing;
                    } else {
                        next.stage = out_of_turn;
                    }
                },
                Event::Rejected => {
                    next.stage = Stage::Failed(Failure::ViewRejected);
                },
                _ => {
                    next.stage = out_of_turn;
                },
            },
            Stage::Flushing => match event {
                Event::Completed => {
                    next.stage = Stage::Locking;
                },
                Event::Rejected => {
                    next.stage = Stage::Locking;
                },
                _ => {
                    next.stage = out_of_turn;
                },
            },
            Stage::Locking => match event {
                Event::Completed => {
                    next.locked = Ghost(next.core@);
                    next.stage = if next.core.has_cloud_plugin() {
                        Stage::Releasing
                    } else if next.sync_enable {
                        Stage::QueryingProvider
                    } else {
                        Stage::Reinitializing
                    };
                },
                Event::Rejected => {
                    next.stage = Stage::Failed(Failure::HandleBusy);
                },
                _ => {
                    next.stage = out_of_turn;
                },
            },
            Stage::QueryingProvider => match event {
                Event::Provider(kind) => {
                    next.provider = Some(kind);
                    next.stage = match kind {
                        CollabPluginProviderType::AppFlowyCloud => Stage::RequestingPlugins,
                        CollabPluginProviderType::Local => Stage::Reinitializing,
                    };
                },
                _ => {
                    next.stage = out_of_turn;
                },
            },
            Stage::RequestingPlugins => match event {
                Event::Plugins(kinds) => {
                    next.stage = if kinds.len() == 0 {
                        Stage::Reinitializing
                    } else {
                        Stage::AttachingPlugin(0)
                    };
                    next.offered = kinds;
                },
                _ => {
                    next.stage = out_of_turn;
                },
            },
            Stage::AttachingPlugin(index) => match event {
                Event::Completed => {
                    if index < next.offered.len() {
                        let kind = next.offered[index];
                        next.core.add_plugin(kind);
                        next.stage = if index + 1 < next.offered.len() {
                            Stage::AttachingPlugin(index + 1)
                        } else {
                            Stage::Reinitializing
                        };
                    } else {
                        next.stage = out_of_turn;
                    }
                },
                _ => {
                    next.stage = out_of_turn;
                },
            },
            Stage::Reinitializing => match event {
                Event::Completed => {
                    next.core.initialize();
                    next.stage = Stage::Releasing;
                },
                _ => {
                    next.stage = out_of_turn;
                },
            },
            Stage::Releasing => match event {
                Event::Completed => {
                    next.stage = Stage::Finished;
                },
                _ => {
                    next.stage = out_of_turn;
                },
            },
        }
        next
    }
}

/// A construction that has just begun is well formed, provided that only a
/// document or a folder is seeded, that the device is known exactly where the
/// core is built here, and that a core built here starts fresh.
pub proof fn lemma_begun_well_formed(
    object: CollabObjectView,
    device_id: Option<Seq<char>>,
    protocol: Protocol,
    seeded: bool,
    sync_enable: bool,
    core: CoreView,
)
    requires
        seeded ==> protocol.seedable(),
        protocol.builds() <==> device_id is Some,
        protocol.builds() ==> core == CoreView::fresh(),
    ensures
        ConstructionView::begun(object, device_id, protocol, seeded, sync_enable, core).well_formed(),
{
}

/// Every step keeps the invariant of a construction.
pub proof fn lemma_step_keeps_invariant(v: ConstructionView, event: EventView)
    requires
        event.representable(),
    ensures
        v.well_formed() ==> step(v, event).well_formed(),
{
    if v.well_formed() {
        match v.stage {
            Stage::Locking => {
                assert(v.core.attach_all(Seq::empty()) == v.core);
            },
            Stage::QueryingProvider => {
                assert(v.locked.attach_all(v.offered) == v.locked);
            },
            Stage::RequestingPlugins => {
                if let EventView::Plugins(kinds) = event {
                    assert(kinds.take(0) == Seq::<CollabPluginType>::empty());
                    assert(v.locked.attach_all(Seq::empty()) == v.locked);
                    if kinds.len() == 0 {
                        assert(kinds == Seq::<CollabPluginType>::empty());
                    }
                }
            },
            Stage::AttachingPlugin(index) => {
                let i = index as int;
                assert((v.locked.plugins + v.offered.take(i)).push(v.offered[i])
                    == v.locked.plugins + v.offered.take(i + 1));
                if i + 1 == v.offered.len() {
                    assert(v.offered.take(i + 1) == v.offered);
                }
            },
            Stage::Reinitializing => {
                if v.provider != Some(CollabPluginProviderType::AppFlowyCloud) {
                    assert(v.locked.attach_all(v.offered) == v.locked);
                }
            },
            _ => {},
        }
    }
}

/// Whether exclusive access to the handle is held at `stage`.
pub open spec fn holds_exclusive_access(stage: Stage) -> bool {
    match stage {
        Stage::QueryingProvider
        | Stage::RequestingPlugins
        | Stage::AttachingPlugin(_)
        | Stage::Reinitializing
        | Stage::Releasing => true,
        _ => false,
    }
}

/// Finalizing happens under exclusive access from its first check to its
/// last: the provider is asked, plugins are attached and the core is
/// initialized again only between the taking of exclusive access and its
/// release, and a construction is finished only by that release or by the
/// first initialization of a core that nobody else has seen.
pub proof fn lemma_finalize_is_bracketed(v: ConstructionView, event: EventView)
    ensures
        holds_exclusive_access(step(v, event).stage) ==> holds_exclusive_access(v.stage) || (
        v.stage == Stage::Locking && event == EventView::Completed),
        step(v, event).stage == Stage::Finished ==> v.stage == Stage::Finished || (v.stage
            == Stage::Releasing && event == EventView::Completed) || (v.stage
            == Stage::Initializing && v.protocol == Protocol::CoreOnly),
        holds_exclusive_access(v.stage) && !holds_exclusive_access(step(v, event).stage) ==> step(
            v,
            event,
        ).stage == Stage::Finished || step(v, event).stage == Stage::Failed(Failure::OutOfTurn),
{
}

} // verus!
