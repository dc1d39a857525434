//! The object builder: the entry points through which collaborative objects
//! are made.

use crate::config::CollabBuilderConfig;
use crate::connect_state::{state_for, CollabConnectReachability, CollabConnectState};
use crate::core_state::{CoreRecord, CoreView};
use crate::identity::{
    check_workspace, checked_identity, identity_view, CollabObject, CollabType, FlowyError,
    IdentityError, WorkspaceCollabIntegrate,
};
use crate::ids::Uuid;
use crate::lifecycle::{Construction, ConstructionView, Protocol};
use crate::persistence::{StorageKey, StorageRun, StorageStage, StorageTask};
use vstd::prelude::*;

verus! {

/// Builds collaborative objects for the workspace that the application has
/// open.
pub struct AppFlowyCollabBuilder<W: WorkspaceCollabIntegrate> {
    network_reachability: CollabConnectReachability,
    workspace_integrate: W,
}

impl<W: WorkspaceCollabIntegrate> AppFlowyCollabBuilder<W> {
    /// The reachability of the network, as the builder was last told.
    pub closed spec fn connect_state(&self) -> CollabConnectState {
        self.network_reachability.state
    }

    /// The application that the builder was made for.
    pub closed spec fn host(&self) -> W {
        self.workspace_integrate
    }

    /// A builder for the given application. The network counts as reachable
    /// until the builder is told otherwise.
    pub fn new(workspace_integrate: W) -> (builder: Self)
        ensures
            builder.connect_state() == CollabConnectState::Connected,
            builder.host() == workspace_integrate,
    {
        AppFlowyCollabBuilder {
            network_reachability: CollabConnectReachability::new(),
            workspace_integrate,
        }
    }

    /// The application that the builder asks about the open workspace.
    pub fn workspace_integrate(&self) -> (host: &W)
        ensures
            *host == self.host(),
    {
        &self.workspace_integrate
    }

    /// Records whether the network can be reached.
    pub fn update_network(&mut self, reachable: bool)
        ensures
            final(self).connect_state() == state_for(reachable),
            final(self).host() == old(self).host(),
    {
        if reachable {
            self.network_reachability.set_state(CollabConnectState::Connected);
        } else {
            self.network_reachability.set_state(CollabConnectState::Disconnected);
        }
    }

    /// The reachability of the network, as synchronization plugins read it.
    pub fn network_state(&self) -> (state: CollabConnectState)
        ensures
            state == self.connect_state(),
    {
        self.network_reachability.state()
    }

    /// Makes the identity of an object, after holding the workspace of the
    /// request against the workspace that is open. The device is asked for
    /// only when the workspaces agree.
    pub fn collab_object(
        &self,
        workspace_id: &Uuid,
        uid: i64,
        object_id: &Uuid,
        collab_type: CollabType,
    ) -> (made: Result<CollabObject, IdentityError>)
        ensures
            match made {
                Ok(object) => object@ == identity_view(
                    *workspace_id,
                    uid,
                    *object_id,
                    collab_type,
                    object@.device_id,
                ),
                Err(IdentityError::IdentityMismatch { expected, actual }) => expected
                    == *workspace_id && actual != *workspace_id,
                Err(IdentityError::Integrate(_)) => true,
            },
    {
        let active = match self.workspace_integrate.workspace_id() {
            Ok(active) => active,
            Err(err) => {
                return Err(IdentityError::Integrate(err));
            },
        };
        match check_workspace(workspace_id, &active) {
            Err(err) => {
                return Err(err);
            },
            Ok(()) => {},
        }
        let device_id = self.workspace_integrate.device_id();
        checked_identity(workspace_id, Ok(active), uid, object_id, collab_type, device_id)
    }

    /// Begins the construction of a document, from seed data if `seeded`.
    /// Nothing is begun where the application cannot name the device.
    pub fn create_document(
        &self,
        object: CollabObject,
        builder_config: CollabBuilderConfig,
        seeded: bool,
    ) -> (begun: Result<Construction, FlowyError>)
        requires
            object.collab_type == CollabType::Document,
        ensures
            begun matches Ok(construction) ==> construction@.well_formed() && construction@.device_id
                is Some && construction@ == ConstructionView::begun(
                object@,
                construction@.device_id,
                Protocol::Document,
                seeded,
                builder_config.sync_enable,
                CoreView::fresh(),
            ),
    {
        Construction::document(
            object,
            self.workspace_integrate.device_id(),
            seeded,
            builder_config.sync_enable,
        )
    }

    /// Begins the construction of a folder, from seed data if `seeded`.
    /// Nothing is begun where the application cannot name the device.
    pub fn create_folder(
        &self,
        object: CollabObject,
        builder_config: CollabBuilderConfig,
        seeded: bool,
    ) -> (begun: Result<Construction, FlowyError>)
        requires
            object.collab_type == CollabType::Folder,
        ensures
            begun matches Ok(construction) ==> construction@.well_formed() && construction@.device_id
                is Some && construction@ == ConstructionView::begun(
                object@,
                construction@.device_id,
                Protocol::Folder,
                seeded,
                builder_config.sync_enable,
                CoreView::fresh(),
            ),
    {
        Construction::folder(
            object,
            self.workspace_integrate.device_id(),
            seeded,
            builder_config.sync_enable,
        )
    }

    /// Begins the construction of a user-awareness record. Nothing is begun
    /// where the application cannot name the device.
    pub fn create_user_awareness(
        &self,
        object: CollabObject,
        builder_config: CollabBuilderConfig,
    ) -> (begun: Result<Construction, FlowyError>)
        requires
            object.collab_type == CollabType::UserAwareness,
        ensures
            begun matches Ok(construction) ==> construction@.well_formed() && construction@.device_id
                is Some && construction@ == ConstructionView::begun(
                object@,
                construction@.device_id,
                Protocol::UserAwareness,
                false,
                builder_config.sync_enable,
                CoreView::fresh(),
            ),
    {
        Construction::user_awareness(
            object,
            self.workspace_integrate.device_id(),
            builder_config.sync_enable,
        )
    }

    /// Begins the construction of a workspace-database index over a core
    /// that the caller has built.
    pub fn create_workspace_database_manager(
        &self,
        object: CollabObject,
        collab: CoreRecord,
        builder_config: CollabBuilderConfig,
    ) -> (begun: Construction)
        requires
            object.collab_type == CollabType::WorkspaceDatabase,
        ensures
            begun@.well_formed(),
            begun@ == ConstructionView::begun(
                object@,
                None,
                Protocol::WorkspaceDatabase,
                false,
                builder_config.sync_enable,
                collab@,
            ),
    {
        Construction::workspace_database(object, collab, builder_config.sync_enable)
    }

    /// Begins the construction of a raw core: built off the calling thread,
    /// given its persistence plugin, then initialized. Nothing is begun where
    /// the application cannot name the device.
    pub fn build_collab(&self, object: &CollabObject) -> (begun: Result<Construction, FlowyError>)
        ensures
            begun matches Ok(construction) ==> construction@.well_formed() && construction@.device_id
                is Some && construction@ == ConstructionView::begun(
                object@,
                construction@.device_id,
                Protocol::CoreOnly,
                false,
                false,
                CoreView::fresh(),
            ),
    {
        Construction::core_only(object.clone(), self.workspace_integrate.device_id())
    }

    /// Begins the finalizing of a handle over the core that `collab`
    /// records.
    pub fn finalize(
        &self,
        object: CollabObject,
        build_config: CollabBuilderConfig,
        collab: CoreRecord,
    ) -> (begun: Construction)
        ensures
            begun@.well_formed(),
            begun@ == ConstructionView::begun(
                object@,
                None,
                Protocol::FinalizeOnly,
                false,
                build_config.sync_enable,
                collab@,
            ),
    {
        Construction::finalize_only(object, collab, build_config.sync_enable)
    }

    /// Begins the flush of a core to storage: whatever storage holds for the
    /// object is replaced by the compacted state of the core.
    pub fn write_collab_to_disk(&self, uid: i64, workspace_id: &str, object_id: &str) -> (run:
        StorageRun)
        ensures
            run.task == StorageTask::DiskWrite,
            run.stage == StorageStage::Upgrading,
            run.key.uid == uid,
            run.key.workspace_id@ == workspace_id@,
            run.key.object_id@ == object_id@,
            run.well_formed(),
    {
        StorageRun::begin(
            StorageTask::DiskWrite,
            StorageKey {
                uid,
                workspace_id: workspace_id.to_owned(),
                object_id: object_id.to_owned(),
            },
        )
    }
}

} // verus!
