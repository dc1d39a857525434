//! The identity of a collaborative object and its validation against the
//! workspace that is open.

use crate::ids::{lemma_text_names_one_identifier, Uuid};
use vstd::prelude::*;

verus! {

/// The families of collaborative objects that the builder constructs.
#[derive(Clone, Copy, Debug, PartialEq, Eq, Structural)]
pub enum CollabType {
    Document,
    Folder,
    UserAwareness,
    WorkspaceDatabase,
}

/// The identity of one collaborative object. It is made once and never
/// changed; storage and synchronization both key on it.
#[derive(Debug)]
pub struct CollabObject {
    pub uid: i64,
    pub object_id: String,
    pub collab_type: CollabType,
    pub workspace_id: String,
    pub device_id: String,
}

/// The mathematical value of a [`CollabObject`].
pub struct CollabObjectView {
    pub uid: int,
    pub object_id: Seq<char>,
    pub collab_type: CollabType,
    pub workspace_id: Seq<char>,
    pub device_id: Seq<char>,
}

impl View for CollabObject {
    type V = CollabObjectView;

    open spec fn view(&self) -> CollabObjectView {
        CollabObjectView {
            uid: self.uid as int,
            object_id: self.object_id@,
            collab_type: self.collab_type,
            workspace_id: self.workspace_id@,
            device_id: self.device_id@,
        }
    }
}

impl Clone for CollabObject {
    fn clone(&self) -> (copy: Self)
        ensures
            copy == *self,
    {
        CollabObject {
            uid: self.uid,
            object_id: self.object_id.clone(),
            collab_type: self.collab_type,
            workspace_id: self.workspace_id.clone(),
            device_id: self.device_id.clone(),
        }
    }
}

impl CollabObject {
    /// The identity with the given parts.
    pub fn new(
        uid: i64,
        object_id: String,
        collab_type: CollabType,
        workspace_id: String,
        device_id: String,
    ) -> (object: Self)
        ensures
            object.uid == uid,
            object.object_id == object_id,
            object.collab_type == collab_type,
            object.workspace_id == workspace_id,
            object.device_id == device_id,
    {
        CollabObject { uid, object_id, collab_type, workspace_id, device_id }
    }
}

/// An error reported by the application that hosts the builder.
#[derive(Debug)]
pub struct FlowyError {
    pub msg: String,
}

/// What the builder learns from the application about the open workspace.
pub trait WorkspaceCollabIntegrate {
    /// The workspace that is open now.
    fn workspace_id(&self) -> Result<Uuid, FlowyError>;

    /// The device that this process runs on.
    fn device_id(&self) -> Result<String, FlowyError>;
}

/// Why an identity was not made.
#[derive(Debug)]
pub enum IdentityError {
    /// The request names another workspace than the one that is open.
    IdentityMismatch { expected: Uuid, actual: Uuid },
    /// The application could not say which workspace or device is in use.
    Integrate(FlowyError),
}

/// The identity of object `object_id` of workspace `workspace_id`, as far as
/// its view goes.
pub open spec fn identity_view(
    workspace_id: Uuid,
    uid: i64,
    object_id: Uuid,
    collab_type: CollabType,
    device_id: Seq<char>,
) -> CollabObjectView {
    CollabObjectView {
        uid: uid as int,
        object_id: object_id.text(),
        collab_type,
        workspace_id: workspace_id.text(),
        device_id,
    }
}

/// Holds the workspace of a request against the workspace `active` that is
/// open now. A request for another workspace is refused with both
/// identifiers; nothing else is read to decide this.
pub fn check_workspace(workspace_id: &Uuid, active: &Uuid) -> (checked: Result<(), IdentityError>)
    ensures
        *workspace_id == *active ==> checked is Ok,
        *workspace_id != *active ==> checked == Err::<(), IdentityError>(
            IdentityError::IdentityMismatch { expected: *workspace_id, actual: *active },
        ),
{
    if workspace_id.value != active.value {
        Err(IdentityError::IdentityMismatch { expected: *workspace_id, actual: *active })
    } else {
        Ok(())
    }
}

/// Makes the identity of an object of workspace `workspace_id` from what the
/// application said of the open workspace and of the device.
///
/// Where the open workspace is not known, that error is passed on. A request
/// for another workspace than the open one is refused, whatever was said of
/// the device. Only then does the device matter: its error is passed on, or
/// the identity is made with it.
pub fn checked_identity(
    workspace_id: &Uuid,
    active: Result<Uuid, FlowyError>,
    uid: i64,
    object_id: &Uuid,
    collab_type: CollabType,
    device_id: Result<String, FlowyError>,
) -> (made: Result<CollabObject, IdentityError>)
    ensures
        match active {
            Err(err) => made == Err::<CollabObject, IdentityError>(IdentityError::Integrate(err)),
            Ok(active) => if active != *workspace_id {
                made == Err::<CollabObject, IdentityError>(
                    IdentityError::IdentityMismatch { expected: *workspace_id, actual: active },
                )
            } else {
                match device_id {
                    Err(err) => made == Err::<CollabObject, IdentityError>(
                        IdentityError::Integrate(err),
                    ),
                    Ok(device_id) => made is Ok && made.unwrap()@ == identity_view(
                        *workspace_id,
                        uid,
                        *object_id,
                        collab_type,
                        device_id@,
                    ),
                }
            },
        },
{
    let active = match active {
        Ok(active) => active,
        Err(err) => {
            return Err(IdentityError::Integrate(err));
        },
    };
    match check_workspace(workspace_id, &active) {
        Err(err) => {
            return Err(err);
        },
        Ok(()) => {},
    }
    match device_id {
        Err(err) => Err(IdentityError::Integrate(err)),
        Ok(device_id) => Ok(
            CollabObject::new(
                uid,
                object_id.to_text(),
                collab_type,
                workspace_id.to_text(),
                device_id,
            ),
        ),
    }
}

/// Identities with the same workspace text and the same object text are
/// identities of the same object in the same workspace: the key under which
/// an object is stored and synchronized belongs to that object alone.
pub proof fn lemma_identity_names_one_object(
    workspace_id: Uuid,
    object_id: Uuid,
    other_workspace_id: Uuid,
    other_object_id: Uuid,
    uid: i64,
    collab_type: CollabType,
    device_id: Seq<char>,
)
    requires
        identity_view(workspace_id, uid, object_id, collab_type, device_id).workspace_id
            == identity_view(
            other_workspace_id,
            uid,
            other_object_id,
            collab_type,
            device_id,
        ).workspace_id,
        identity_view(workspace_id, uid, object_id, collab_type, device_id).object_id
            == identity_view(
            other_workspace_id,
            uid,
            other_object_id,
            collab_type,
            device_id,
        ).object_id,
    ensures
        workspace_id == other_workspace_id,
        object_id == other_object_id,
{
    lemma_text_names_one_identifier(workspace_id, other_workspace_id);
    lemma_text_names_one_identifier(object_id, other_object_id);
}

} // verus!
