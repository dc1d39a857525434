//! Providers of synchronization plugins, as the builder sees them.

use crate::identity::{CollabObject, CollabObjectView};
use vstd::prelude::*;

verus! {

/// How the active provider synchronizes objects.
#[derive(Clone, Copy, Debug, PartialEq, Eq, Structural)]
pub enum CollabPluginProviderType {
    /// Objects stay on this device.
    Local,
    /// Objects are synchronized with the remote collaboration service.
    AppFlowyCloud,
}

/// What kind of behaviour a plugin adds to a core.
#[derive(Clone, Copy, Debug, PartialEq, Eq, Structural)]
pub enum CollabPluginType {
    /// Durable storage on this device.
    LocalStorage,
    /// Synchronization with the remote collaboration service.
    CloudStorage,
    /// Anything else.
    Other,
}

/// What a provider is told when it is asked for the plugins of an object.
/// The non-owning reference to the object's handle travels beside it.
#[derive(Debug)]
pub enum CollabPluginProviderContext {
    Local,
    AppFlowyCloud { uid: i64, collab_object: CollabObject },
}

/// The mathematical value of a [`CollabPluginProviderContext`].
pub enum CollabPluginProviderContextView {
    Local,
    AppFlowyCloud { uid: int, collab_object: CollabObjectView },
}

impl View for CollabPluginProviderContext {
    type V = CollabPluginProviderContextView;

    open spec fn view(&self) -> CollabPluginProviderContextView {
        match self {
            CollabPluginProviderContext::Local => CollabPluginProviderContextView::Local,
            CollabPluginProviderContext::AppFlowyCloud { uid, collab_object } => {
                CollabPluginProviderContextView::AppFlowyCloud {
                    uid: *uid as int,
                    collab_object: collab_object@,
                }
            },
        }
    }
}

/// The context for a provider of the given kind and an object: a local
/// provider learns nothing, a remote one the owner and the full identity.
pub open spec fn context_for(
    provider: CollabPluginProviderType,
    object: CollabObjectView,
) -> CollabPluginProviderContextView {
    match provider {
        CollabPluginProviderType::Local => CollabPluginProviderContextView::Local,
        CollabPluginProviderType::AppFlowyCloud => CollabPluginProviderContextView::AppFlowyCloud {
            uid: object.uid,
            collab_object: object,
        },
    }
}

impl CollabPluginProviderContext {
    /// Makes the context that a provider of the given kind is asked with.
    pub fn for_provider(provider: CollabPluginProviderType, object: &CollabObject) -> (context:
        Self)
        ensures
            context@ == context_for(provider, object@),
    {
        match provider {
            CollabPluginProviderType::Local => CollabPluginProviderContext::Local,
            CollabPluginProviderType::AppFlowyCloud => CollabPluginProviderContext::AppFlowyCloud {
                uid: object.uid,
                collab_object: object.clone(),
            },
        }
    }
}

} // verus!
