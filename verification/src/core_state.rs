//! The builder's record of a raw collaborative core: which plugins are
//! attached to it, in order, and whether it has been initialized.

use crate::provider::CollabPluginType;
use vstd::prelude::*;

verus! {

/// The record of one core.
#[derive(Debug)]
pub struct CoreRecord {
    /// The kinds of the attached plugins, in the order of attachment.
    pub plugins: Vec<CollabPluginType>,
    /// Whether the durable updates have been replayed into the core.
    pub initialized: bool,
}

/// The mathematical value of a [`CoreRecord`].
pub struct CoreView {
    pub plugins: Seq<CollabPluginType>,
    pub initialized: bool,
}

impl View for CoreRecord {
    type V = CoreView;

    open spec fn view(&self) -> CoreView {
        CoreView { plugins: self.plugins@, initialized: self.initialized }
    }
}

impl CoreView {
    /// A core to which nothing has been done.
    pub open spec fn fresh() -> CoreView {
        CoreView { plugins: Seq::empty(), initialized: false }
    }

    /// Whether a plugin for remote synchronization is attached.
    pub open spec fn has_cloud_plugin(self) -> bool {
        self.plugins.contains(CollabPluginType::CloudStorage)
    }

    /// The core after one more plugin has been attached.
    pub open spec fn attach(self, kind: CollabPluginType) -> CoreView {
        CoreView { plugins: self.plugins.push(kind), initialized: self.initialized }
    }

    /// The core after the given plugins have been attached in order.
    pub open spec fn attach_all(self, kinds: Seq<CollabPluginType>) -> CoreView {
        CoreView { plugins: self.plugins + kinds, initialized: self.initialized }
    }

    /// The core after an initialization pass. A second pass changes nothing.
    pub open spec fn initialize(self) -> CoreView {
        CoreView { plugins: self.plugins, initialized: true }
    }

    /// Whether the core was initialized only after a persistence plugin had
    /// been attached to it as its first plugin.
    pub open spec fn persistence_first(self) -> bool {
        self.initialized ==> self.plugins.len() > 0 && self.plugins[0]
            == CollabPluginType::LocalStorage
    }

    /// A core as the builder leaves it before the typed view is made: the
    /// persistence plugin alone is attached, and the core is initialized.
    pub open spec fn built() -> CoreView {
        CoreView::fresh().attach(CollabPluginType::LocalStorage).initialize()
    }
}

impl CoreRecord {
    /// The record of a core to which nothing has been done.
    pub fn new() -> (core: Self)
        ensures
            core@ == CoreView::fresh(),
    {
        CoreRecord { plugins: Vec::new(), initialized: false }
    }

    /// Whether a plugin for remote synchronization is attached.
    pub fn has_cloud_plugin(&self) -> (found: bool)
        ensures
            found == self@.has_cloud_plugin(),
    {
        let mut i: usize = 0;
        while i < self.plugins.len()
            invariant
                i <= self.plugins.len(),
                forall|k: int| 0 <= k < i ==> self.plugins@[k] != CollabPluginType::CloudStorage,
            decreases self.plugins.len() - i,
        {
            if self.plugins[i] == CollabPluginType::CloudStorage {
                return true;
            }
            i += 1;
        }
        false
    }

    /// How many plugins are attached.
    pub fn plugin_count(&self) -> (count: usize)
        ensures
            count == self@.plugins.len(),
    {
        self.plugins.len()
    }

    /// Records that a plugin of the given kind has been attached.
    pub fn add_plugin(&mut self, kind: CollabPluginType)
        ensures
            final(self)@ == old(self)@.attach(kind),
    {
        self.plugins.push(kind);
    }

    /// Records an initialization pass.
    pub fn initialize(&mut self)
        ensures
            final(self)@ == old(self)@.initialize(),
    {
        self.initialized = true;
    }
}

/// An initialization pass after the first changes nothing.
pub proof fn lemma_initialize_idempotent(core: CoreView)
    ensures
        core.initialize().initialize() == core.initialize(),
{
}

} // verus!
