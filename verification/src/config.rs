//! Per-object build configuration.

use vstd::prelude::*;

verus! {

/// Options that govern how one collaborative object is finalized.
#[derive(Clone, Copy, Debug, PartialEq, Eq, Structural)]
pub struct CollabBuilderConfig {
    /// Whether synchronization plugins may be attached to the object.
    pub sync_enable: bool,
}

impl Default for CollabBuilderConfig {
    /// Synchronization is enabled unless a caller switches it off.
    fn default() -> (config: Self)
        ensures
            config.sync_enable,
    {
        Self { sync_enable: true }
    }
}

impl CollabBuilderConfig {
    /// Returns the configuration with `sync_enable` replaced.
    pub fn sync_enable(self, sync_enable: bool) -> (config: Self)
        ensures
            config.sync_enable == sync_enable,
    {
        let mut config = self;
        config.sync_enable = sync_enable;
        config
    }
}

} // verus!
