//! Whether the network can be reached, as synchronization plugins are told.

use vstd::prelude::*;

verus! {

/// The reachability of the network.
#[derive(Clone, Copy, Debug, PartialEq, Eq, Structural)]
pub enum CollabConnectState {
    Connected,
    Disconnected,
}

/// The state that a network callback reports: connected if the network is
/// reachable, disconnected if it is not.
pub open spec fn state_for(reachable: bool) -> CollabConnectState {
    if reachable {
        CollabConnectState::Connected
    } else {
        CollabConnectState::Disconnected
    }
}

/// The one reachability flag of a process. It is a hint: a plugin that reads
/// `Connected` may still fail to reach the network.
#[derive(Clone, Copy, Debug, PartialEq, Eq, Structural)]
pub struct CollabConnectReachability {
    pub state: CollabConnectState,
}

impl CollabConnectReachability {
    /// The flag of a process that has just started: connected.
    pub fn new() -> (reachability: Self)
        ensures
            reachability.state == CollabConnectState::Connected,
    {
        CollabConnectReachability { state: CollabConnectState::Connected }
    }

    /// Replaces the state and says whether it changed, in which case the
    /// plugins that watch the flag are to be told.
    pub fn set_state(&mut self, new_state: CollabConnectState) -> (changed: bool)
        ensures
            final(self).state == new_state,
            changed == (old(self).state != new_state),
    {
        let changed = self.state != new_state;
        self.state = new_state;
        changed
    }

    /// The current state.
    pub fn state(&self) -> (state: CollabConnectState)
        ensures
            state == self.state,
    {
        self.state
    }
}

} // verus!
