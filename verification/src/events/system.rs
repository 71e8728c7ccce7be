//! Events about the relay itself.

use vstd::prelude::*;

verus! {

/// An event that concerns the relay rather than the runtime behind it.
#[derive(Debug, Clone, Copy, PartialEq, Eq)]
pub enum SystemEvent {
    SystemStatus,
}

impl SystemEvent {
    /// The tag that names this event on the wire.
    pub open spec fn tag(self) -> Seq<char> {
        "SystemStatus"@
    }
}

} // verus!
