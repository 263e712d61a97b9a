//! The deployment's one declared volume.

use vstd::prelude::*;

use crate::config::ManagedProtocol;
use crate::ids::{ManagedTask, TaskId};
use crate::launchpad::config::{LaunchpadConfig, LaunchpadProtocol};
use crate::volume::ManagedVolume;

verus! {

/// The volume shared by every Tari container of the deployment.
#[derive(Debug, Default)]
pub struct SharedVolume {}

impl ManagedTask for SharedVolume {
    fn id() -> (r: TaskId)
        ensures
            r@ == "SharedVolume"@,
    {
        TaskId::from_str("SharedVolume")
    }
}

impl ManagedVolume for SharedVolume {
    type Protocol = LaunchpadProtocol;

    open spec fn volume_name_spec(&self) -> Seq<char> {
        "volume"@
    }

    fn volume_name(&self) -> (r: &str)
        ensures
            r@ == "volume"@,
    {
        "volume"
    }

    /// The shared volume exists whether or not a configuration is
    /// set.
    fn reconfigure(&mut self, _config: Option<&LaunchpadConfig>) -> (r: bool)
        ensures
            r,
    {
        true
    }
}

} // verus!
