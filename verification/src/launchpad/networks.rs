//! The deployment's one declared network.

use vstd::prelude::*;

use crate::config::ManagedProtocol;
use crate::ids::{ManagedTask, TaskId};
use crate::launchpad::config::LaunchpadProtocol;
use crate::network::ManagedNetwork;

verus! {

/// The local network every container of the deployment joins.
#[derive(Debug, Default)]
pub struct LocalNet {}

impl ManagedTask for LocalNet {
    fn id() -> (r: TaskId)
        ensures
            r@ == "LocalNet"@,
    {
        TaskId::from_str("LocalNet")
    }
}

impl ManagedNetwork for LocalNet {
    type Protocol = LaunchpadProtocol;

    open spec fn network_name_spec(&self) -> Seq<char> {
        "network"@
    }

    fn network_name(&self) -> (r: &str)
        ensures
            r@ == "network"@,
    {
        "network"
    }
}

} // verus!
