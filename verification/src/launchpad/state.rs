//! The messages between the engine's owner and a user interface,
//! and the state the owner mirrors for it.

use vstd::prelude::*;

use std::collections::VecDeque;

use crate::launchpad::config::{LaunchpadConfig, LaunchpadProtocol};
use crate::scope::ControlEvent;

verus! {

/// An action sent from the interface to the owner.
#[derive(Debug, Clone)]
pub enum Incoming {
    Action(LaunchpadAction),
    Start,
}

#[derive(Debug, Clone)]
pub enum LaunchpadAction {
    Connect,
}

/// A state change the owner announces to the interface.
#[derive(Debug, Clone)]
pub enum LaunchpadDelta {
    UpdateConfig(LaunchpadConfig),
}

/// The state mirrored for the interface: the configuration in
/// force and the driver-level name of each known container, as
/// `(id, name)` pairs in the order the containers became known.
#[derive(Debug, Clone)]
pub struct LaunchpadState {
    pub config: LaunchpadConfig,
    pub containers: Vec<(String, String)>,
}

/// A message sent from the owner to the interface.
#[derive(Debug, Clone)]
pub enum Outgoing {
    StateIsReady(LaunchpadState),
    Delta(LaunchpadDelta),
}

impl LaunchpadState {
    /// What the owner broadcasts for one interface action: `Start`
    /// publishes the configuration in force as a wholesale
    /// replacement; other actions are not acted on.
    pub fn process_incoming(&self, incoming: &Incoming) -> (r: Option<ControlEvent<
        LaunchpadProtocol,
    >>)
        ensures
            match incoming {
                Incoming::Start => (r matches Some(ControlEvent::SetConfig(Some(c))) && c
                    == self.config),
                Incoming::Action(_) => r is None,
            },
    {
        match incoming {
            Incoming::Start => Some(ControlEvent::SetConfig(Some(self.config.clone()))),
            Incoming::Action(_) => None,
        }
    }

    /// Applies one announced change: a configuration update
    /// replaces the configuration and touches nothing else.
    pub fn apply(&mut self, delta: LaunchpadDelta)
        ensures
            match delta {
                LaunchpadDelta::UpdateConfig(config) => final(self).config == config
                    && final(self).containers == old(self).containers,
            },
    {
        match delta {
            LaunchpadDelta::UpdateConfig(config) => {
                self.config = config;
            },
        }
    }
}

/// The log tail kept for one container.
#[derive(Debug)]
pub struct ContainerRecord {
    pub logs: VecDeque<String>,
}

} // verus!
