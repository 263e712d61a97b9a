//! The network machine: always clean up a leaked prior network of
//! the same name first, then create one whenever the resource
//! should be active, and tear it down when it no longer should be.

use vstd::prelude::*;

use crate::config::ManagedProtocol;
use crate::error::ParseError;
use crate::forwarder::{message_matches, matches_subscription, Converter, DriverEvent, DriverEventKind};
use crate::status::SdmStatus;
use crate::strutil::{concat3, str_eq};
use crate::task::{
    RunnableContext, RunnableTask, TaskContext, TaskEvent, TaskStatus, UpdateDecision,
};

verus! {

/// A concrete network definition plugged into the engine.
pub trait ManagedNetwork: Sized {
    type Protocol: ManagedProtocol;

    /// Returns whether the network should exist under the given
    /// configuration; by default, whenever one is set.
    fn reconfigure(
        &mut self,
        config: Option<&<Self::Protocol as ManagedProtocol>::Config>,
    ) -> bool {
        config.is_some()
    }

    /// The undecorated network name this definition declares; the
    /// engine prefixes it with the scope.  A definition whose
    /// `network_name` is verified overrides this to the value that
    /// method returns; the default leaves it unspecified.
    open spec fn network_name_spec(&self) -> Seq<char> {
        arbitrary()
    }

    fn network_name(&self) -> (r: &str)
        ensures
            r@ == self.network_name_spec(),
    ;
}

#[derive(Debug, Clone, Copy, PartialEq, Eq, Structural)]
pub enum Status {
    InitialState,
    Cleanup,
    WaitRemoving,
    Inactive,
    WaitCreating,
    Active,
}

impl TaskStatus for Status {
    open spec fn ready_spec(&self) -> bool {
        *self is Active
    }

    open spec fn initial_spec() -> Self {
        Status::InitialState
    }

    fn is_ready(&self) -> (r: bool) {
        matches!(self, Status::Active)
    }

    fn initial() -> (r: Self) {
        Status::InitialState
    }
}

impl Default for Status {
    fn default() -> (r: Self)
        ensures
            r == Status::InitialState,
    {
        Status::InitialState
    }
}

#[derive(Debug, Clone, Copy, PartialEq, Eq, Structural)]
pub enum Event {
    Destroyed,
    Created,
}

impl TaskEvent for Event {}

impl Event {
    /// Translates a driver action string; anything but the two
    /// recognised actions is rejected.
    pub fn parse(value: &str) -> (r: Result<Event, ParseError>)
        ensures
            value@ == "destroy"@ ==> r == Ok::<Event, ParseError>(Event::Destroyed),
            value@ == "create"@ ==> r == Ok::<Event, ParseError>(Event::Created),
            value@ != "destroy"@ && value@ != "create"@ ==> (r matches Err(e) && e.0@ == value@),
    {
        proof {
            reveal_strlit("destroy");
            reveal_strlit("create");
            assert("destroy"@.len() == 7);
            assert("create"@.len() == 6);
        }
        if str_eq(value, "destroy") {
            Ok(Event::Destroyed)
        } else if str_eq(value, "create") {
            Ok(Event::Created)
        } else {
            Err(ParseError(value.to_owned()))
        }
    }
}

/// What the driver inspection reports for a reconciliation step.
#[derive(Debug, Clone, Copy, PartialEq, Eq, Structural)]
pub struct Probe {
    pub network_exists: bool,
}

/// The driver calls network reconciliation can issue.
#[derive(Debug, Clone, Copy, PartialEq, Eq, Structural)]
pub enum Action {
    CreateNetwork,
    RemoveNetwork,
}

/// The typed event a recognised action string stands for.
pub open spec fn action_event(action: Seq<char>) -> Option<Event> {
    if action == "destroy"@ {
        Some(Event::Destroyed)
    } else if action == "create"@ {
        Some(Event::Created)
    } else {
        None
    }
}

/// The typed event a raw driver message yields for a subscription
/// on the given network name; `None` when the message is of
/// another kind, names another resource, or carries an
/// unrecognised action.
pub open spec fn convert_spec(
    kind: DriverEventKind,
    action: Seq<char>,
    name: Seq<char>,
    expected: Seq<char>,
) -> Option<Event> {
    if message_matches(kind, name, DriverEventKind::Network, expected) {
        action_event(action)
    } else {
        None
    }
}

/// Translates raw driver messages for one network's event
/// subscription.
pub struct EventConv {
    pub name: String,
}

impl Converter<DriverEvent, Event> for EventConv {
    fn convert(&self, res: Result<DriverEvent, String>) -> (r: Option<Event>)
        ensures
            match res {
                Ok(msg) => r == convert_spec(msg.kind, msg.action@, msg.name@, self.name@),
                Err(_) => r is None,
            },
    {
        match res {
            Ok(msg) => {
                if matches_subscription(&msg, DriverEventKind::Network, self.name.as_str()) {
                    match Event::parse(msg.action.as_str()) {
                        Ok(event) => Some(event),
                        Err(_) => None,
                    }
                } else {
                    None
                }
            },
            Err(_) => None,
        }
    }
}

/// Where a driver event moves the machine: each confirmation is
/// honoured only in the waiting state that predicted it.
pub open spec fn event_transition(s: Status, e: Event) -> Status {
    match (s, e) {
        (Status::WaitCreating, Event::Created) => Status::Active,
        (Status::WaitRemoving, Event::Destroyed) => Status::Inactive,
        _ => s,
    }
}

/// What one reconciliation step decides: remove any leaked prior
/// network once, then create the network while the resource should
/// be active and clean it up again when it no longer should be.
pub open spec fn update_transition(s: Status, active: bool, exists: bool) -> UpdateDecision<
    Status,
    Action,
> {
    match s {
        Status::InitialState => UpdateDecision { next: Some(Status::Cleanup), action: None },
        Status::Cleanup => if exists {
            UpdateDecision { next: Some(Status::WaitRemoving), action: Some(Action::RemoveNetwork) }
        } else {
            UpdateDecision { next: Some(Status::Inactive), action: None }
        },
        Status::WaitRemoving => UpdateDecision { next: None, action: None },
        Status::Inactive => if active {
            UpdateDecision { next: Some(Status::WaitCreating), action: Some(Action::CreateNetwork) }
        } else {
            UpdateDecision { next: None, action: None }
        },
        Status::WaitCreating => UpdateDecision { next: None, action: None },
        Status::Active => if !active {
            UpdateDecision { next: Some(Status::Cleanup), action: None }
        } else {
            UpdateDecision { next: None, action: None }
        },
    }
}

/// One network resource as registered in a scope, under its
/// scope-prefixed driver name.
pub struct NetworkTask<N: ManagedNetwork> {
    network: N,
    network_name: String,
}

impl<N: ManagedNetwork> NetworkTask<N> {
    /// The full driver-level network name.
    pub closed spec fn name_view(&self) -> Seq<char> {
        self.network_name@
    }

    pub closed spec fn network_spec(&self) -> N {
        self.network
    }

    pub fn new(scope: &str, network: N) -> (r: Self)
        ensures
            r.network_spec() == network,
            r.name_view() == scope@ + "_"@ + network.network_name_spec(),
    {
        let name = concat3(scope, "_", network.network_name());
        NetworkTask { network, network_name: name }
    }
}

impl<N: ManagedNetwork> RunnableTask for NetworkTask<N> {
    type Protocol = N::Protocol;

    type Status = Status;

    type Event = Event;

    type Probe = Probe;

    type Action = Action;

    open spec fn name_spec(&self) -> Seq<char> {
        self.name_view()
    }

    fn name(&self) -> (r: &str)
        ensures
            r@ == self.name_view(),
    {
        self.network_name.as_str()
    }

    fn reconfigure(
        &mut self,
        config: Option<&<N::Protocol as ManagedProtocol>::Config>,
    ) -> bool {
        self.network.reconfigure(config)
    }

    fn process_inner_event(&mut self, _event: <N::Protocol as ManagedProtocol>::Inner) {
    }
}

impl<N: ManagedNetwork> RunnableContext<NetworkTask<N>> for TaskContext<NetworkTask<N>> {
    open spec fn event_spec(s: Status, e: Event) -> Status {
        event_transition(s, e)
    }

    open spec fn update_spec(s: Status, active: bool, p: Probe) -> UpdateDecision<Status, Action> {
        update_transition(s, active, p.network_exists)
    }

    fn process_event(status: &mut SdmStatus<Status>, event: Event) {
        match event {
            Event::Created => {
                if matches!(status.get(), Status::WaitCreating) {
                    status.set(Status::Active);
                }
            },
            Event::Destroyed => {
                if matches!(status.get(), Status::WaitRemoving) {
                    status.set(Status::Inactive);
                }
            },
        }
    }

    fn update(status: &Status, active: bool, probe: &Probe) -> (d: UpdateDecision<
        Status,
        Action,
    >) {
        match status {
            Status::InitialState => UpdateDecision { next: Some(Status::Cleanup), action: None },
            Status::Cleanup => if probe.network_exists {
                UpdateDecision {
                    next: Some(Status::WaitRemoving),
                    action: Some(Action::RemoveNetwork),
                }
            } else {
                UpdateDecision { next: Some(Status::Inactive), action: None }
            },
            Status::WaitRemoving => UpdateDecision { next: None, action: None },
            Status::Inactive => if active {
                UpdateDecision {
                    next: Some(Status::WaitCreating),
                    action: Some(Action::CreateNetwork),
                }
            } else {
                UpdateDecision { next: None, action: None }
            },
            Status::WaitCreating => UpdateDecision { next: None, action: None },
            Status::Active => if !active {
                UpdateDecision { next: Some(Status::Cleanup), action: None }
            } else {
                UpdateDecision { next: None, action: None }
            },
        }
    }
}

} // verus!
