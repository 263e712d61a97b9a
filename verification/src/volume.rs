//! The volume machine: discover an existing volume or create one,
//! then stay active.  Volumes are never "running", so there is no
//! kill step, and teardown is left to the caller.

use vstd::prelude::*;

use crate::config::ManagedProtocol;
use crate::error::ParseError;
use crate::forwarder::{message_matches, matches_subscription, Converter, DriverEvent, DriverEventKind};
use crate::status::SdmStatus;
use crate::strutil::{concat3, str_eq};
use crate::task::{
    RunnableContext, RunnableTask, TaskContext, TaskEvent, TaskStatus, UpdateDecision,
};

verus! {

/// A concrete volume definition plugged into the engine.
pub trait ManagedVolume: Sized {
    type Protocol: ManagedProtocol;

    /// Returns whether the volume should exist under the given
    /// configuration; by default, whenever one is set.
    fn reconfigure(
        &mut self,
        config: Option<&<Self::Protocol as ManagedProtocol>::Config>,
    ) -> bool {
        config.is_some()
    }

    /// The undecorated volume name this definition declares; the
    /// engine prefixes it with the scope.  A definition whose
    /// `volume_name` is verified overrides this to the value that
    /// method returns; the default leaves it unspecified.
    open spec fn volume_name_spec(&self) -> Seq<char> {
        arbitrary()
    }

    fn volume_name(&self) -> (r: &str)
        ensures
            r@ == self.volume_name_spec(),
    ;
}

#[derive(Debug, Clone, Copy, PartialEq, Eq, Structural)]
pub enum Status {
    InitialState,
    Checking,
    WaitCreating,
    Active,
}

impl TaskStatus for Status {
    open spec fn ready_spec(&self) -> bool {
        *self is Active
    }

    open spec fn initial_spec() -> Self {
        Status::InitialState
    }

    fn is_ready(&self) -> (r: bool) {
        matches!(self, Status::Active)
    }

    fn initial() -> (r: Self) {
        Status::InitialState
    }
}

impl Default for Status {
    fn default() -> (r: Self)
        ensures
            r == Status::InitialState,
    {
        Status::InitialState
    }
}

#[derive(Debug, Clone, Copy, PartialEq, Eq, Structural)]
pub enum Event {
    Destroyed,
    Created,
}

impl TaskEvent for Event {}

impl Event {
    /// Translates a driver action string; anything but the two
    /// recognised actions is rejected.
    pub fn parse(value: &str) -> (r: Result<Event, ParseError>)
        ensures
            value@ == "destroy"@ ==> r == Ok::<Event, ParseError>(Event::Destroyed),
            value@ == "create"@ ==> r == Ok::<Event, ParseError>(Event::Created),
            value@ != "destroy"@ && value@ != "create"@ ==> (r matches Err(e) && e.0@ == value@),
    {
        proof {
            reveal_strlit("destroy");
            reveal_strlit("create");
            assert("destroy"@.len() == 7);
            assert("create"@.len() == 6);
        }
        if str_eq(value, "destroy") {
            Ok(Event::Destroyed)
        } else if str_eq(value, "create") {
            Ok(Event::Created)
        } else {
            Err(ParseError(value.to_owned()))
        }
    }
}

/// What the driver inspection reports for a reconciliation step.
#[derive(Debug, Clone, Copy, PartialEq, Eq, Structural)]
pub struct Probe {
    pub volume_exists: bool,
}

/// The driver calls volume reconciliation can issue.
#[derive(Debug, Clone, Copy, PartialEq, Eq, Structural)]
pub enum Action {
    CreateVolume,
}

/// The typed event a recognised action string stands for.
pub open spec fn action_event(action: Seq<char>) -> Option<Event> {
    if action == "destroy"@ {
        Some(Event::Destroyed)
    } else if action == "create"@ {
        Some(Event::Created)
    } else {
        None
    }
}

/// The typed event a raw driver message yields for a subscription
/// on the given volume name; `None` when the message is of another
/// kind, names another resource, or carries an unrecognised
/// action.
pub open spec fn convert_spec(
    kind: DriverEventKind,
    action: Seq<char>,
    name: Seq<char>,
    expected: Seq<char>,
) -> Option<Event> {
    if message_matches(kind, name, DriverEventKind::Volume, expected) {
        action_event(action)
    } else {
        None
    }
}

/// Translates raw driver messages for one volume's event
/// subscription.
pub struct EventConv {
    pub name: String,
}

impl Converter<DriverEvent, Event> for EventConv {
    fn convert(&self, res: Result<DriverEvent, String>) -> (r: Option<Event>)
        ensures
            match res {
                Ok(msg) => r == convert_spec(msg.kind, msg.action@, msg.name@, self.name@),
                Err(_) => r is None,
            },
    {
        match res {
            Ok(msg) => {
                if matches_subscription(&msg, DriverEventKind::Volume, self.name.as_str()) {
                    match Event::parse(msg.action.as_str()) {
                        Ok(event) => Some(event),
                        Err(_) => None,
                    }
                } else {
                    None
                }
            },
            Err(_) => None,
        }
    }
}

/// Where a driver event moves the machine: a `create` confirmation
/// is honoured only while the machine waits for it; everything else
/// is ignored.
pub open spec fn event_transition(s: Status, e: Event) -> Status {
    match (s, e) {
        (Status::WaitCreating, Event::Created) => Status::Active,
        _ => s,
    }
}

/// What one reconciliation step decides: check once, then either
/// adopt the existing volume or create one and wait for the
/// driver's confirmation.
pub open spec fn update_transition(s: Status, active: bool, exists: bool) -> UpdateDecision<
    Status,
    Action,
> {
    match s {
        Status::InitialState => UpdateDecision { next: Some(Status::Checking), action: None },
        Status::Checking => if exists {
            UpdateDecision { next: Some(Status::Active), action: None }
        } else {
            UpdateDecision { next: Some(Status::WaitCreating), action: Some(Action::CreateVolume) }
        },
        Status::WaitCreating => UpdateDecision { next: None, action: None },
        Status::Active => UpdateDecision { next: None, action: None },
    }
}

/// One volume resource as registered in a scope, under its
/// scope-prefixed driver name.
pub struct VolumeTask<V: ManagedVolume> {
    volume: V,
    volume_name: String,
}

impl<V: ManagedVolume> VolumeTask<V> {
    /// The full driver-level volume name.
    pub closed spec fn name_view(&self) -> Seq<char> {
        self.volume_name@
    }

    pub closed spec fn volume_spec(&self) -> V {
        self.volume
    }

    pub fn new(scope: &str, volume: V) -> (r: Self)
        ensures
            r.volume_spec() == volume,
            r.name_view() == scope@ + "_"@ + volume.volume_name_spec(),
    {
        let name = concat3(scope, "_", volume.volume_name());
        VolumeTask { volume, volume_name: name }
    }
}

impl<V: ManagedVolume> RunnableTask for VolumeTask<V> {
    type Protocol = V::Protocol;

    type Status = Status;

    type Event = Event;

    type Probe = Probe;

    type Action = Action;

    open spec fn name_spec(&self) -> Seq<char> {
        self.name_view()
    }

    fn name(&self) -> (r: &str)
        ensures
            r@ == self.name_view(),
    {
        self.volume_name.as_str()
    }

    fn reconfigure(
        &mut self,
        config: Option<&<V::Protocol as ManagedProtocol>::Config>,
    ) -> bool {
        self.volume.reconfigure(config)
    }

    fn process_inner_event(&mut self, _event: <V::Protocol as ManagedProtocol>::Inner) {
    }
}

impl<V: ManagedVolume> RunnableContext<VolumeTask<V>> for TaskContext<VolumeTask<V>> {
    open spec fn event_spec(s: Status, e: Event) -> Status {
        event_transition(s, e)
    }

    open spec fn update_spec(s: Status, active: bool, p: Probe) -> UpdateDecision<Status, Action> {
        update_transition(s, active, p.volume_exists)
    }

    fn process_event(status: &mut SdmStatus<Status>, event: Event) {
        match event {
            Event::Created => {
                if matches!(status.get(), Status::WaitCreating) {
                    status.set(Status::Active);
                }
            },
            Event::Destroyed => {},
        }
    }

    fn update(status: &Status, active: bool, probe: &Probe) -> (d: UpdateDecision<
        Status,
        Action,
    >) {
        match status {
            Status::InitialState => UpdateDecision { next: Some(Status::Checking), action: None },
            Status::Checking => if probe.volume_exists {
                UpdateDecision { next: Some(Status::Active), action: None }
            } else {
                UpdateDecision {
                    next: Some(Status::WaitCreating),
                    action: Some(Action::CreateVolume),
                }
            },
            Status::WaitCreating => UpdateDecision { next: None, action: None },
            Status::Active => UpdateDecision { next: None, action: None },
        }
    }
}

} // verus!
