//! The image/container machine: pull the image if absent, clean any
//! dangling prior container, then — while the resource should be
//! active — create, start, and wait for the attached checker to
//! report readiness.  Losing the active intent from a running state
//! re-provisions from the cleanup branch; the engine never
//! distinguishes "paused" from "destroyed".

pub mod checker;

use vstd::prelude::*;

use crate::config::ManagedProtocol;
use crate::error::ParseError;
use crate::forwarder::{message_matches, matches_subscription, Converter, DriverEvent, DriverEventKind};
use crate::ids::TaskId;
use crate::image::checker::CheckerEvent;
use crate::status::SdmStatus;
use crate::strutil::{concat2, concat3, str_eq};
use crate::task::{
    RunnableContext, RunnableTask, TaskContext, TaskEvent, TaskStatus, UpdateDecision,
};

verus! {

/// A concrete container definition plugged into the engine: its
/// image coordinates, its intent hook, and builder callbacks that
/// fill the collectors the driver call is made from.
pub trait ManagedContainer: Sized {
    type Protocol: ManagedProtocol;

    /// The registry the image is pulled from.  A definition whose
    /// `registry` is verified overrides this to the value that
    /// method returns; the default leaves it unspecified.
    open spec fn registry_spec(&self) -> Seq<char> {
        arbitrary()
    }

    /// The undecorated image name; the engine derives the container
    /// name and the fully qualified image name from it.  Overridden
    /// together with `image_name`, as `registry_spec` is.
    open spec fn image_name_spec(&self) -> Seq<char> {
        arbitrary()
    }

    /// The image tag to pull; `latest` unless overridden together
    /// with `tag`.
    open spec fn tag_spec(&self) -> Seq<char> {
        "latest"@
    }

    fn registry(&self) -> (r: &str)
        ensures
            r@ == self.registry_spec(),
    ;

    fn image_name(&self) -> (r: &str)
        ensures
            r@ == self.image_name_spec(),
    ;

    fn tag(&self) -> (r: &str)
        ensures
            r@ == self.tag_spec(),
    ;

    /// Returns whether the container should run under the given
    /// configuration; by default, whenever one is set.
    fn reconfigure(
        &mut self,
        config: Option<&<Self::Protocol as ManagedProtocol>::Config>,
    ) -> bool {
        config.is_some()
    }

    /// A resource-specific broadcast payload; ignored by default.
    fn on_event(&mut self, _event: <Self::Protocol as ManagedProtocol>::Inner) {
    }

    fn args(&self, _args: &mut Args) {
    }

    fn envs(&self, _envs: &mut Envs) {
    }

    fn ports(&self, _ports: &mut Ports) {
    }

    fn networks(&self, _networks: &mut Networks) {
    }

    fn volumes(&self, _volumes: &mut Volumes) {
    }

    fn mounts(&self, _mounts: &mut Mounts) {
    }
}

#[derive(Debug, Clone, Copy, PartialEq, Eq, Structural)]
pub enum Status {
    InitialState,
    PullingImage,
    CleanDangling,
    WaitContainerKilled,
    WaitContainerRemoved,
    /// Waits for the active intent.
    Idle,
    CreateContainer,
    WaitContainerCreated,
    StartContainer,
    WaitContainerStarted,
    /// Running; the checker decides readiness.
    Started,
    Ready,
}

impl TaskStatus for Status {
    open spec fn ready_spec(&self) -> bool {
        *self is Ready
    }

    open spec fn initial_spec() -> Self {
        Status::InitialState
    }

    fn is_ready(&self) -> (r: bool) {
        matches!(self, Status::Ready)
    }

    fn initial() -> (r: Self) {
        Status::InitialState
    }
}

impl Default for Status {
    fn default() -> (r: Self)
        ensures
            r == Status::InitialState,
    {
        Status::InitialState
    }
}

/// What the driver reports a container to be when inspected.
#[derive(Debug, Clone, Copy, PartialEq, Eq, Structural)]
pub enum ContainerState {
    Running,
    NotRunning,
    NotFound,
}

#[derive(Debug, Clone, Copy, PartialEq, Eq, Structural)]
pub enum Event {
    Destroyed,
    Created,
    Started,
    Killed,
    Terminated,
    CheckerEvent(CheckerEvent),
}

impl TaskEvent for Event {}

impl Event {
    /// Translates a driver action string; anything but the five
    /// recognised actions is rejected.
    pub fn parse(value: &str) -> (r: Result<Event, ParseError>)
        ensures
            value@ == "destroy"@ ==> r == Ok::<Event, ParseError>(Event::Destroyed),
            value@ == "create"@ ==> r == Ok::<Event, ParseError>(Event::Created),
            value@ == "start"@ ==> r == Ok::<Event, ParseError>(Event::Started),
            value@ == "kill"@ ==> r == Ok::<Event, ParseError>(Event::Killed),
            value@ == "die"@ ==> r == Ok::<Event, ParseError>(Event::Terminated),
            value@ != "destroy"@ && value@ != "create"@ && value@ != "start"@ && value@ != "kill"@
                && value@ != "die"@ ==> (r matches Err(e) && e.0@ == value@),
    {
        proof {
            reveal_strlit("destroy");
            reveal_strlit("create");
            reveal_strlit("start");
            reveal_strlit("kill");
            reveal_strlit("die");
            assert("destroy"@.len() == 7);
            assert("create"@.len() == 6);
            assert("start"@.len() == 5);
            assert("kill"@.len() == 4);
            assert("die"@.len() == 3);
        }
        if str_eq(value, "destroy") {
            Ok(Event::Destroyed)
        } else if str_eq(value, "create") {
            Ok(Event::Created)
        } else if str_eq(value, "start") {
            Ok(Event::Started)
        } else if str_eq(value, "kill") {
            Ok(Event::Killed)
        } else if str_eq(value, "die") {
            Ok(Event::Terminated)
        } else {
            Err(ParseError(value.to_owned()))
        }
    }
}

/// The typed event a recognised action string stands for.
pub open spec fn action_event(action: Seq<char>) -> Option<Event> {
    if action == "destroy"@ {
        Some(Event::Destroyed)
    } else if action == "create"@ {
        Some(Event::Created)
    } else if action == "start"@ {
        Some(Event::Started)
    } else if action == "kill"@ {
        Some(Event::Killed)
    } else if action == "die"@ {
        Some(Event::Terminated)
    } else {
        None
    }
}

/// The typed event a raw driver message yields for a subscription
/// on the given container name; `None` when the message is of
/// another kind, names another resource, or carries an
/// unrecognised action.
pub open spec fn convert_spec(
    kind: DriverEventKind,
    action: Seq<char>,
    name: Seq<char>,
    expected: Seq<char>,
) -> Option<Event> {
    if message_matches(kind, name, DriverEventKind::Container, expected) {
        action_event(action)
    } else {
        None
    }
}

/// Translates raw driver messages for one container's event
/// subscription.
pub struct EventConv {
    pub name: String,
}

impl Converter<DriverEvent, Event> for EventConv {
    fn convert(&self, res: Result<DriverEvent, String>) -> (r: Option<Event>)
        ensures
            match res {
                Ok(msg) => r == convert_spec(msg.kind, msg.action@, msg.name@, self.name@),
                Err(_) => r is None,
            },
    {
        match res {
            Ok(msg) => {
                if matches_subscription(&msg, DriverEventKind::Container, self.name.as_str()) {
                    match Event::parse(msg.action.as_str()) {
                        Ok(event) => Some(event),
                        Err(_) => None,
                    }
                } else {
                    None
                }
            },
            Err(_) => None,
        }
    }
}

/// What the driver inspection reports for a reconciliation step:
/// the image presence for the pull branch, the container state for
/// the cleanup branch, and nothing for the states that only wait.
#[derive(Debug, Clone, Copy, PartialEq, Eq, Structural)]
pub enum Probe {
    NoInspection,
    Image { exists: bool },
    Container { state: ContainerState },
}

/// The driver calls container reconciliation can issue.
#[derive(Debug, Clone, Copy, PartialEq, Eq, Structural)]
pub enum Action {
    PullImage,
    KillContainer,
    RemoveContainer,
    CreateContainer,
    StartContainer,
}

/// Where a driver event moves the machine: each driver confirmation
/// is honoured only in the waiting state that predicted it, and the
/// checker's ready signal only while the container counts as
/// started.  A `die` seen in `Started` is deliberately ignored:
/// stale driver notifications must not corrupt the machine.
pub open spec fn event_transition(s: Status, e: Event) -> Status {
    match (s, e) {
        (Status::WaitContainerCreated, Event::Created) => Status::StartContainer,
        (Status::WaitContainerRemoved, Event::Destroyed) => Status::CleanDangling,
        (Status::WaitContainerStarted, Event::Started) => Status::Started,
        (Status::WaitContainerKilled, Event::Terminated) => Status::CleanDangling,
        (Status::Started, Event::CheckerEvent(CheckerEvent::Ready)) => Status::Ready,
        _ => s,
    }
}

/// What one reconciliation step decides.  States that wait for a
/// driver confirmation decide nothing; a probe that does not carry
/// the inspection the state needs decides nothing either, so a step
/// can never act on stale inspection data.
pub open spec fn update_transition(s: Status, active: bool, probe: Probe) -> UpdateDecision<
    Status,
    Action,
> {
    match s {
        Status::InitialState => match probe {
            Probe::Image { exists } => if exists {
                UpdateDecision { next: Some(Status::CleanDangling), action: None }
            } else {
                UpdateDecision { next: Some(Status::PullingImage), action: Some(Action::PullImage) }
            },
            _ => UpdateDecision { next: None, action: None },
        },
        Status::PullingImage => match probe {
            Probe::Image { exists } => if exists {
                UpdateDecision { next: Some(Status::CleanDangling), action: None }
            } else {
                UpdateDecision { next: None, action: None }
            },
            _ => UpdateDecision { next: None, action: None },
        },
        Status::CleanDangling => match probe {
            Probe::Container { state } => match state {
                ContainerState::Running => UpdateDecision {
                    next: Some(Status::WaitContainerKilled),
                    action: Some(Action::KillContainer),
                },
                ContainerState::NotRunning => UpdateDecision {
                    next: Some(Status::WaitContainerRemoved),
                    action: Some(Action::RemoveContainer),
                },
                ContainerState::NotFound => UpdateDecision {
                    next: Some(Status::Idle),
                    action: None,
                },
            },
            _ => UpdateDecision { next: None, action: None },
        },
        Status::WaitContainerKilled => UpdateDecision { next: None, action: None },
        Status::WaitContainerRemoved => UpdateDecision { next: None, action: None },
        Status::Idle => if active {
            UpdateDecision { next: Some(Status::CreateContainer), action: None }
        } else {
            UpdateDecision { next: None, action: None }
        },
        Status::CreateContainer => UpdateDecision {
            next: Some(Status::WaitContainerCreated),
            action: Some(Action::CreateContainer),
        },
        Status::WaitContainerCreated => UpdateDecision { next: None, action: None },
        Status::StartContainer => UpdateDecision {
            next: Some(Status::WaitContainerStarted),
            action: Some(Action::StartContainer),
        },
        Status::WaitContainerStarted => UpdateDecision { next: None, action: None },
        Status::Started => if !active {
            UpdateDecision { next: Some(Status::CleanDangling), action: None }
        } else {
            UpdateDecision { next: None, action: None }
        },
        Status::Ready => if !active {
            UpdateDecision { next: Some(Status::CleanDangling), action: None }
        } else {
            UpdateDecision { next: None, action: None }
        },
    }
}

/// One container resource as registered in a scope: the fully
/// qualified image name and the scope-prefixed container name.
pub struct ImageTask<I: ManagedContainer> {
    container_name: String,
    image_name: String,
    image: I,
}

impl<I: ManagedContainer> ImageTask<I> {
    /// The scope-prefixed driver-level container name.
    pub closed spec fn container_name_view(&self) -> Seq<char> {
        self.container_name@
    }

    /// The fully qualified image name: registry, name and tag.
    pub closed spec fn image_name_view(&self) -> Seq<char> {
        self.image_name@
    }

    pub closed spec fn image_spec(&self) -> I {
        self.image
    }

    pub fn new(scope: &str, image: I) -> (r: Self)
        ensures
            r.image_spec() == image,
            r.container_name_view() == scope@ + "_"@ + image.image_name_spec(),
            r.image_name_view() == image.registry_spec() + "/"@ + image.image_name_spec() + ":"@
                + image.tag_spec(),
    {
        let registry_part = concat2(image.registry(), "/");
        let tagged = concat3(&registry_part, image.image_name(), ":");
        let image_name = concat2(&tagged, image.tag());
        let container_name = concat3(scope, "_", image.image_name());
        proof {
            assert(image_name@ =~= image.registry_spec() + "/"@ + image.image_name_spec() + ":"@
                + image.tag_spec());
        }
        ImageTask { container_name, image_name, image }
    }

    /// The fully qualified image name handed to pull and create
    /// calls.
    pub fn image_name(&self) -> (r: &str)
        ensures
            r@ == self.image_name_view(),
    {
        self.image_name.as_str()
    }

    pub fn image(&self) -> (r: &I)
        ensures
            *r == self.image_spec(),
    {
        &self.image
    }
}

impl<I: ManagedContainer> RunnableTask for ImageTask<I> {
    type Protocol = I::Protocol;

    type Status = Status;

    type Event = Event;

    type Probe = Probe;

    type Action = Action;

    open spec fn name_spec(&self) -> Seq<char> {
        self.container_name_view()
    }

    fn name(&self) -> (r: &str)
        ensures
            r@ == self.container_name_view(),
    {
        self.container_name.as_str()
    }

    fn reconfigure(
        &mut self,
        config: Option<&<I::Protocol as ManagedProtocol>::Config>,
    ) -> bool {
        self.image.reconfigure(config)
    }

    fn process_inner_event(&mut self, event: <I::Protocol as ManagedProtocol>::Inner) {
        self.image.on_event(event);
    }
}

impl<I: ManagedContainer> RunnableContext<ImageTask<I>> for TaskContext<ImageTask<I>> {
    open spec fn event_spec(s: Status, e: Event) -> Status {
        event_transition(s, e)
    }

    open spec fn update_spec(s: Status, active: bool, p: Probe) -> UpdateDecision<Status, Action> {
        update_transition(s, active, p)
    }

    fn process_event(status: &mut SdmStatus<Status>, event: Event) {
        match event {
            Event::Created => {
                if matches!(status.get(), Status::WaitContainerCreated) {
                    status.set(Status::StartContainer);
                }
            },
            Event::Destroyed => {
                if matches!(status.get(), Status::WaitContainerRemoved) {
                    status.set(Status::CleanDangling);
                }
            },
            Event::Started => {
                if matches!(status.get(), Status::WaitContainerStarted) {
                    status.set(Status::Started);
                }
            },
            Event::Killed => {},
            Event::Terminated => {
                if matches!(status.get(), Status::WaitContainerKilled) {
                    status.set(Status::CleanDangling);
                }
            },
            Event::CheckerEvent(checker_event) => {
                match checker_event {
                    CheckerEvent::Ready => {
                        if matches!(status.get(), Status::Started) {
                            status.set(Status::Ready);
                        }
                    },
                    CheckerEvent::Progress(_) => {},
                }
            },
        }
    }

    fn update(status: &Status, active: bool, probe: &Probe) -> (d: UpdateDecision<
        Status,
        Action,
    >) {
        match status {
            Status::InitialState => match probe {
                Probe::Image { exists } => if *exists {
                    UpdateDecision { next: Some(Status::CleanDangling), action: None }
                } else {
                    UpdateDecision {
                        next: Some(Status::PullingImage),
                        action: Some(Action::PullImage),
                    }
                },
                _ => UpdateDecision { next: None, action: None },
            },
            Status::PullingImage => match probe {
                Probe::Image { exists } => if *exists {
                    UpdateDecision { next: Some(Status::CleanDangling), action: None }
                } else {
                    UpdateDecision { next: None, action: None }
                },
                _ => UpdateDecision { next: None, action: None },
            },
            Status::CleanDangling => match probe {
                Probe::Container { state } => match state {
                    ContainerState::Running => UpdateDecision {
                        next: Some(Status::WaitContainerKilled),
                        action: Some(Action::KillContainer),
                    },
                    ContainerState::NotRunning => UpdateDecision {
                        next: Some(Status::WaitContainerRemoved),
                        action: Some(Action::RemoveContainer),
                    },
                    ContainerState::NotFound => UpdateDecision {
                        next: Some(Status::Idle),
                        action: None,
                    },
                },
                _ => UpdateDecision { next: None, action: None },
            },
            Status::WaitContainerKilled => UpdateDecision { next: None, action: None },
            Status::WaitContainerRemoved => UpdateDecision { next: None, action: None },
            Status::Idle => if active {
                UpdateDecision { next: Some(Status::CreateContainer), action: None }
            } else {
                UpdateDecision { next: None, action: None }
            },
            Status::CreateContainer => UpdateDecision {
                next: Some(Status::WaitContainerCreated),
                action: Some(Action::CreateContainer),
            },
            Status::WaitContainerCreated => UpdateDecision { next: None, action: None },
            Status::StartContainer => UpdateDecision {
                next: Some(Status::WaitContainerStarted),
                action: Some(Action::StartContainer),
            },
            Status::WaitContainerStarted => UpdateDecision { next: None, action: None },
            Status::Started => if !active {
                UpdateDecision { next: Some(Status::CleanDangling), action: None }
            } else {
                UpdateDecision { next: None, action: None }
            },
            Status::Ready => if !active {
                UpdateDecision { next: Some(Status::CleanDangling), action: None }
            } else {
                UpdateDecision { next: None, action: None }
            },
        }
    }
}

/// Collector of command-line arguments for the container.
pub struct Args(Vec<String>);

impl Default for Args {
    fn default() -> (r: Self)
        ensures
            r@ == Seq::<Seq<char>>::empty(),
    {
        let r = Args(Vec::new());
        proof {
            assert(r@ =~= Seq::<Seq<char>>::empty());
        }
        r
    }
}

impl View for Args {
    type V = Seq<Seq<char>>;

    closed spec fn view(&self) -> Seq<Seq<char>> {
        self.0.deep_view()
    }
}

impl Args {
    /// Appends one `key=value` argument.
    pub fn set(&mut self, key: &str, value: &str)
        ensures
            final(self)@ == old(self)@.push(key@ + "="@ + value@),
    {
        let item = concat3(key, "=", value);
        self.0.push(item);
        proof {
            assert(self@ =~= old(self)@.push(key@ + "="@ + value@));
        }
    }

    /// Appends the key and the value as two arguments.
    pub fn set_pair(&mut self, key: &str, value: &str)
        ensures
            final(self)@ == old(self)@.push(key@).push(value@),
    {
        self.0.push(key.to_owned());
        self.0.push(value.to_owned());
        proof {
            assert(self@ =~= old(self)@.push(key@).push(value@));
        }
    }

    /// Appends one bare flag.
    pub fn flag(&mut self, flag: &str)
        ensures
            final(self)@ == old(self)@.push(flag@),
    {
        self.0.push(flag.to_owned());
        proof {
            assert(self@ =~= old(self)@.push(flag@));
        }
    }

    pub fn build(self) -> (r: Vec<String>)
        ensures
            r.deep_view() == self@,
    {
        self.0
    }
}

/// Collector of environment variables for the container.
pub struct Envs(Vec<String>);

impl Default for Envs {
    fn default() -> (r: Self)
        ensures
            r@ == Seq::<Seq<char>>::empty(),
    {
        let r = Envs(Vec::new());
        proof {
            assert(r@ =~= Seq::<Seq<char>>::empty());
        }
        r
    }
}

impl View for Envs {
    type V = Seq<Seq<char>>;

    closed spec fn view(&self) -> Seq<Seq<char>> {
        self.0.deep_view()
    }
}

impl Envs {
    /// Appends one `NAME=value` variable.
    pub fn set(&mut self, name: &str, value: &str)
        ensures
            final(self)@ == old(self)@.push(name@ + "="@ + value@),
    {
        let item = concat3(name, "=", value);
        self.0.push(item);
        proof {
            assert(self@ =~= old(self)@.push(name@ + "="@ + value@));
        }
    }

    pub fn build(self) -> (r: Vec<String>)
        ensures
            r.deep_view() == self@,
    {
        self.0
    }
}

/// Collector of exposed ports.
pub struct Ports(Vec<u16>);

impl Default for Ports {
    fn default() -> (r: Self)
        ensures
            r@ == Seq::<u16>::empty(),
    {
        Ports(Vec::new())
    }
}

impl View for Ports {
    type V = Seq<u16>;

    closed spec fn view(&self) -> Seq<u16> {
        self.0@
    }
}

impl Ports {
    pub fn add(&mut self, port: u16)
        ensures
            final(self)@ == old(self)@.push(port),
    {
        self.0.push(port);
    }

    pub fn build(self) -> (r: Vec<u16>)
        ensures
            r@ == self@,
    {
        self.0
    }
}

/// Collector of network attachments: a hostname on a declared
/// network resource.
pub struct Networks(Vec<(String, TaskId)>);

impl Default for Networks {
    fn default() -> (r: Self)
        ensures
            r@ == Seq::<(Seq<char>, Seq<char>)>::empty(),
    {
        let r = Networks(Vec::new());
        proof {
            assert(r@ =~= Seq::<(Seq<char>, Seq<char>)>::empty());
        }
        r
    }
}

impl View for Networks {
    type V = Seq<(Seq<char>, Seq<char>)>;

    closed spec fn view(&self) -> Seq<(Seq<char>, Seq<char>)> {
        Seq::new(self.0@.len(), |i: int| (self.0@[i].0@, self.0@[i].1@))
    }
}

impl Networks {
    pub fn add(&mut self, hostname: &str, id: TaskId)
        ensures
            final(self)@ == old(self)@.push((hostname@, id@)),
    {
        self.0.push((hostname.to_owned(), id));
        proof {
            assert(self@ =~= old(self)@.push((hostname@, id@)));
        }
    }

    pub fn build(self) -> (r: Vec<(String, TaskId)>)
        ensures
            r@.len() == self@.len(),
            forall|i: int|
                0 <= i < r@.len() ==> (r@[i].0@, r@[i].1@) == self@[i],
    {
        self.0
    }
}

/// Collector of volume attachments.
pub struct Volumes(Vec<String>);

impl Default for Volumes {
    fn default() -> (r: Self)
        ensures
            r@ == Seq::<Seq<char>>::empty(),
    {
        let r = Volumes(Vec::new());
        proof {
            assert(r@ =~= Seq::<Seq<char>>::empty());
        }
        r
    }
}

impl View for Volumes {
    type V = Seq<Seq<char>>;

    closed spec fn view(&self) -> Seq<Seq<char>> {
        self.0.deep_view()
    }
}

impl Volumes {
    pub fn add(&mut self, volume: &str)
        ensures
            final(self)@ == old(self)@.push(volume@),
    {
        self.0.push(volume.to_owned());
        proof {
            assert(self@ =~= old(self)@.push(volume@));
        }
    }

    pub fn build(self) -> (r: Vec<String>)
        ensures
            r.deep_view() == self@,
    {
        self.0
    }
}

/// One mount of the container's filesystem: either a declared
/// volume resource mounted at a target path, or a host path bound
/// into the container.
pub enum Mount {
    ToVolume { volume: TaskId, target: String },
    BindTo { source: String, target: String },
}

/// The mathematical shape of one mount.
pub enum MountView {
    ToVolume { volume: Seq<char>, target: Seq<char> },
    BindTo { source: Seq<char>, target: Seq<char> },
}

impl View for Mount {
    type V = MountView;

    open spec fn view(&self) -> MountView {
        match self {
            Mount::ToVolume { volume, target } => MountView::ToVolume {
                volume: volume@,
                target: target@,
            },
            Mount::BindTo { source, target } => MountView::BindTo {
                source: source@,
                target: target@,
            },
        }
    }
}

impl DeepView for Mount {
    type V = MountView;

    open spec fn deep_view(&self) -> MountView {
        self.view()
    }
}

/// Collector of mounts.
pub struct Mounts(Vec<Mount>);

impl Default for Mounts {
    fn default() -> (r: Self)
        ensures
            r@ == Seq::<MountView>::empty(),
    {
        let r = Mounts(Vec::new());
        proof {
            assert(r@ =~= Seq::<MountView>::empty());
        }
        r
    }
}

impl View for Mounts {
    type V = Seq<MountView>;

    closed spec fn view(&self) -> Seq<MountView> {
        self.0.deep_view()
    }
}

impl Mounts {
    /// Mounts a declared volume resource at the target path.
    pub fn add_volume(&mut self, volume: TaskId, target: &str)
        ensures
            final(self)@ == old(self)@.push(
                MountView::ToVolume { volume: volume@, target: target@ },
            ),
    {
        let mount = Mount::ToVolume { volume, target: target.to_owned() };
        self.0.push(mount);
        proof {
            assert(self@ =~= old(self)@.push(
                MountView::ToVolume { volume: volume@, target: target@ },
            ));
        }
    }

    /// Binds a host path to the target path.
    pub fn bind_path(&mut self, source: &str, target: &str)
        ensures
            final(self)@ == old(self)@.push(
                MountView::BindTo { source: source@, target: target@ },
            ),
    {
        let mount = Mount::BindTo { source: source.to_owned(), target: target.to_owned() };
        self.0.push(mount);
        proof {
            assert(self@ =~= old(self)@.push(
                MountView::BindTo { source: source@, target: target@ },
            ));
        }
    }

    pub fn build(self) -> (r: Vec<Mount>)
        ensures
            r.deep_view() == self@,
    {
        self.0
    }
}

} // verus!
