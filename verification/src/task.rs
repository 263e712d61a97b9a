//! The per-resource control-loop core: the traits a resource's
//! machine implements, the task context with its dependency-derived
//! flags, and the runner bookkeeping that turns driver events and
//! control-plane messages into state transitions, actions and
//! readiness notifications.
//!
//! The runner here is the decision half of the control loop.  The
//! caller owns the channels, the clock and the driver; each loop
//! iteration it hands the runner what arrived (an event, a control
//! message, or a tick), performs the driver actions the runner
//! decides on, commits them, and broadcasts the notification the
//! runner emits, until the runner reports no further work.

use vstd::prelude::*;

use crate::config::ManagedProtocol;
use crate::idmap::IdMap;
use crate::ids::TaskId;
use crate::scope::ControlEvent;
use crate::status::SdmStatus;

verus! {

/// Delay before a failed reconciliation step is retried, in
/// milliseconds of the caller's clock.
pub const RETRY_DELAY_MS: u64 = 5000;

/// Every value of the map is `true`; vacuously so when the map is
/// empty.
pub open spec fn all_values_true(m: Map<Seq<char>, bool>) -> bool {
    forall|k: Seq<char>| m.dom().contains(k) ==> m[k]
}

/// The two readiness edges a runner can broadcast.
#[derive(Debug, Clone, Copy, PartialEq, Eq, Structural)]
pub enum NotifyKind {
    Ready,
    Closed,
}

/// The edge-trigger rule: an edge is broadcast exactly when the
/// readiness seen now differs from what dependants were last told.
pub open spec fn notify_emission(was_told_ready: bool, is_ready: bool) -> Option<NotifyKind> {
    if is_ready && !was_told_ready {
        Some(NotifyKind::Ready)
    } else if !is_ready && was_told_ready {
        Some(NotifyKind::Closed)
    } else {
        None
    }
}

/// The edge a notification stands for, if any.
pub open spec fn notification_kind<P: ManagedProtocol>(r: Option<ControlEvent<P>>) -> Option<
    NotifyKind,
> {
    match r {
        Some(ControlEvent::ResourceReady { .. }) => Some(NotifyKind::Ready),
        Some(ControlEvent::ResourceClosed { .. }) => Some(NotifyKind::Closed),
        Some(_) => None,
        None => None,
    }
}

/// A machine state type: a fixed initial state and exactly one
/// "ready" state that decides readiness broadcasts.
pub trait TaskStatus: Sized {
    /// Whether this state is the machine's ready state.
    spec fn ready_spec(&self) -> bool;

    /// The state a freshly registered machine starts in.
    spec fn initial_spec() -> Self;

    fn is_ready(&self) -> (r: bool)
        ensures
            r == self.ready_spec(),
    ;

    fn initial() -> (r: Self)
        ensures
            r == Self::initial_spec(),
    ;
}

/// Marker for a machine's typed driver-event enum.
pub trait TaskEvent {}

/// What one reconciliation step decided: the state to move to, if
/// any, and the driver call that justifies it, if any.  The caller
/// performs the action first and commits the step only if the
/// action succeeded, so a failed driver call leaves the machine
/// where it was and the step is retried after a backoff.
pub struct UpdateDecision<S, A> {
    pub next: Option<S>,
    pub action: Option<A>,
}

/// Static shape of one managed resource's machine: its protocol,
/// its state and event types, the inspection data its
/// reconciliation reads, and the driver calls it can issue.
pub trait RunnableTask: Sized {
    type Protocol: ManagedProtocol;

    type Status: TaskStatus;

    type Event: TaskEvent;

    /// What the driver inspection reports for the current state.
    type Probe;

    /// The driver calls the machine's reconciliation can request.
    type Action;

    /// The driver-level name of the resource.
    spec fn name_spec(&self) -> Seq<char>;

    fn name(&self) -> (r: &str)
        ensures
            r@ == self.name_spec(),
    ;

    /// Hands the resource the new configuration (or none) and
    /// returns whether the resource should be active under it.
    fn reconfigure(
        &mut self,
        config: Option<&<Self::Protocol as ManagedProtocol>::Config>,
    ) -> bool;

    /// A resource-specific broadcast payload; most resources ignore
    /// it.
    fn process_inner_event(&mut self, event: <Self::Protocol as ManagedProtocol>::Inner);
}

/// The machine logic a task context supplies: how driver events and
/// reconciliation steps move the state.  Both exec functions are
/// pinned to the spec-level transition functions, so the runner's
/// behaviour is exact wherever the machine's is.
pub trait RunnableContext<T: RunnableTask>: Sized {
    /// The state a driver event moves the machine to; the state
    /// itself when the event is ignored there.
    spec fn event_spec(s: T::Status, e: T::Event) -> T::Status;

    /// The decision one reconciliation step takes in state `s` with
    /// `active` intent and inspection result `p`.
    spec fn update_spec(s: T::Status, active: bool, p: T::Probe) -> UpdateDecision<
        T::Status,
        T::Action,
    >;

    /// Applies one translated driver event: when the machine is in
    /// the specific waiting state that predicted the event, the
    /// state moves; in any other state the event is silently
    /// ignored.
    fn process_event(status: &mut SdmStatus<T::Status>, event: T::Event)
        ensures
            ({
                let s2 = Self::event_spec(old(status).current(), event);
                if s2 != old(status).current() {
                    &&& final(status).current() == s2
                    &&& final(status).work_pending()
                    &&& final(status).pending_fallback() is None
                    &&& final(status).label() == old(status).label()
                } else {
                    *final(status) == *old(status)
                }
            }),
    ;

    /// One reconciliation step: inspects the current state and the
    /// active intent and decides the next state and driver call.
    fn update(status: &T::Status, active: bool, probe: &T::Probe) -> (d: UpdateDecision<
        T::Status,
        T::Action,
    >)
        ensures
            d == Self::update_spec(*status, active, *probe),
    ;
}

/// Per-resource state owned by the runner: the dependency-derived
/// flags, the names published by ready dependencies, the status
/// holder and the resource value itself.
pub struct TaskContext<T: RunnableTask> {
    /// Conjunction of all dependency readiness flags.
    dependencies_ready: bool,
    /// Driver-assigned name of each ready dependency.
    resources_map: IdMap<String>,
    /// Intent derived from the configuration.
    should_start: bool,
    pub status: SdmStatus<T::Status>,
    pub inner: T,
}

impl<T: RunnableTask> TaskContext<T> {
    pub closed spec fn wf(&self) -> bool {
        self.resources_map.wf()
    }

    pub closed spec fn deps_ready_spec(&self) -> bool {
        self.dependencies_ready
    }

    pub closed spec fn should_start_spec(&self) -> bool {
        self.should_start
    }

    /// The driver-assigned names of the ready dependencies.
    pub closed spec fn resources(&self) -> Map<Seq<char>, String> {
        self.resources_map@
    }

    pub closed spec fn status_spec(&self) -> SdmStatus<T::Status> {
        self.status
    }

    pub closed spec fn inner_spec(&self) -> T {
        self.inner
    }

    /// The single predicate gating every provisioning transition.
    pub open spec fn should_be_active_spec(&self) -> bool {
        self.should_start_spec() && self.deps_ready_spec()
    }

    pub fn should_be_active(&self) -> (r: bool)
        ensures
            r == self.should_be_active_spec(),
    {
        self.should_start && self.dependencies_ready
    }

    /// The name a ready dependency published, if it is ready.
    pub fn resource(&self, id: &TaskId) -> (r: Option<&str>)
        requires
            self.wf(),
        ensures
            match r {
                Some(name) => self.resources().dom().contains(id@) && name@
                    == self.resources()[id@]@,
                None => !self.resources().dom().contains(id@),
            },
    {
        match self.resources_map.get(id) {
            Some(name) => Some(name.as_str()),
            None => None,
        }
    }
}

/// The bookkeeping half of one resource's control loop.
pub struct SdmTaskRunner<R: RunnableTask> {
    task_id: TaskId,
    pub context: TaskContext<R>,
    /// Readiness flag per declared dependency.
    dependencies: IdMap<bool>,
    /// Whether dependants were told the resource is ready and have
    /// not been told otherwise since: the edge-trigger memory.
    ready_to_use: bool,
    /// Earliest instant the next reconciliation step may run.
    next_update: u64,
}

impl<R: RunnableTask> SdmTaskRunner<R> {
    pub closed spec fn wf(&self) -> bool {
        self.dependencies.wf() && self.context.wf()
    }

    pub closed spec fn id_view(&self) -> Seq<char> {
        self.task_id@
    }

    pub closed spec fn ctx(&self) -> TaskContext<R> {
        self.context
    }

    /// Readiness flag of each declared dependency.
    pub closed spec fn deps_view(&self) -> Map<Seq<char>, bool> {
        self.dependencies@
    }

    pub closed spec fn ready_to_use_spec(&self) -> bool {
        self.ready_to_use
    }

    pub closed spec fn next_update_spec(&self) -> u64 {
        self.next_update
    }

    /// All declared dependencies ready; vacuously true without
    /// dependencies.
    pub open spec fn all_deps_ready_spec(&self) -> bool {
        all_values_true(self.deps_view())
    }

    /// Registers the resource: every declared dependency starts
    /// not-ready, the machine starts in its initial state, and the
    /// readiness edge-trigger is clear.
    pub fn new(task_id: TaskId, deps: Vec<TaskId>, inner: R) -> (r: Self)
        ensures
            r.wf(),
            r.id_view() == task_id@,
            forall|k: Seq<char>|
                r.deps_view().dom().contains(k) <==> exists|i: int|
                    0 <= i < deps@.len() && deps@[i]@ == k,
            forall|k: Seq<char>| r.deps_view().dom().contains(k) ==> !r.deps_view()[k],
            r.ctx().deps_ready_spec() == r.all_deps_ready_spec(),
            !r.ctx().should_start_spec(),
            r.ctx().resources() == Map::<Seq<char>, String>::empty(),
            r.ctx().status_spec().current() == R::Status::initial_spec(),
            r.ctx().status_spec().label() == inner.name_spec(),
            !r.ctx().status_spec().work_pending(),
            r.ctx().status_spec().pending_fallback() is None,
            r.ctx().inner_spec() == inner,
            !r.ready_to_use_spec(),
            r.next_update_spec() == 0,
    {
        let mut dependencies: IdMap<bool> = IdMap::new();
        let n = deps.len();
        let mut i: usize = 0;
        while i < n
            invariant
                dependencies.wf(),
                n == deps@.len(),
                i <= n,
                forall|k: Seq<char>|
                    dependencies@.dom().contains(k) <==> exists|j: int| 0 <= j < i && deps@[j]@ == k,
                forall|k: Seq<char>| dependencies@.dom().contains(k) ==> !dependencies@[k],
            decreases n - i,
        {
            let id = deps[i].clone();
            dependencies.set(id, false);
            i += 1;
        }
        let dependencies_ready = dependencies.all_true();
        let name = inner.name().to_owned();
        let status = SdmStatus::new(name, R::Status::initial());
        let context = TaskContext {
            dependencies_ready,
            resources_map: IdMap::new(),
            should_start: false,
            status,
            inner,
        };
        SdmTaskRunner { task_id, context, dependencies, ready_to_use: false, next_update: 0 }
    }

    /// Applies the new configuration through the resource's own
    /// hook and records the returned intent.
    pub fn reconfigure(
        &mut self,
        config: Option<&<R::Protocol as ManagedProtocol>::Config>,
    ) -> (active: bool)
        requires
            old(self).wf(),
        ensures
            final(self).wf(),
            final(self).ctx().should_start_spec() == active,
            final(self).id_view() == old(self).id_view(),
            final(self).deps_view() == old(self).deps_view(),
            final(self).ready_to_use_spec() == old(self).ready_to_use_spec(),
            final(self).next_update_spec() == old(self).next_update_spec(),
            final(self).ctx().deps_ready_spec() == old(self).ctx().deps_ready_spec(),
            final(self).ctx().resources() == old(self).ctx().resources(),
            final(self).ctx().status_spec() == old(self).ctx().status_spec(),
    {
        let active = self.context.inner.reconfigure(config);
        self.context.should_start = active;
        active
    }

    /// Applies one control-plane message: a configuration
    /// replacement, or a dependency readiness edge naming a
    /// declared dependency.  Messages naming unknown resources are
    /// ignored.
    pub fn process_request(&mut self, req: &ControlEvent<R::Protocol>)
        requires
            old(self).wf(),
        ensures
            final(self).wf(),
            final(self).id_view() == old(self).id_view(),
            final(self).ready_to_use_spec() == old(self).ready_to_use_spec(),
            final(self).next_update_spec() == old(self).next_update_spec(),
            final(self).ctx().deps_ready_spec() == final(self).all_deps_ready_spec() || (
            final(self).ctx().deps_ready_spec() == old(self).ctx().deps_ready_spec()
                && final(self).deps_view() == old(self).deps_view()),
            match req {
                ControlEvent::SetConfig(_) => {
                    &&& final(self).deps_view() == old(self).deps_view()
                    &&& final(self).ctx().deps_ready_spec() == old(self).ctx().deps_ready_spec()
                    &&& final(self).ctx().resources() == old(self).ctx().resources()
                    &&& final(self).ctx().status_spec() == old(self).ctx().status_spec()
                },
                ControlEvent::ResourceReady { task_id, name } => {
                    &&& final(self).ctx().should_start_spec() == old(self).ctx().should_start_spec()
                    &&& final(self).ctx().status_spec() == old(self).ctx().status_spec()
                    &&& if old(self).deps_view().dom().contains(task_id@) {
                        &&& final(self).deps_view() == old(self).deps_view().insert(task_id@, true)
                        &&& final(self).ctx().resources() == old(self).ctx().resources().insert(
                            task_id@,
                            *name,
                        )
                        &&& final(self).ctx().deps_ready_spec() == final(self).all_deps_ready_spec()
                    } else {
                        &&& final(self).deps_view() == old(self).deps_view()
                        &&& final(self).ctx().resources() == old(self).ctx().resources()
                        &&& final(self).ctx().deps_ready_spec() == old(self).ctx().deps_ready_spec()
                    }
                },
                ControlEvent::ResourceClosed { task_id } => {
                    &&& final(self).ctx().should_start_spec() == old(self).ctx().should_start_spec()
                    &&& final(self).ctx().status_spec() == old(self).ctx().status_spec()
                    &&& if old(self).deps_view().dom().contains(task_id@) {
                        &&& final(self).deps_view() == old(self).deps_view().insert(task_id@, false)
                        &&& final(self).ctx().resources() == old(self).ctx().resources().remove(
                            task_id@,
                        )
                        &&& final(self).ctx().deps_ready_spec() == final(self).all_deps_ready_spec()
                    } else {
                        &&& final(self).deps_view() == old(self).deps_view()
                        &&& final(self).ctx().resources() == old(self).ctx().resources()
                        &&& final(self).ctx().deps_ready_spec() == old(self).ctx().deps_ready_spec()
                    }
                },
                ControlEvent::InnerEvent(_) => {
                    &&& final(self).deps_view() == old(self).deps_view()
                    &&& final(self).ctx().deps_ready_spec() == old(self).ctx().deps_ready_spec()
                    &&& final(self).ctx().resources() == old(self).ctx().resources()
                    &&& final(self).ctx().status_spec() == old(self).ctx().status_spec()
                    &&& final(self).ctx().should_start_spec() == old(self).ctx().should_start_spec()
                },
            },
    {
        match req {
            ControlEvent::SetConfig(config) => {
                let config_ref = config.as_ref();
                self.reconfigure(config_ref);
            },
            ControlEvent::ResourceReady { task_id, name } => {
                let found = self.dependencies.set_existing(task_id, true);
                if found {
                    self.context.resources_map.set(task_id.clone(), name.clone());
                    self.check_dependencies();
                }
            },
            ControlEvent::ResourceClosed { task_id } => {
                let found = self.dependencies.set_existing(task_id, false);
                if found {
                    self.context.resources_map.remove(task_id);
                    self.check_dependencies();
                }
            },
            ControlEvent::InnerEvent(inner) => {
                let event = inner.clone();
                self.context.inner.process_inner_event(event);
            },
        }
    }

    /// Recomputes the cached conjunction of dependency flags.
    fn check_dependencies(&mut self)
        requires
            old(self).wf(),
        ensures
            final(self).wf(),
            final(self).ctx().deps_ready_spec() == old(self).all_deps_ready_spec(),
            final(self).deps_view() == old(self).deps_view(),
            final(self).id_view() == old(self).id_view(),
            final(self).ready_to_use_spec() == old(self).ready_to_use_spec(),
            final(self).next_update_spec() == old(self).next_update_spec(),
            final(self).ctx().resources() == old(self).ctx().resources(),
            final(self).ctx().should_start_spec() == old(self).ctx().should_start_spec(),
            final(self).ctx().status_spec() == old(self).ctx().status_spec(),
            final(self).ctx().inner_spec() == old(self).ctx().inner_spec(),
    {
        self.context.dependencies_ready = self.dependencies.all_true();
    }

    /// Emits the at-most-once readiness edge: `ResourceReady` the
    /// first time the machine is seen in its ready state,
    /// `ResourceClosed` the first time it is seen to have left it,
    /// and nothing otherwise.
    pub fn notify_dependants(&mut self) -> (r: Option<ControlEvent<R::Protocol>>)
        requires
            old(self).wf(),
        ensures
            final(self).wf(),
            final(self).id_view() == old(self).id_view(),
            final(self).deps_view() == old(self).deps_view(),
            final(self).next_update_spec() == old(self).next_update_spec(),
            final(self).ctx() == old(self).ctx(),
            final(self).ready_to_use_spec() == old(self).ctx().status_spec().current().ready_spec(),
            notification_kind(r) == notify_emission(
                old(self).ready_to_use_spec(),
                old(self).ctx().status_spec().current().ready_spec(),
            ),
            ({
                let was = old(self).ready_to_use_spec();
                let now = old(self).ctx().status_spec().current().ready_spec();
                match r {
                    Some(ControlEvent::ResourceReady { task_id, name }) => {
                        &&& now && !was
                        &&& task_id@ == old(self).id_view()
                        &&& name@ == old(self).ctx().status_spec().label()
                    },
                    Some(ControlEvent::ResourceClosed { task_id }) => {
                        &&& !now && was
                        &&& task_id@ == old(self).id_view()
                    },
                    None => now == was,
                    _ => false,
                }
            }),
    {
        if self.context.status.is_ready() {
            if !self.ready_to_use {
                self.ready_to_use = true;
                let task_id = self.task_id.clone();
                let name = self.context.status.name().to_owned();
                Some(ControlEvent::ResourceReady { task_id, name })
            } else {
                None
            }
        } else {
            if self.ready_to_use {
                self.ready_to_use = false;
                let task_id = self.task_id.clone();
                Some(ControlEvent::ResourceClosed { task_id })
            } else {
                None
            }
        }
    }

    /// Gate of one reconciliation step: nothing runs before the
    /// backoff deadline; otherwise the armed fallback fires if due
    /// and the outstanding-work flag is cleared.
    pub fn begin_update(&mut self, now: u64) -> (run: bool)
        requires
            old(self).wf(),
        ensures
            final(self).wf(),
            run == (old(self).next_update_spec() <= now),
            final(self).id_view() == old(self).id_view(),
            final(self).deps_view() == old(self).deps_view(),
            final(self).ready_to_use_spec() == old(self).ready_to_use_spec(),
            final(self).next_update_spec() == old(self).next_update_spec(),
            final(self).ctx().deps_ready_spec() == old(self).ctx().deps_ready_spec(),
            final(self).ctx().should_start_spec() == old(self).ctx().should_start_spec(),
            final(self).ctx().resources() == old(self).ctx().resources(),
            final(self).ctx().inner_spec() == old(self).ctx().inner_spec(),
            !run ==> final(self).ctx().status_spec() == old(self).ctx().status_spec(),
            run ==> ({
                let fired = old(self).ctx().status_spec().pending_fallback() matches Some(f) && f.when
                    < now;
                &&& !final(self).ctx().status_spec().work_pending()
                &&& final(self).ctx().status_spec().pending_fallback() is None == (fired || old(self).ctx().status_spec().pending_fallback() is None)
                &&& final(self).ctx().status_spec().current() == (if fired {
                    old(self).ctx().status_spec().pending_fallback()->Some_0.next_status
                } else {
                    old(self).ctx().status_spec().current()
                })
                &&& final(self).ctx().status_spec().label() == old(self).ctx().status_spec().label()
            }),
    {
        if self.next_update > now {
            return false;
        }
        self.context.status.check_fallback(now);
        self.context.status.reset_has_work_flag();
        true
    }

    /// Records a failed driver call: the next step may run only
    /// once the retry delay has passed.
    pub fn update_failed(&mut self, now: u64)
        requires
            old(self).wf(),
        ensures
            final(self).wf(),
            now + RETRY_DELAY_MS <= u64::MAX ==> final(self).next_update_spec() == now
                + RETRY_DELAY_MS,
            now + RETRY_DELAY_MS > u64::MAX ==> final(self).next_update_spec() == u64::MAX,
            final(self).id_view() == old(self).id_view(),
            final(self).deps_view() == old(self).deps_view(),
            final(self).ready_to_use_spec() == old(self).ready_to_use_spec(),
            final(self).ctx() == old(self).ctx(),
    {
        if now <= u64::MAX - RETRY_DELAY_MS {
            self.next_update = now + RETRY_DELAY_MS;
        } else {
            self.next_update = u64::MAX;
        }
    }

    /// Whether the last committed transition left outstanding work,
    /// so that reconciliation must run again before the loop waits.
    pub fn has_more_work(&self) -> (r: bool)
        ensures
            r == self.ctx().status_spec().work_pending(),
    {
        self.context.status.has_work()
    }
}

impl<R: RunnableTask> SdmTaskRunner<R> where TaskContext<R>: RunnableContext<R> {
    /// Applies one translated driver event to the machine.
    pub fn process_event(&mut self, event: R::Event)
        requires
            old(self).wf(),
        ensures
            final(self).wf(),
            final(self).id_view() == old(self).id_view(),
            final(self).deps_view() == old(self).deps_view(),
            final(self).ready_to_use_spec() == old(self).ready_to_use_spec(),
            final(self).next_update_spec() == old(self).next_update_spec(),
            final(self).ctx().deps_ready_spec() == old(self).ctx().deps_ready_spec(),
            final(self).ctx().should_start_spec() == old(self).ctx().should_start_spec(),
            final(self).ctx().resources() == old(self).ctx().resources(),
            final(self).ctx().inner_spec() == old(self).ctx().inner_spec(),
            ({
                let s2 = <TaskContext<R> as RunnableContext<R>>::event_spec(
                    old(self).ctx().status_spec().current(),
                    event,
                );
                if s2 != old(self).ctx().status_spec().current() {
                    &&& final(self).ctx().status_spec().current() == s2
                    &&& final(self).ctx().status_spec().work_pending()
                    &&& final(self).ctx().status_spec().pending_fallback() is None
                    &&& final(self).ctx().status_spec().label() == old(self).ctx().status_spec().label()
                } else {
                    final(self).ctx().status_spec() == old(self).ctx().status_spec()
                }
            }),
    {
        <TaskContext<R> as RunnableContext<R>>::process_event(&mut self.context.status, event);
    }

    /// One reconciliation decision for the current state, under the
    /// current intent and the given inspection result.
    pub fn decide_update(&self, probe: &R::Probe) -> (d: UpdateDecision<R::Status, R::Action>)
        ensures
            d == <TaskContext<R> as RunnableContext<R>>::update_spec(
                self.ctx().status_spec().current(),
                self.ctx().should_be_active_spec(),
                *probe,
            ),
    {
        let active = self.context.should_be_active();
        <TaskContext<R> as RunnableContext<R>>::update(self.context.status.get(), active, probe)
    }

    /// Commits a decision whose action (if any) succeeded: the
    /// machine moves to the decided state and outstanding work is
    /// flagged; a decision without a state change leaves everything
    /// as it was.
    pub fn commit_update(&mut self, decision: UpdateDecision<R::Status, R::Action>)
        requires
            old(self).wf(),
        ensures
            final(self).wf(),
            final(self).id_view() == old(self).id_view(),
            final(self).deps_view() == old(self).deps_view(),
            final(self).ready_to_use_spec() == old(self).ready_to_use_spec(),
            final(self).next_update_spec() == old(self).next_update_spec(),
            final(self).ctx().deps_ready_spec() == old(self).ctx().deps_ready_spec(),
            final(self).ctx().should_start_spec() == old(self).ctx().should_start_spec(),
            final(self).ctx().resources() == old(self).ctx().resources(),
            final(self).ctx().inner_spec() == old(self).ctx().inner_spec(),
            match decision.next {
                Some(s) => {
                    &&& final(self).ctx().status_spec().current() == s
                    &&& final(self).ctx().status_spec().work_pending()
                    &&& final(self).ctx().status_spec().pending_fallback() is None
                    &&& final(self).ctx().status_spec().label() == old(self).ctx().status_spec().label()
                },
                None => final(self).ctx().status_spec() == old(self).ctx().status_spec(),
            },
    {
        if let Some(next) = decision.next {
            self.context.status.set(next);
        }
    }
}

} // verus!
