//! The control-plane message types shared by every runner of one
//! deployment, and the reports a scope hands to its caller.

use vstd::prelude::*;

use crate::config::ManagedProtocol;
use crate::ids::TaskId;

verus! {

/// The one broadcast channel's message type.  Configuration
/// replacements flow out from the scope; readiness edges flow
/// cross-wise between runners; inner events carry resource-specific
/// data to every runner.
pub enum ControlEvent<C: ManagedProtocol> {
    SetConfig(Option<C::Config>),
    ResourceReady { task_id: TaskId, name: String },
    ResourceClosed { task_id: TaskId },
    InnerEvent(C::Inner),
}

/// What a scope reports to its caller about one resource.
pub enum ReportDetails<C: ManagedProtocol> {
    Started,
    Progress,
    Ready,
    Closed,
    Extras(C::Inner),
}

/// A report about one resource, by its id.
pub struct Report<C: ManagedProtocol> {
    task_id: TaskId,
    details: ReportDetails<C>,
}

impl<C: ManagedProtocol> Report<C> {
    pub closed spec fn task_view(&self) -> Seq<char> {
        self.task_id@
    }

    pub closed spec fn details_spec(&self) -> ReportDetails<C> {
        self.details
    }

    pub fn new(task_id: TaskId, details: ReportDetails<C>) -> (r: Self)
        ensures
            r.task_view() == task_id@,
            r.details_spec() == details,
    {
        Report { task_id, details }
    }

    pub fn task_id(&self) -> (r: &TaskId)
        ensures
            r@ == self.task_view(),
    {
        &self.task_id
    }

    pub fn details(&self) -> (r: &ReportDetails<C>)
        ensures
            *r == self.details_spec(),
    {
        &self.details
    }
}

} // verus!
