//! The per-resource status holder: the machine's current state, a
//! "has outstanding work" flag that forces immediate re-evaluation,
//! and an optional deadline-based fallback transition.

use vstd::prelude::*;

use crate::task::TaskStatus;

verus! {

/// A forced transition: if the expected driver confirmation has not
/// arrived by the instant `when` (milliseconds on the caller's
/// clock), the status is replaced by `next_status`.
pub struct Fallback<S> {
    pub when: u64,
    pub next_status: S,
}

/// Wraps a machine state with the bookkeeping the control loop
/// needs: the re-evaluation flag and the optional fallback.
pub struct SdmStatus<S> {
    name: String,
    status: S,
    has_work: bool,
    fallback: Option<Fallback<S>>,
}

impl<S> SdmStatus<S> {
    /// The machine state held now.
    pub closed spec fn current(&self) -> S {
        self.status
    }

    /// Whether a state change is still unprocessed by the loop.
    pub closed spec fn work_pending(&self) -> bool {
        self.has_work
    }

    /// The armed fallback transition, if any.
    pub closed spec fn pending_fallback(&self) -> Option<Fallback<S>> {
        self.fallback
    }

    /// The resource name this status belongs to.
    pub closed spec fn label(&self) -> Seq<char> {
        self.name@
    }

    pub fn new(name: String, initial: S) -> (r: Self)
        ensures
            r.current() == initial,
            !r.work_pending(),
            r.pending_fallback() is None,
            r.label() == name@,
    {
        SdmStatus { name, status: initial, has_work: false, fallback: None }
    }

    pub fn get(&self) -> (r: &S)
        ensures
            *r == self.current(),
    {
        &self.status
    }

    pub fn name(&self) -> (r: &str)
        ensures
            r@ == self.label(),
    {
        self.name.as_str()
    }

    pub fn has_work(&self) -> (r: bool)
        ensures
            r == self.work_pending(),
    {
        self.has_work
    }

    pub fn reset_has_work_flag(&mut self)
        ensures
            !final(self).work_pending(),
            final(self).current() == old(self).current(),
            final(self).pending_fallback() == old(self).pending_fallback(),
            final(self).label() == old(self).label(),
    {
        self.has_work = false;
    }

    /// Replaces the state; marks outstanding work and disarms any
    /// fallback, exactly as every reconciliation transition does.
    pub fn set(&mut self, status: S)
        ensures
            final(self).current() == status,
            final(self).work_pending(),
            final(self).pending_fallback() is None,
            final(self).label() == old(self).label(),
    {
        self.status = status;
        self.has_work = true;
        self.fallback = None;
    }

    pub fn set_fallback(&mut self, fallback: Fallback<S>)
        ensures
            final(self).pending_fallback() == Some(fallback),
            final(self).current() == old(self).current(),
            final(self).work_pending() == old(self).work_pending(),
            final(self).label() == old(self).label(),
    {
        self.fallback = Some(fallback);
    }

    /// Fires the armed fallback if its deadline has passed.
    pub fn check_fallback(&mut self, now: u64)
        ensures
            ({
                match old(self).pending_fallback() {
                    Some(f) => if f.when < now {
                        &&& final(self).current() == f.next_status
                        &&& final(self).work_pending()
                        &&& final(self).pending_fallback() is None
                        &&& final(self).label() == old(self).label()
                    } else {
                        *final(self) == *old(self)
                    },
                    None => *final(self) == *old(self),
                }
            }),
    {
        let fire = match &self.fallback {
            Some(f) => f.when < now,
            None => false,
        };
        if fire {
            if let Some(f) = self.fallback.take() {
                self.set(f.next_status);
            }
        }
    }
}

impl<S: TaskStatus> SdmStatus<S> {
    /// Whether the held state is the machine's ready state.
    pub fn is_ready(&self) -> (r: bool)
        ensures
            r == self.current().ready_spec(),
    {
        self.status.is_ready()
    }
}

} // verus!
