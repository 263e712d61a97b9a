//! Resource identity: the unique textual id of a declared resource
//! and the static declaration trait for registered tasks.

use vstd::prelude::*;

verus! {

/// Unique textual identifier of a declared resource.  Used as the
/// key of every dependency and resource table.
#[derive(Debug)]
pub struct TaskId {
    id: String,
}

impl View for TaskId {
    type V = Seq<char>;

    closed spec fn view(&self) -> Seq<char> {
        self.id@
    }
}

impl TaskId {
    pub fn new(id: String) -> (r: TaskId)
        ensures
            r@ == id@,
    {
        TaskId { id }
    }

    pub fn from_str(s: &str) -> (r: TaskId)
        ensures
            r@ == s@,
    {
        TaskId { id: s.to_owned() }
    }

    pub fn as_str(&self) -> (r: &str)
        ensures
            r@ == self@,
    {
        self.id.as_str()
    }

    pub fn into_string(self) -> (r: String)
        ensures
            r@ == self@,
    {
        self.id
    }

    /// Equality of two ids, by their characters.
    pub fn same_as(&self, other: &TaskId) -> (r: bool)
        ensures
            r == (self@ == other@),
    {
        self.id == other.id
    }
}

impl Clone for TaskId {
    fn clone(&self) -> (r: Self)
        ensures
            r@ == self@,
    {
        TaskId { id: self.id.clone() }
    }
}

impl PartialEq for TaskId {
    fn eq(&self, other: &Self) -> (r: bool)
        ensures
            r == (self@ == other@),
    {
        self.id == other.id
    }
}

impl vstd::std_specs::cmp::PartialEqSpecImpl for TaskId {
    open spec fn obeys_eq_spec() -> bool {
        true
    }

    open spec fn eq_spec(&self, other: &Self) -> bool {
        self@ == other@
    }
}

impl From<&str> for TaskId {
    fn from(s: &str) -> (r: Self)
        ensures
            r@ == s@,
    {
        TaskId { id: s.to_owned() }
    }
}

impl vstd::std_specs::convert::FromSpecImpl<&str> for TaskId {
    open spec fn obeys_from_spec() -> bool {
        false
    }

    open spec fn from_spec(s: &str) -> Self {
        arbitrary()
    }
}

/// Static declaration of a registered resource: its unique id and
/// the ids of the resources that must be ready before it may become
/// active.
pub trait ManagedTask {
    fn id() -> TaskId;

    fn deps() -> Vec<TaskId> {
        Vec::new()
    }
}

} // verus!
