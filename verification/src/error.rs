//! Error type for driver event translation.

use vstd::prelude::*;

verus! {

/// Returned when a driver event carries an action string that no
/// machine recognises.  Holds the rejected string.
#[derive(Debug)]
pub struct ParseError(pub String);

impl ParseError {
    /// The rejected action string.
    pub fn value(&self) -> (r: &str)
        ensures
            r@ == self.0@,
    {
        self.0.as_str()
    }
}

} // verus!
