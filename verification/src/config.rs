//! The protocol parameter that binds a deployment's configuration
//! type and its resource-specific inner event type together.

use vstd::prelude::*;

verus! {

/// Chosen once at scope construction.  `Config` is the opaque,
/// caller-defined configuration snapshot that `SetConfig` replaces
/// wholesale; `Inner` is the payload of resource-specific broadcast
/// events used for data beyond plain readiness.
pub trait ManagedProtocol {
    type Config;

    type Inner: Clone;
}

} // verus!
