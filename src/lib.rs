//! Finite state machines attached to objects: per-object override policies,
//! a transition guard that weighs them against the type's default rule, and
//! a fixed order of lifecycle events for each accepted change.
//!
//! States are identified by the index of their variant in the state
//! enumeration; the host maps its own values to these indices, performs the
//! effects that the library returns, and asks the default rule when told to.
use vstd::prelude::*;

pub mod dispatch;
pub mod edge_set;
pub mod guard;
pub mod hierarchy;
pub mod laws;
pub mod naming;
pub mod plugin;
pub mod policy;
pub mod sequence;

verus! {

} // verus!
