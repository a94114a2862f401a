//! The lifecycle of a single request as seen by the power-mode gate.
use vstd::prelude::*;

verus! {

/// Where a request stands in its own lifecycle.
#[derive(Debug, Clone, Copy, PartialEq, Eq)]
pub enum RequestLifecycleState {
    Pending,
    Started,
    UnderExecution,
    Finalized,
}

} // verus!
