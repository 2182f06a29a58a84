//! The client components: how each one is built from its configuration
//! and parameters, which steps it takes to start, how each step's outcome
//! decides what comes next, and in which order it is torn down.

use vstd::prelude::*;

pub mod multicast;
pub mod unicast;

verus! {

/// `std::io::Error`, the error reported when a bus fails to start.  The
/// library reads nothing inside it: it only carries it from the failed
/// step into the start-up's error.
#[verifier::external_type_specification]
#[verifier::external_body]
pub struct ExIoError(std::io::Error);

/// One step of tearing down a running component.
#[derive(Clone, Copy, Debug, PartialEq, Eq, Structural)]
pub enum CleanupStep {
    /// Raise the component's shutdown flag.
    SetShutdown,
    /// Clean up the bus the component runs on.
    CleanupBus,
    /// Clean up the session the component runs.
    CleanupSession,
}

} // verus!
