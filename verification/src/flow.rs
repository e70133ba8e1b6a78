//! The phases of the demo flow.
use vstd::prelude::*;

verus! {

/// A phase of the demo flow: event sync, then shield, transfer, unshield.
#[derive(PartialEq, Eq, Structural, Clone, Copy)]
pub enum DemoPhase {
    EventSync,
    Shield,
    Transfer,
    Unshield,
}

} // verus!
