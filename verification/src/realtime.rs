//! Realtime policy.
use vstd::prelude::*;

verus! {

/// Whether a control loop insists on realtime priority.
#[derive(Clone, Copy, PartialEq, Eq, Structural, Debug, Hash)]
pub enum RealtimeConfig {
    /// Fail without it.
    Enforce,
    /// Go on without it.
    Ignore,
}

} // verus!
