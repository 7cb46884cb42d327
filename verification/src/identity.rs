//! Identities of the parties to the escrow: opaque labels handed in by the
//! hosting environment's identity provisioning. The zero label is the
//! null/unset identity and is rejected at configuration time.

use vstd::prelude::*;

verus! {

/// An already-authenticated identity (a depositor, the backend wallet, the
/// pooled vault account). Only equality with other identities matters here.
#[derive(Clone, Copy, PartialEq, Eq, Structural, Debug)]
pub struct Identity {
    pub id: u64,
}

impl Identity {
    /// The null/unset identity, never a valid configuration value.
    pub open spec fn is_zero(self) -> bool {
        self.id == 0
    }

    /// Whether this identity is the null/unset identity.
    pub fn is_null(&self) -> (r: bool)
        ensures
            r == self.is_zero(),
    {
        self.id == 0
    }
}

} // verus!
