//! The record of one license: its three groups of facts.

use vstd::prelude::*;
use crate::conditions::Conditions;
use crate::limitations::Limitations;
use crate::permissions::Permissions;

verus! {

/// What the catalog holds for one license.
#[derive(Copy, Clone, Debug, Hash, Ord, PartialOrd, Eq, PartialEq, Structural)]
pub struct LicenseRecord {
    pub permissions: Permissions,
    pub conditions: Conditions,
    pub limitations: Limitations,
}

impl LicenseRecord {
    /// What the license allows.
    #[verifier::allow_in_spec]
    pub fn permissions(&self) -> (group: Permissions)
        ensures
            group == self.permissions,
        returns
            self.permissions,
    {
        self.permissions
    }

    /// What the license asks for.
    #[verifier::allow_in_spec]
    pub fn conditions(&self) -> (group: Conditions)
        ensures
            group == self.conditions,
        returns
            self.conditions,
    {
        self.conditions
    }

    /// What the license does not provide.
    #[verifier::allow_in_spec]
    pub fn limitations(&self) -> (group: Limitations)
        ensures
            group == self.limitations,
        returns
            self.limitations,
    {
        self.limitations
    }
}

} // verus!
