//! A mutable permission accumulator with an administrator override.

use crate::permissions::ADMINISTRATOR;
use vstd::prelude::*;

verus! {

/// `true` when the mask `bits` grants `permission`: either the administrator
/// bit is set, or `permission` shares at least one bit with `bits`.
pub open spec fn mask_has(bits: u64, permission: u64) -> bool {
    bits & ADMINISTRATOR != 0 || bits & permission != 0
}

/// A set of permissions held as a 64-bit mask.
#[derive(Debug, Clone)]
pub struct PermissionSet {
    permissions: u64,
}

impl View for PermissionSet {
    type V = u64;

    closed spec fn view(&self) -> u64 {
        self.permissions
    }
}

impl PermissionSet {
    /// An empty set.
    pub fn new() -> (r: Self)
        ensures
            r@ == 0,
    {
        PermissionSet { permissions: 0 }
    }

    /// A set holding exactly the bits of `permissions`.
    pub fn from_bits(permissions: u64) -> (r: Self)
        ensures
            r@ == permissions,
    {
        PermissionSet { permissions }
    }

    /// The raw mask.
    pub fn bits(&self) -> (r: u64)
        ensures
            r == self@,
    {
        self.permissions
    }

    /// Adds the bits of `permission`.
    pub fn add(&mut self, permission: u64)
        ensures
            final(self)@ == old(self)@ | permission,
    {
        self.permissions = self.permissions | permission;
    }

    /// Removes the bits of `permission`.
    pub fn remove(&mut self, permission: u64)
        ensures
            final(self)@ == old(self)@ & !permission,
    {
        self.permissions = self.permissions & !permission;
    }

    /// Whether the set grants `permission`; the administrator bit grants all.
    pub fn has(&self, permission: u64) -> (r: bool)
        ensures
            r == mask_has(self@, permission),
    {
        if self.permissions & ADMINISTRATOR != 0 {
            return true;
        }
        self.permissions & permission != 0
    }

    /// Whether the set grants every permission of `permissions`.
    pub fn has_all(&self, permissions: &[u64]) -> (r: bool)
        ensures
            r == (forall|i: int| 0 <= i < permissions@.len() ==> mask_has(self@, #[trigger] permissions@[i])),
    {
        let mut i: usize = 0;
        while i < permissions.len()
            invariant
                0 <= i <= permissions@.len(),
                forall|j: int| 0 <= j < i ==> mask_has(self@, #[trigger] permissions@[j]),
            decreases permissions@.len() - i,
        {
            if !self.has(permissions[i]) {
                return false;
            }
            i = i + 1;
        }
        true
    }

    /// Whether the set grants at least one permission of `permissions`.
    pub fn has_any(&self, permissions: &[u64]) -> (r: bool)
        ensures
            r == (exists|i: int| 0 <= i < permissions@.len() && mask_has(self@, #[trigger] permissions@[i])),
    {
        let mut i: usize = 0;
        while i < permissions.len()
            invariant
                0 <= i <= permissions@.len(),
                forall|j: int| 0 <= j < i ==> !mask_has(self@, #[trigger] permissions@[j]),
            decreases permissions@.len() - i,
        {
            if self.has(permissions[i]) {
                return true;
            }
            i = i + 1;
        }
        false
    }
}

impl Default for PermissionSet {
    fn default() -> (r: Self)
        ensures
            r@ == 0,
    {
        PermissionSet::new()
    }
}

/// With the administrator bit set, a set grants every permission, including
/// ones never added to it.
pub proof fn lemma_administrator_grants_all(bits: u64, permission: u64)
    requires
        bits & ADMINISTRATOR != 0,
    ensures
        mask_has(bits, permission),
{
}

} // verus!
