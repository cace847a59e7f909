//! Permissions and roles.
use vstd::prelude::*;

use crate::names::{CallName, PalletName, NAME_LENGTH};

verus! {

/// What a role allows on its module.
#[derive(Clone, Copy, Debug, Eq)]
pub enum Permission {
    /// Execute the one call with this encoded name.
    Execute { call_name: CallName },
    /// Declare, grant and revoke roles of the module.
    Manage,
}

/// A module paired with a permission on it. Two roles are the same role
/// exactly when their modules and permissions agree byte for byte.
#[derive(Clone, Copy, Debug, Eq)]
pub struct Role {
    pub pallet: PalletName,
    pub permission: Permission,
}

/// Compares two encoded names byte by byte.
pub fn names_equal(a: &[u8; 36], b: &[u8; 36]) -> (r: bool)
    ensures
        r == (*a == *b),
{
    let mut i: usize = 0;
    while i < NAME_LENGTH
        invariant
            0 <= i <= NAME_LENGTH,
            a@.len() == NAME_LENGTH,
            b@.len() == NAME_LENGTH,
            forall|j: int| 0 <= j < i ==> a@[j] == b@[j],
        decreases NAME_LENGTH - i,
    {
        if a[i] != b[i] {
            return false;
        }
        i = i + 1;
    }
    assert(*a =~= *b);
    true
}

impl PartialEq for Permission {
    fn eq(&self, o: &Permission) -> (r: bool) {
        match (self, o) {
            (Permission::Execute { call_name: x }, Permission::Execute { call_name: y }) => {
                names_equal(x, y)
            },
            (Permission::Manage, Permission::Manage) => true,
            _ => false,
        }
    }
}

impl vstd::std_specs::cmp::PartialEqSpecImpl for Permission {
    open spec fn obeys_eq_spec() -> bool {
        true
    }

    open spec fn eq_spec(&self, o: &Permission) -> bool {
        *self == *o
    }
}

impl PartialEq for Role {
    fn eq(&self, o: &Role) -> (r: bool) {
        names_equal(&self.pallet, &o.pallet) && self.permission == o.permission
    }
}

impl vstd::std_specs::cmp::PartialEqSpecImpl for Role {
    open spec fn obeys_eq_spec() -> bool {
        true
    }

    open spec fn eq_spec(&self, o: &Role) -> bool {
        *self == *o
    }
}

impl Role {
    /// The role whose permission is to manage `pallet`.
    pub fn manage(pallet: PalletName) -> (r: Role)
        ensures
            r == (Role { pallet, permission: Permission::Manage }),
    {
        Role { pallet, permission: Permission::Manage }
    }

    /// The role whose permission is to execute `call_name` of `pallet`.
    pub fn execute(pallet: PalletName, call_name: CallName) -> (r: Role)
        ensures
            r == (Role { pallet, permission: Permission::Execute { call_name } }),
    {
        Role { pallet, permission: Permission::Execute { call_name } }
    }
}

} // verus!
