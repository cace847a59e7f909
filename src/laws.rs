//! Properties that relate several operations, proved over the state model.
use vstd::prelude::*;

use crate::admission::{admission, lemma_encoded_unique};
use crate::names::{encode_name, Rejection, NAME_LENGTH};
use crate::pallet::{
    add_global_admin_spec, assign_role_spec, create_role_spec, grants_declared, manage_role, may_manage,
    signer, unassign_role_spec, DispatchError, Error, Origin, RbacState,
};
use crate::role::{Permission, Role};
use crate::store::AccountId;

verus! {

/// No operation touches a role before it is declared: granting an
/// undeclared role fails with `RoleDoesNotExist` whoever asks, and revoking
/// it never succeeds, since only declared roles are ever granted.
pub proof fn lemma_undeclared_role_untouched(
    s: RbacState,
    origin: Origin,
    account: AccountId,
    role: Role,
)
    requires
        grants_declared(s),
        signer(origin) is Some,
        !s.roles.contains(role),
    ensures
        assign_role_spec(s, origin, account, role) == (
        Err::<(), DispatchError>(DispatchError::Module(Error::RoleDoesNotExist)),
        s,
        ),
        unassign_role_spec(s, origin, account, role).0 is Err,
        unassign_role_spec(s, origin, account, role).1 == s,
{
}

/// Declaring the same role twice succeeds the first time and fails with
/// `RoleAlreadyExists` the second, leaving the state as the first call left
/// it.
pub proof fn lemma_create_role_twice(
    s: RbacState,
    who: AccountId,
    pallet: [u8; 36],
    permission: Permission,
)
    requires
        may_manage(s, who, pallet),
        !s.roles.contains(Role { pallet, permission }),
    ensures
        ({
            let first = create_role_spec(s, Origin::Signed(who), pallet, permission);
            let second = create_role_spec(first.1, Origin::Signed(who), pallet, permission);
            &&& first.0 == Ok::<(), DispatchError>(())
            &&& second.0 == Err::<(), DispatchError>(
                DispatchError::Module(Error::RoleAlreadyExists),
            )
            &&& second.1 == first.1
        }),
{
    let first = create_role_spec(s, Origin::Signed(who), pallet, permission);
    assert(first.1.grants == s.grants && first.1.admins == s.admins);
    assert(first.1.roles.contains(Role { pallet, permission }));
    assert(may_manage(first.1, who, pallet));
}

/// Adding the same global administrator twice succeeds both times, and the
/// sets of administrators, roles and grants are those that one call leaves.
pub proof fn lemma_add_global_admin_twice(s: RbacState, account: AccountId)
    ensures
        ({
            let once = add_global_admin_spec(s, true, account);
            let twice = add_global_admin_spec(once.1, true, account);
            &&& once.0 == Ok::<(), DispatchError>(())
            &&& twice.0 == Ok::<(), DispatchError>(())
            &&& twice.1.admins == once.1.admins
            &&& twice.1.roles == once.1.roles
            &&& twice.1.grants == once.1.grants
        }),
{
    let once = add_global_admin_spec(s, true, account);
    assert(once.1.admins.insert(account) =~= once.1.admins);
}

/// No authority exists outside grants and global-administrator status: an
/// account that is not a global administrator and does not hold an execute
/// role is refused the call that role names.
pub proof fn lemma_no_implicit_authority(
    s: RbacState,
    who: AccountId,
    role: Role,
    module: Seq<u8>,
    call: Seq<u8>,
)
    requires
        !s.admins.contains(who),
        !s.grants.contains((who, role)),
        module.len() <= NAME_LENGTH,
        call.len() <= NAME_LENGTH,
        encode_name(module) == role.pallet@,
        role.permission matches Permission::Execute { call_name } && encode_name(call)
            == call_name@,
    ensures
        admission(s, who, module, call) == Err::<(), Rejection>(Rejection::Unauthorized),
{
    let call_name = role.permission->call_name;
    lemma_encoded_unique(module, role.pallet);
    lemma_encoded_unique(call, call_name);
}

/// A caller without rights on the module who names an undeclared role is
/// told the role does not exist when granting, but is denied access when
/// revoking it from an account that does not hold it.
pub proof fn lemma_check_order(s: RbacState, origin: Origin, account: AccountId, role: Role)
    requires
        signer(origin) matches Some(who) && !may_manage(s, who, role.pallet),
        !s.roles.contains(role),
        !s.grants.contains((account, role)),
    ensures
        assign_role_spec(s, origin, account, role).0 == Err::<(), DispatchError>(
            DispatchError::Module(Error::RoleDoesNotExist),
        ),
        unassign_role_spec(s, origin, account, role).0 == Err::<(), DispatchError>(
            DispatchError::Module(Error::AccessDenied),
        ),
{
}

/// Granting a declared role and then revoking it leaves it not granted, and
/// revoking it again fails with `RoleWasNotAssigned`. The caller must keep
/// its rights through the revocation: it is a global administrator, or the
/// grant revoked is not its own management of the module.
pub proof fn lemma_revoke_after_grant(
    s: RbacState,
    who: AccountId,
    account: AccountId,
    role: Role,
)
    requires
        may_manage(s, who, role.pallet),
        s.roles.contains(role),
        s.admins.contains(who) || (who, manage_role(role.pallet)) != (account, role),
    ensures
        ({
            let o = Origin::Signed(who);
            let granted = assign_role_spec(s, o, account, role);
            let revoked = unassign_role_spec(granted.1, o, account, role);
            let again = unassign_role_spec(revoked.1, o, account, role);
            &&& granted.0 == Ok::<(), DispatchError>(())
            &&& revoked.0 == Ok::<(), DispatchError>(())
            &&& !revoked.1.grants.contains((account, role))
            &&& again.0 == Err::<(), DispatchError>(
                DispatchError::Module(Error::RoleWasNotAssigned),
            )
            &&& again.1 == revoked.1
        }),
{
    let o = Origin::Signed(who);
    let granted = assign_role_spec(s, o, account, role);
    assert(granted.1.grants.contains((account, role)));
    assert(may_manage(granted.1, who, role.pallet));
    let revoked = unassign_role_spec(granted.1, o, account, role);
    assert(may_manage(revoked.1, who, role.pallet));
}

/// A name of exactly the full width is its own encoding: padding adds
/// nothing.
pub proof fn lemma_full_width_name(b: Seq<u8>)
    requires
        b.len() == NAME_LENGTH,
    ensures
        encode_name(b) == b,
{
    assert(encode_name(b) =~= b);
}

} // verus!
