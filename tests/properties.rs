use pallet_rbac::{
    ensure_signed, names_equal, validate_name, AuthStore, Authorization, DispatchError, EnsureRoot,
    Error, Event, GenesisConfig, Origin, Pallet, Permission, Rejection, Role,
};

fn name(s: &str) -> [u8; 36] {
    validate_name(s).unwrap()
}

fn seeded(admin: u64) -> Pallet<EnsureRoot> {
    GenesisConfig { global_admins: vec![admin] }.build::<EnsureRoot>()
}

#[test]
fn undeclared_role_is_neither_assigned_nor_unassigned() {
    let mut p = seeded(1);
    let role = Role::execute(name("ledger"), name("transfer"));
    assert_eq!(
        p.assign_role(Origin::Signed(1), 42, role),
        Err(DispatchError::Module(Error::RoleDoesNotExist))
    );
    assert!(p.unassign_role(Origin::Signed(1), 42, role).is_err());
    assert!(!p.is_granted(42, &role));
    assert!(p.events().is_empty());
    assert_eq!(p.create_role(Origin::Signed(1), name("ledger"), role.permission), Ok(()));
    assert_eq!(p.assign_role(Origin::Signed(1), 42, role), Ok(()));
    assert!(p.is_granted(42, &role));
}

#[test]
fn create_role_twice_succeeds_then_fails() {
    let mut p = seeded(1);
    assert_eq!(p.create_role(Origin::Signed(1), name("ledger"), Permission::Manage), Ok(()));
    assert_eq!(
        p.create_role(Origin::Signed(1), name("ledger"), Permission::Manage),
        Err(DispatchError::Module(Error::RoleAlreadyExists))
    );
    assert_eq!(p.events().len(), 1);
}

#[test]
fn add_global_admin_twice_is_like_once() {
    let mut once: Pallet<EnsureRoot> = Pallet::new();
    let mut twice: Pallet<EnsureRoot> = Pallet::new();
    assert_eq!(once.add_global_admin(Origin::Root, 7), Ok(()));
    assert_eq!(twice.add_global_admin(Origin::Root, 7), Ok(()));
    assert_eq!(twice.add_global_admin(Origin::Root, 7), Ok(()));
    assert!(once.is_global_admin(7) && twice.is_global_admin(7));
    assert_eq!(twice.remove_global_admin(Origin::Root, 7), Ok(()));
    assert!(!twice.is_global_admin(7));
    assert_eq!(
        twice.events().as_slice(),
        &[
            Event::GlobalAdminAdded { account_id: 7 },
            Event::GlobalAdminAdded { account_id: 7 },
            Event::GlobalAdminRemoved { account_id: 7 },
        ]
    );
}

#[test]
fn no_authority_without_grant_or_admin_status() {
    let mut p = seeded(1);
    let role = Role::execute(name("ledger"), name("transfer"));
    assert_eq!(p.create_role(Origin::Signed(1), name("ledger"), role.permission), Ok(()));
    assert_eq!(p.assign_role(Origin::Signed(1), 5, role), Ok(()));
    let filter: Authorization<EnsureRoot> = Authorization::new();
    assert_eq!(filter.validate(&p, 6, "ledger", "transfer"), Err(Rejection::Unauthorized));
    assert_eq!(filter.validate(&p, 5, "ledger", "transfer"), Ok(()));
    assert_eq!(filter.validate(&p, 5, "ledger", "mint"), Err(Rejection::Unauthorized));
    assert_eq!(filter.validate(&p, 1, "ledger", "mint"), Ok(()));
}

#[test]
fn assign_checks_existence_first_unassign_checks_access_first() {
    let mut p = seeded(1);
    let role = Role::manage(name("ledger"));
    assert_eq!(
        p.assign_role(Origin::Signed(9), 42, role),
        Err(DispatchError::Module(Error::RoleDoesNotExist))
    );
    assert_eq!(
        p.unassign_role(Origin::Signed(9), 42, role),
        Err(DispatchError::Module(Error::AccessDenied))
    );
}

#[test]
fn revoked_role_cannot_be_revoked_again() {
    let mut p = seeded(1);
    let role = Role::execute(name("ledger"), name("transfer"));
    assert_eq!(p.create_role(Origin::Signed(1), name("ledger"), role.permission), Ok(()));
    assert_eq!(p.assign_role(Origin::Signed(1), 42, role), Ok(()));
    assert_eq!(p.unassign_role(Origin::Signed(1), 42, role), Ok(()));
    assert!(!p.is_granted(42, &role));
    assert_eq!(
        p.unassign_role(Origin::Signed(1), 42, role),
        Err(DispatchError::Module(Error::RoleWasNotAssigned))
    );
}

#[test]
fn manager_revoking_own_manage_role_loses_access() {
    let mut p = seeded(1);
    let role = Role::manage(name("ledger"));
    assert_eq!(p.create_role(Origin::Signed(1), name("ledger"), Permission::Manage), Ok(()));
    assert_eq!(p.assign_role(Origin::Signed(1), 42, role), Ok(()));
    assert_eq!(p.unassign_role(Origin::Signed(42), 42, role), Ok(()));
    assert_eq!(
        p.unassign_role(Origin::Signed(42), 42, role),
        Err(DispatchError::Module(Error::AccessDenied))
    );
}

#[test]
fn ledger_end_to_end() {
    let g = 1;
    let mut p = seeded(g);
    let ledger = name("ledger");
    assert_eq!(p.create_role(Origin::Signed(g), ledger, Permission::Manage), Ok(()));
    assert_eq!(
        p.events().last(),
        Some(&Event::RoleCreated { role: Role::manage(ledger) })
    );
    assert_eq!(p.assign_role(Origin::Signed(g), 42, Role::manage(ledger)), Ok(()));
    let transfer = Permission::Execute { call_name: name("transfer") };
    assert_eq!(p.create_role(Origin::Signed(42), ledger, transfer), Ok(()));
    assert!(p.role_declared(&Role { pallet: ledger, permission: transfer }));
    let filter: Authorization<EnsureRoot> = Authorization::new();
    assert_eq!(filter.validate(&p, 99, "ledger", "transfer"), Err(Rejection::Unauthorized));
}

#[test]
fn manager_rights_stop_at_its_module() {
    let mut p = seeded(1);
    assert_eq!(p.create_role(Origin::Signed(1), name("ledger"), Permission::Manage), Ok(()));
    assert_eq!(p.assign_role(Origin::Signed(1), 42, Role::manage(name("ledger"))), Ok(()));
    assert_eq!(
        p.create_role(Origin::Signed(42), name("staking"), Permission::Manage),
        Err(DispatchError::Module(Error::AccessDenied))
    );
    assert_eq!(
        p.create_role(Origin::Signed(43), name("ledger"), Permission::Manage),
        Err(DispatchError::Module(Error::AccessDenied))
    );
    assert!(p.verify_manage_access(42, name("ledger")));
    assert!(!p.verify_manage_access(42, name("staking")));
}

#[test]
fn unsigned_origin_is_refused() {
    let mut p = seeded(1);
    assert_eq!(
        p.create_role(Origin::Root, name("ledger"), Permission::Manage),
        Err(DispatchError::BadOrigin)
    );
    assert_eq!(
        p.assign_role(Origin::Unsigned, 2, Role::manage(name("ledger"))),
        Err(DispatchError::BadOrigin)
    );
    assert_eq!(
        p.unassign_role(Origin::Unsigned, 2, Role::manage(name("ledger"))),
        Err(DispatchError::BadOrigin)
    );
    assert_eq!(p.remove_global_admin(Origin::Signed(1), 1), Err(DispatchError::BadOrigin));
    assert_eq!(ensure_signed(Origin::Signed(3)), Ok(3));
    assert_eq!(ensure_signed(Origin::Root), Err(DispatchError::BadOrigin));
}

#[test]
fn full_width_name_is_accepted_unchanged() {
    let s = "abcdefghijklmnopqrstuvwxyz0123456789";
    assert_eq!(s.len(), 36);
    let encoded = validate_name(s).unwrap();
    assert_eq!(&encoded[..], s.as_bytes());
}

#[test]
fn name_one_byte_too_long_is_rejected() {
    let s = "abcdefghijklmnopqrstuvwxyz0123456789x";
    assert_eq!(s.len(), 37);
    assert_eq!(validate_name(s), Err(Rejection::NameTooLong));
    let p = seeded(1);
    let filter: Authorization<EnsureRoot> = Authorization::new();
    assert_eq!(filter.validate(&p, 2, s, "transfer"), Err(Rejection::NameTooLong));
    assert_eq!(filter.validate(&p, 2, "ledger", s), Err(Rejection::NameTooLong));
    assert_eq!(filter.validate(&p, 1, s, s), Ok(()));
}

#[test]
fn short_name_is_zero_padded() {
    let encoded = validate_name("ab").unwrap();
    let mut expected = [0u8; 36];
    expected[0] = b'a';
    expected[1] = b'b';
    assert_eq!(encoded, expected);
    assert_eq!(validate_name("").unwrap(), [0u8; 36]);
}

#[test]
fn execute_and_manage_roles_are_distinct() {
    let mut p = seeded(1);
    assert_eq!(p.create_role(Origin::Signed(1), name("ledger"), Permission::Manage), Ok(()));
    let exec = Role::execute(name("ledger"), [0; 36]);
    assert!(!p.role_declared(&exec));
    assert_eq!(p.create_role(Origin::Signed(1), name("ledger"), exec.permission), Ok(()));
    assert!(p.role_declared(&exec));
    assert!(Role::manage(name("ledger")) != exec);
}

#[test]
fn names_compare_byte_for_byte() {
    let a = name("ledger");
    let mut b = a;
    assert!(names_equal(&a, &b));
    b[35] = 1;
    assert!(!names_equal(&a, &b));
}

#[test]
fn store_sets_insert_and_remove() {
    let mut s = AuthStore::new();
    let role = Role::manage(name("ledger"));
    assert!(!s.role_declared(&role));
    s.declare_role(role);
    s.declare_role(role);
    assert!(s.role_declared(&role));
    s.grant(4, role);
    s.grant(4, role);
    assert!(s.is_granted(4, &role));
    s.revoke(4, &role);
    assert!(!s.is_granted(4, &role));
    s.add_admin(8);
    assert!(s.is_global_admin(8));
    s.remove_admin(8);
    assert!(!s.is_global_admin(8));
}

#[test]
fn default_genesis_has_no_admins() {
    let g = GenesisConfig::default();
    assert!(g.global_admins.is_empty());
    let p = GenesisConfig { global_admins: vec![3, 4, 3] }.build::<EnsureRoot>();
    assert!(p.is_global_admin(3) && p.is_global_admin(4) && !p.is_global_admin(5));
    assert!(p.events().is_empty());
}
