//! The role-management service: declaring roles, granting and revoking
//! them, and maintaining the global administrators.
use vstd::prelude::*;

use crate::names::{CallName, PalletName};
use crate::role::{Permission, Role};
use crate::store::{AccountId, AuthStore};

verus! {

/// Where a call comes from.
#[derive(Clone, Copy, Debug, PartialEq, Eq, Structural)]
pub enum Origin {
    /// The distinguished system authority.
    Root,
    /// An authenticated account.
    Signed(AccountId),
    /// A call carrying no signature.
    Unsigned,
}

/// Why a role-management operation failed.
#[derive(Clone, Copy, Debug, PartialEq, Eq, Structural)]
pub enum Error {
    /// The caller has neither management rights on the module nor
    /// global-administrator status.
    AccessDenied,
    /// A role with this module and permission was already declared.
    RoleAlreadyExists,
    /// The role was never declared.
    RoleDoesNotExist,
    /// The account does not hold the role.
    RoleWasNotAssigned,
    /// The account is not a global administrator.
    AccountWasNotGlobalAdmin,
}

/// The outcome of a failed operation: a refused origin, or one of the
/// operation's own errors.
#[derive(Clone, Copy, Debug, PartialEq, Eq, Structural)]
pub enum DispatchError {
    BadOrigin,
    Module(Error),
}

/// The notice that each successful operation leaves behind.
#[derive(Clone, Copy, Debug, PartialEq, Eq)]
pub enum Event {
    RoleCreated { role: Role },
    RoleUnassigned { pallet_name: PalletName, account_id: AccountId },
    RoleAssigned { pallet_name: PalletName, account_id: AccountId },
    GlobalAdminAdded { account_id: AccountId },
    GlobalAdminRemoved { account_id: AccountId },
}

/// The host's choice of which origins may add and remove global
/// administrators.
pub trait Config {
    /// Whether `origin` may add and remove global administrators.
    spec fn is_admin_origin(origin: Origin) -> bool;

    fn ensure_admin_origin(origin: &Origin) -> (r: Result<(), DispatchError>)
        ensures
            r == if Self::is_admin_origin(*origin) {
                Ok::<(), DispatchError>(())
            } else {
                Err(DispatchError::BadOrigin)
            },
    ;
}

/// Admits only the root origin to global-administrator management.
pub struct EnsureRoot;

impl Config for EnsureRoot {
    open spec fn is_admin_origin(origin: Origin) -> bool {
        origin == Origin::Root
    }

    fn ensure_admin_origin(origin: &Origin) -> (r: Result<(), DispatchError>) {
        match origin {
            Origin::Root => Ok(()),
            _ => Err(DispatchError::BadOrigin),
        }
    }
}

/// The account behind a signed origin.
pub open spec fn signer(origin: Origin) -> Option<AccountId> {
    match origin {
        Origin::Signed(who) => Some(who),
        _ => None,
    }
}

/// The account behind `origin`, or `BadOrigin` where it is not signed.
pub fn ensure_signed(origin: Origin) -> (r: Result<AccountId, DispatchError>)
    ensures
        r == match signer(origin) {
            Some(who) => Ok::<AccountId, DispatchError>(who),
            None => Err(DispatchError::BadOrigin),
        },
{
    match origin {
        Origin::Signed(who) => Ok(who),
        _ => Err(DispatchError::BadOrigin),
    }
}

/// The whole observable state: the three sets and the events emitted so far.
pub ghost struct RbacState {
    pub admins: Set<AccountId>,
    pub roles: Set<Role>,
    pub grants: Set<(AccountId, Role)>,
    pub events: Seq<Event>,
}

/// Every grant refers to a declared role.
pub open spec fn grants_declared(s: RbacState) -> bool {
    forall|a: AccountId, role: Role|
        #[trigger] s.grants.contains((a, role)) ==> s.roles.contains(role)
}

/// The role that allows managing `pallet`.
pub open spec fn manage_role(pallet: PalletName) -> Role {
    Role { pallet, permission: Permission::Manage }
}

/// The role that allows executing `call_name` of `pallet`.
pub open spec fn execute_role(pallet: PalletName, call_name: CallName) -> Role {
    Role { pallet, permission: Permission::Execute { call_name } }
}

/// `who` holds the declared role `role`.
pub open spec fn holds(s: RbacState, who: AccountId, role: Role) -> bool {
    s.roles.contains(role) && s.grants.contains((who, role))
}

/// `who` may declare, grant and revoke roles of `pallet`.
pub open spec fn may_manage(s: RbacState, who: AccountId, pallet: PalletName) -> bool {
    holds(s, who, manage_role(pallet)) || s.admins.contains(who)
}

/// What `create_role` does to state `s`.
pub open spec fn create_role_spec(
    s: RbacState,
    origin: Origin,
    pallet: PalletName,
    permission: Permission,
) -> (Result<(), DispatchError>, RbacState) {
    let role = Role { pallet, permission };
    match signer(origin) {
        None => (Err(DispatchError::BadOrigin), s),
        Some(who) => if !may_manage(s, who, pallet) {
            (Err(DispatchError::Module(Error::AccessDenied)), s)
        } else if s.roles.contains(role) {
            (Err(DispatchError::Module(Error::RoleAlreadyExists)), s)
        } else {
            (
                Ok(()),
                RbacState {
                    roles: s.roles.insert(role),
                    events: s.events.push(Event::RoleCreated { role }),
                    ..s
                },
            )
        },
    }
}

/// What `assign_role` does to state `s`: the role must exist before the
/// caller's rights are looked at.
pub open spec fn assign_role_spec(s: RbacState, origin: Origin, account: AccountId, role: Role) -> (
    Result<(), DispatchError>,
    RbacState,
) {
    match signer(origin) {
        None => (Err(DispatchError::BadOrigin), s),
        Some(who) => if !s.roles.contains(role) {
            (Err(DispatchError::Module(Error::RoleDoesNotExist)), s)
        } else if !may_manage(s, who, role.pallet) {
            (Err(DispatchError::Module(Error::AccessDenied)), s)
        } else {
            (
                Ok(()),
                RbacState {
                    grants: s.grants.insert((account, role)),
                    events: s.events.push(
                        Event::RoleAssigned { pallet_name: role.pallet, account_id: account },
                    ),
                    ..s
                },
            )
        },
    }
}

/// What `unassign_role` does to state `s`: the caller's rights are looked at
/// before the grant.
pub open spec fn unassign_role_spec(
    s: RbacState,
    origin: Origin,
    account: AccountId,
    role: Role,
) -> (Result<(), DispatchError>, RbacState) {
    match signer(origin) {
        None => (Err(DispatchError::BadOrigin), s),
        Some(who) => if !may_manage(s, who, role.pallet) {
            (Err(DispatchError::Module(Error::AccessDenied)), s)
        } else if !s.grants.contains((account, role)) {
            (Err(DispatchError::Module(Error::RoleWasNotAssigned)), s)
        } else {
            (
                Ok(()),
                RbacState {
                    grants: s.grants.remove((account, role)),
                    events: s.events.push(
                        Event::RoleUnassigned { pallet_name: role.pallet, account_id: account },
                    ),
                    ..s
                },
            )
        },
    }
}

/// What `add_global_admin` does to state `s`, where `admitted` says whether
/// the origin may manage global administrators.
pub open spec fn add_global_admin_spec(s: RbacState, admitted: bool, account: AccountId) -> (
    Result<(), DispatchError>,
    RbacState,
) {
    if !admitted {
        (Err(DispatchError::BadOrigin), s)
    } else {
        (
            Ok(()),
            RbacState {
                admins: s.admins.insert(account),
                events: s.events.push(Event::GlobalAdminAdded { account_id: account }),
                ..s
            },
        )
    }
}

/// What `remove_global_admin` does to state `s`, where `admitted` says
/// whether the origin may manage global administrators.
pub open spec fn remove_global_admin_spec(s: RbacState, admitted: bool, account: AccountId) -> (
    Result<(), DispatchError>,
    RbacState,
) {
    if !admitted {
        (Err(DispatchError::BadOrigin), s)
    } else if !s.admins.contains(account) {
        (Err(DispatchError::Module(Error::AccountWasNotGlobalAdmin)), s)
    } else {
        (
            Ok(()),
            RbacState {
                admins: s.admins.remove(account),
                events: s.events.push(Event::GlobalAdminRemoved { account_id: account }),
                ..s
            },
        )
    }
}

/// Accounts seeded as global administrators when the system starts.
pub struct GenesisConfig {
    pub global_admins: Vec<AccountId>,
}

impl Default for GenesisConfig {
    fn default() -> (r: GenesisConfig)
        ensures
            r.global_admins@ == Seq::<AccountId>::empty(),
    {
        GenesisConfig { global_admins: Vec::new() }
    }
}

impl GenesisConfig {
    /// A fresh system whose global administrators are the listed accounts.
    pub fn build<T: Config>(&self) -> (r: Pallet<T>)
        ensures
            r.wf(),
            r@.admins == self.global_admins@.to_set(),
            r@.roles == Set::<Role>::empty(),
            r@.grants == Set::<(AccountId, Role)>::empty(),
            r@.events == Seq::<Event>::empty(),
    {
        let mut store = AuthStore::new();
        let mut i: usize = 0;
        while i < self.global_admins.len()
            invariant
                0 <= i <= self.global_admins@.len(),
                store.wf(),
                store.admin_set() == self.global_admins@.subrange(0, i as int).to_set(),
                store.role_set() == Set::<Role>::empty(),
                store.grant_set() == Set::<(AccountId, Role)>::empty(),
            decreases self.global_admins@.len() - i,
        {
            let a = self.global_admins[i];
            store.add_admin(a);
            proof {
                let s = self.global_admins@;
                assert(s.subrange(0, i + 1) =~= s.subrange(0, i as int).push(a));
                s.subrange(0, i as int).lemma_push_to_set_commute(a);
            }
            i = i + 1;
        }
        assert(self.global_admins@.subrange(0, i as int) =~= self.global_admins@);
        let r = Pallet { store, events: Vec::new(), config: core::marker::PhantomData };
        r
    }
}

/// The role-management service over its store, with the log of events.
pub struct Pallet<T: Config> {
    store: AuthStore,
    events: Vec<Event>,
    config: core::marker::PhantomData<T>,
}

impl<T: Config> View for Pallet<T> {
    type V = RbacState;

    closed spec fn view(&self) -> RbacState {
        RbacState {
            admins: self.store.admin_set(),
            roles: self.store.role_set(),
            grants: self.store.grant_set(),
            events: self.events@,
        }
    }
}

impl<T: Config> Pallet<T> {
    /// The store is well formed and every grant refers to a declared role.
    pub closed spec fn wf(&self) -> bool {
        self.store.wf() && grants_declared(self@)
    }

    /// A well-formed system grants declared roles only.
    pub proof fn lemma_wf_grants_declared(&self)
        requires
            self.wf(),
        ensures
            grants_declared(self@),
    {
    }

    /// A system with no global administrators, roles, grants or events.
    pub fn new() -> (r: Pallet<T>)
        ensures
            r.wf(),
            r@.admins == Set::<AccountId>::empty(),
            r@.roles == Set::<Role>::empty(),
            r@.grants == Set::<(AccountId, Role)>::empty(),
            r@.events == Seq::<Event>::empty(),
    {
        Pallet { store: AuthStore::new(), events: Vec::new(), config: core::marker::PhantomData }
    }

    /// The events emitted so far, oldest first.
    pub fn events(&self) -> (r: &Vec<Event>)
        ensures
            r@ == self@.events,
    {
        &self.events
    }

    /// Whether `account` is a global administrator.
    pub fn is_global_admin(&self, account: AccountId) -> (r: bool)
        ensures
            r == self@.admins.contains(account),
    {
        self.store.is_global_admin(account)
    }

    /// Whether `role` has been declared.
    pub fn role_declared(&self, role: &Role) -> (r: bool)
        ensures
            r == self@.roles.contains(*role),
    {
        self.store.role_declared(role)
    }

    /// Whether `account` holds `role`.
    pub fn is_granted(&self, account: AccountId, role: &Role) -> (r: bool)
        ensures
            r == self@.grants.contains((account, *role)),
    {
        self.store.is_granted(account, role)
    }

    /// Whether `account` holds the declared role to execute `call_name` of
    /// `pallet`.
    pub fn verify_execute_access(
        &self,
        account: AccountId,
        pallet: PalletName,
        call_name: CallName,
    ) -> (r: bool)
        ensures
            r == holds(self@, account, execute_role(pallet, call_name)),
    {
        let role = Role::execute(pallet, call_name);
        self.store.role_declared(&role) && self.store.is_granted(account, &role)
    }

    /// Whether `account` holds the declared role to manage `pallet`.
    pub fn verify_manage_access(&self, account: AccountId, pallet: PalletName) -> (r: bool)
        ensures
            r == holds(self@, account, manage_role(pallet)),
    {
        let role = Role::manage(pallet);
        self.store.role_declared(&role) && self.store.is_granted(account, &role)
    }

    /// Declares the role `{pallet_name, permission}`. The caller must manage
    /// the module or be a global administrator.
    pub fn create_role(
        &mut self,
        origin: Origin,
        pallet_name: PalletName,
        permission: Permission,
    ) -> (r: Result<(), DispatchError>)
        requires
            old(self).wf(),
        ensures
            final(self).wf(),
            (r, final(self)@) == create_role_spec(old(self)@, origin, pallet_name, permission),
    {
        let who = ensure_signed(origin)?;
        if self.verify_manage_access(who, pallet_name) || self.store.is_global_admin(who) {
            let role = Role { pallet: pallet_name, permission };
            if self.store.role_declared(&role) {
                return Err(DispatchError::Module(Error::RoleAlreadyExists));
            }
            self.store.declare_role(role);
            self.events.push(Event::RoleCreated { role });
            Ok(())
        } else {
            Err(DispatchError::Module(Error::AccessDenied))
        }
    }

    /// Grants the declared `role` to `account`. An undeclared role is
    /// reported before the caller's rights are checked; granting a role
    /// already held succeeds.
    pub fn assign_role(
        &mut self,
        origin: Origin,
        account_id: AccountId,
        role: Role,
    ) -> (r: Result<(), DispatchError>)
        requires
            old(self).wf(),
        ensures
            final(self).wf(),
            (r, final(self)@) == assign_role_spec(old(self)@, origin, account_id, role),
    {
        let who = ensure_signed(origin)?;
        if !self.store.role_declared(&role) {
            return Err(DispatchError::Module(Error::RoleDoesNotExist));
        }
        if self.verify_manage_access(who, role.pallet) || self.store.is_global_admin(who) {
            self.store.grant(account_id, role);
            self.events.push(Event::RoleAssigned { pallet_name: role.pallet, account_id });
            Ok(())
        } else {
            Err(DispatchError::Module(Error::AccessDenied))
        }
    }

    /// Revokes `role` from `account`. The caller's rights are checked before
    /// the grant is looked up.
    pub fn unassign_role(
        &mut self,
        origin: Origin,
        account_id: AccountId,
        role: Role,
    ) -> (r: Result<(), DispatchError>)
        requires
            old(self).wf(),
        ensures
            final(self).wf(),
            (r, final(self)@) == unassign_role_spec(old(self)@, origin, account_id, role),
    {
        let who = ensure_signed(origin)?;
        if self.verify_manage_access(who, role.pallet) || self.store.is_global_admin(who) {
            if !self.store.is_granted(account_id, &role) {
                return Err(DispatchError::Module(Error::RoleWasNotAssigned));
            }
            self.store.revoke(account_id, &role);
            self.events.push(Event::RoleUnassigned { pallet_name: role.pallet, account_id });
            Ok(())
        } else {
            Err(DispatchError::Module(Error::AccessDenied))
        }
    }

    /// Makes `account_id` a global administrator; adding one that already is
    /// succeeds.
    pub fn add_global_admin(
        &mut self,
        origin: Origin,
        account_id: AccountId,
    ) -> (r: Result<(), DispatchError>)
        requires
            old(self).wf(),
        ensures
            final(self).wf(),
            (r, final(self)@) == add_global_admin_spec(
                old(self)@,
                T::is_admin_origin(origin),
                account_id,
            ),
    {
        T::ensure_admin_origin(&origin)?;
        self.store.add_admin(account_id);
        self.events.push(Event::GlobalAdminAdded { account_id });
        assert(self@.grants == old(self)@.grants && self@.roles == old(self)@.roles);
        Ok(())
    }

    /// Removes `account_id` from the global administrators.
    pub fn remove_global_admin(
        &mut self,
        origin: Origin,
        account_id: AccountId,
    ) -> (r: Result<(), DispatchError>)
        requires
            old(self).wf(),
        ensures
            final(self).wf(),
            (r, final(self)@) == remove_global_admin_spec(
                old(self)@,
                T::is_admin_origin(origin),
                account_id,
            ),
    {
        T::ensure_admin_origin(&origin)?;
        if !self.store.is_global_admin(account_id) {
            return Err(DispatchError::Module(Error::AccountWasNotGlobalAdmin));
        }
        self.store.remove_admin(account_id);
        self.events.push(Event::GlobalAdminRemoved { account_id });
        assert(self@.grants == old(self)@.grants && self@.roles == old(self)@.roles);
        Ok(())
    }
}

} // verus!
