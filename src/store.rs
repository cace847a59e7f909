//! The authorization store: global administrators, declared roles and
//! grants, each kept as a set. Nothing here checks who is asking.
use vstd::prelude::*;

use crate::role::Role;

verus! {

/// Account identifiers.
pub type AccountId = u64;

/// Removing the entry at `i` of a sequence without repeats removes exactly
/// that value from the set of its entries.
proof fn lemma_remove_unique<T>(s: Seq<T>, i: int)
    requires
        s.no_duplicates(),
        0 <= i < s.len(),
    ensures
        s.remove(i).no_duplicates(),
        s.remove(i).to_set() == s.to_set().remove(s[i]),
{
    let r = s.remove(i);
    assert forall|x: T| r.contains(x) <==> (s.contains(x) && x != s[i]) by {
        if r.contains(x) {
            let j = choose|j: int| 0 <= j < r.len() && r[j] == x;
            if j < i {
                assert(s[j] == x);
            } else {
                assert(s[j + 1] == x);
            }
        }
        if s.contains(x) && x != s[i] {
            let j = choose|j: int| 0 <= j < s.len() && s[j] == x;
            if j < i {
                assert(r[j] == x);
            } else {
                assert(r[j - 1] == x);
            }
        }
    }
    assert(r.to_set() =~= s.to_set().remove(s[i]));
}

/// Appending a value not yet present keeps a sequence free of repeats and
/// adds the value to the set of its entries.
proof fn lemma_push_fresh<T>(s: Seq<T>, x: T)
    requires
        s.no_duplicates(),
        !s.contains(x),
    ensures
        s.push(x).no_duplicates(),
        s.push(x).to_set() == s.to_set().insert(x),
{
    let p = s.push(x);
    assert forall|a: int, b: int| 0 <= a < p.len() && 0 <= b < p.len() && a != b implies p[a]
        != p[b] by {
        if a == s.len() {
            assert(s.contains(p[b]) ==> p[b] != x);
            assert(s[b] == p[b]);
        } else if b == s.len() {
            assert(s[a] == p[a]);
        }
    }
    s.lemma_push_to_set_commute(x);
}

/// The three sets behind every authorization decision.
pub struct AuthStore {
    admins: Vec<AccountId>,
    roles: Vec<Role>,
    grants: Vec<(AccountId, Role)>,
}

impl AuthStore {
    /// Accounts with authority over every module.
    pub closed spec fn admin_set(&self) -> Set<AccountId> {
        self.admins@.to_set()
    }

    /// Roles that have been declared and may be granted.
    pub closed spec fn role_set(&self) -> Set<Role> {
        self.roles@.to_set()
    }

    /// Pairs of an account and a role that it holds.
    pub closed spec fn grant_set(&self) -> Set<(AccountId, Role)> {
        self.grants@.to_set()
    }

    /// Each set is held without repeated entries.
    pub closed spec fn wf(&self) -> bool {
        &&& self.admins@.no_duplicates()
        &&& self.roles@.no_duplicates()
        &&& self.grants@.no_duplicates()
    }

    /// A store with all three sets empty.
    pub fn new() -> (r: AuthStore)
        ensures
            r.wf(),
            r.admin_set() == Set::<AccountId>::empty(),
            r.role_set() == Set::<Role>::empty(),
            r.grant_set() == Set::<(AccountId, Role)>::empty(),
    {
        let r = AuthStore { admins: Vec::new(), roles: Vec::new(), grants: Vec::new() };
        assert(r.admins@.to_set() =~= Set::<AccountId>::empty());
        assert(r.roles@.to_set() =~= Set::<Role>::empty());
        assert(r.grants@.to_set() =~= Set::<(AccountId, Role)>::empty());
        r
    }

    fn admin_index(&self, account: AccountId) -> (r: Option<usize>)
        ensures
            match r {
                Some(i) => i < self.admins@.len() && self.admins@[i as int] == account,
                None => !self.admins@.contains(account),
            },
    {
        let mut i: usize = 0;
        while i < self.admins.len()
            invariant
                0 <= i <= self.admins@.len(),
                forall|j: int| 0 <= j < i ==> self.admins@[j] != account,
            decreases self.admins@.len() - i,
        {
            if self.admins[i] == account {
                return Some(i);
            }
            i = i + 1;
        }
        None
    }

    fn role_index(&self, role: &Role) -> (r: Option<usize>)
        ensures
            match r {
                Some(i) => i < self.roles@.len() && self.roles@[i as int] == *role,
                None => !self.roles@.contains(*role),
            },
    {
        let mut i: usize = 0;
        while i < self.roles.len()
            invariant
                0 <= i <= self.roles@.len(),
                forall|j: int| 0 <= j < i ==> self.roles@[j] != *role,
            decreases self.roles@.len() - i,
        {
            if self.roles[i] == *role {
                return Some(i);
            }
            i = i + 1;
        }
        None
    }

    fn grant_index(&self, account: AccountId, role: &Role) -> (r: Option<usize>)
        ensures
            match r {
                Some(i) => i < self.grants@.len() && self.grants@[i as int] == (account, *role),
                None => !self.grants@.contains((account, *role)),
            },
    {
        let mut i: usize = 0;
        while i < self.grants.len()
            invariant
                0 <= i <= self.grants@.len(),
                forall|j: int| 0 <= j < i ==> self.grants@[j] != (account, *role),
            decreases self.grants@.len() - i,
        {
            let entry = &self.grants[i];
            if entry.0 == account && entry.1 == *role {
                return Some(i);
            }
            i = i + 1;
        }
        None
    }

    /// Whether `account` is a global administrator.
    pub fn is_global_admin(&self, account: AccountId) -> (r: bool)
        ensures
            r == self.admin_set().contains(account),
    {
        self.admin_index(account).is_some()
    }

    /// Whether `role` has been declared.
    pub fn role_declared(&self, role: &Role) -> (r: bool)
        ensures
            r == self.role_set().contains(*role),
    {
        self.role_index(role).is_some()
    }

    /// Whether `account` holds `role`.
    pub fn is_granted(&self, account: AccountId, role: &Role) -> (r: bool)
        ensures
            r == self.grant_set().contains((account, *role)),
    {
        self.grant_index(account, role).is_some()
    }

    /// Adds `role` to the declared roles.
    pub fn declare_role(&mut self, role: Role)
        requires
            old(self).wf(),
        ensures
            final(self).wf(),
            final(self).role_set() == old(self).role_set().insert(role),
            final(self).admin_set() == old(self).admin_set(),
            final(self).grant_set() == old(self).grant_set(),
    {
        if self.role_index(&role).is_none() {
            proof {
                lemma_push_fresh(self.roles@, role);
            }
            self.roles.push(role);
        } else {
            assert(self.roles@.to_set().insert(role) =~= self.roles@.to_set());
        }
    }

    /// Records that `account` holds `role`.
    pub fn grant(&mut self, account: AccountId, role: Role)
        requires
            old(self).wf(),
        ensures
            final(self).wf(),
            final(self).grant_set() == old(self).grant_set().insert((account, role)),
            final(self).admin_set() == old(self).admin_set(),
            final(self).role_set() == old(self).role_set(),
    {
        if self.grant_index(account, &role).is_none() {
            proof {
                lemma_push_fresh(self.grants@, (account, role));
            }
            self.grants.push((account, role));
        } else {
            assert(self.grants@.to_set().insert((account, role)) =~= self.grants@.to_set());
        }
    }

    /// Removes the record that `account` holds `role`.
    pub fn revoke(&mut self, account: AccountId, role: &Role)
        requires
            old(self).wf(),
        ensures
            final(self).wf(),
            final(self).grant_set() == old(self).grant_set().remove((account, *role)),
            final(self).admin_set() == old(self).admin_set(),
            final(self).role_set() == old(self).role_set(),
    {
        match self.grant_index(account, role) {
            Some(i) => {
                proof {
                    lemma_remove_unique(self.grants@, i as int);
                }
                self.grants.remove(i);
            },
            None => {
                assert(self.grants@.to_set().remove((account, *role)) =~= self.grants@.to_set());
            },
        }
    }

    /// Adds `account` to the global administrators.
    pub fn add_admin(&mut self, account: AccountId)
        requires
            old(self).wf(),
        ensures
            final(self).wf(),
            final(self).admin_set() == old(self).admin_set().insert(account),
            final(self).role_set() == old(self).role_set(),
            final(self).grant_set() == old(self).grant_set(),
    {
        if self.admin_index(account).is_none() {
            proof {
                lemma_push_fresh(self.admins@, account);
            }
            self.admins.push(account);
        } else {
            assert(self.admins@.to_set().insert(account) =~= self.admins@.to_set());
        }
    }

    /// Removes `account` from the global administrators.
    pub fn remove_admin(&mut self, account: AccountId)
        requires
            old(self).wf(),
        ensures
            final(self).wf(),
            final(self).admin_set() == old(self).admin_set().remove(account),
            final(self).role_set() == old(self).role_set(),
            final(self).grant_set() == old(self).grant_set(),
    {
        match self.admin_index(account) {
            Some(i) => {
                proof {
                    lemma_remove_unique(self.admins@, i as int);
                }
                self.admins.remove(i);
            },
            None => {
                assert(self.admins@.to_set().remove(account) =~= self.admins@.to_set());
            },
        }
    }
}

} // verus!
