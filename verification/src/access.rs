//! Roles, the pause switch and the reentrancy guard that the contracts share.
use vstd::prelude::*;

use crate::host::Address;
use crate::list::{list_contains, list_without, without};
use crate::table::{Key, Table};

verus! {

/// What an address may be to a contract.
#[derive(Clone, Copy, Debug, PartialEq, Eq, Structural)]
pub enum Role {
    Admin,
    Owner,
    Guardian,
    Beneficiary,
}

impl Key for Role {
    fn same(&self, other: &Self) -> (equal: bool) {
        *self == *other
    }
}

/// Roles by address, whether the contract is paused, and whether a guarded call
/// is under way.
pub struct AccessControl {
    pub roles: Table<Address, Vec<Role>>,
    pub paused: bool,
    pub entered: bool,
}

/// The model of [`AccessControl`].
#[verifier::ext_equal]
pub struct AccessView {
    pub roles: Map<Address, Seq<Role>>,
    pub paused: bool,
    pub entered: bool,
}

impl View for AccessControl {
    type V = AccessView;

    open spec fn view(&self) -> AccessView {
        AccessView { roles: self.roles@, paused: self.paused, entered: self.entered }
    }
}

impl AccessView {
    /// The roles of an address, in the order in which they were assigned.
    pub open spec fn roles_of(self, address: Address) -> Seq<Role> {
        if self.roles.contains_key(address) {
            self.roles[address]
        } else {
            Seq::empty()
        }
    }

    /// Whether an address holds a role.
    pub open spec fn has(self, address: Address, role: Role) -> bool {
        self.roles_of(address).contains(role)
    }

    /// After a role was assigned: it joins the roles of the address, once.
    pub open spec fn assigned(self, address: Address, role: Role) -> AccessView {
        if self.has(address, role) {
            self
        } else {
            AccessView {
                roles: self.roles.insert(address, self.roles_of(address).push(role)),
                ..self
            }
        }
    }

    /// After a role was revoked: the address keeps its other roles.
    pub open spec fn revoked(self, address: Address, role: Role) -> AccessView {
        if self.has(address, role) {
            AccessView {
                roles: self.roles.insert(address, without(self.roles_of(address), role)),
                ..self
            }
        } else {
            self
        }
    }
}

/// A role is held once it was assigned, and no longer once it was revoked; the
/// roles of every other address, and every other role, stay.
pub proof fn law_roles(access: AccessView, address: Address, role: Role, who: Address, what: Role)
    ensures
        access.assigned(address, role).has(who, what) <==> access.has(who, what) || (who == address
            && what == role),
        access.revoked(address, role).has(who, what) <==> access.has(who, what) && !(who == address
            && what == role),
{
    crate::list::lemma_push_contains(access.roles_of(address), role, what);
    crate::list::lemma_without_contains(access.roles_of(address), role, what);
}

impl AccessControl {
    /// No roles, not paused, no call under way.
    pub fn new() -> (access: AccessControl)
        ensures
            access@ == (AccessView { roles: Map::empty(), paused: false, entered: false }),
    {
        AccessControl { roles: Table::new(), paused: false, entered: false }
    }

    /// Whether the address holds the role.
    pub fn has_role(&self, address: Address, role: Role) -> (yes: bool)
        ensures
            yes == self@.has(address, role),
    {
        match self.roles.get(address) {
            Some(roles) => list_contains(roles, &role),
            None => {
                proof {
                    assert(!Seq::<Role>::empty().contains(role));
                }
                false
            },
        }
    }

    /// The roles of the address.
    pub fn get_roles(&self, address: Address) -> (roles: Vec<Role>)
        ensures
            roles@ == self@.roles_of(address),
    {
        match self.roles.get(address) {
            Some(roles) => roles.clone(),
            None => Vec::new(),
        }
    }

    /// Gives the address a role.
    pub fn assign_role(&mut self, address: Address, role: Role)
        ensures
            final(self)@ == old(self)@.assigned(address, role),
    {
        if !self.has_role(address, role) {
            let mut roles = self.get_roles(address);
            roles.push(role);
            self.roles.set(address, roles);
        }
    }

    /// Takes a role from the address.
    pub fn revoke_role(&mut self, address: Address, role: Role)
        ensures
            final(self)@ == old(self)@.revoked(address, role),
    {
        if self.has_role(address, role) {
            let roles = self.get_roles(address);
            let rest = list_without(&roles, &role);
            self.roles.set(address, rest);
        }
    }
}

/// A role that is assigned comes last among those of the address, and one that was held
/// already changes nothing; neither the pause switch nor the guard is touched.
pub proof fn law_role_lists(access: AccessView, address: Address, role: Role)
    ensures
        access.has(address, role) ==> access.assigned(address, role) == access,
        !access.has(address, role) ==> access.assigned(address, role).roles_of(address)
            == access.roles_of(address).push(role),
        !access.has(address, role) ==> access.revoked(address, role) == access,
        access.assigned(address, role).paused == access.paused,
        access.assigned(address, role).entered == access.entered,
        access.revoked(address, role).paused == access.paused,
        access.revoked(address, role).entered == access.entered,
        !access.roles.contains_key(address) ==> access.roles_of(address).len() == 0,
{
}

} // verus!
