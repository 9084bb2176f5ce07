//! A table with at most one entry per worker role.

use crate::role::ServiceRole;
use vstd::prelude::*;

verus! {

/// Holds at most one value of type `T` for each worker role.
#[derive(Debug)]
pub struct RoleTable<T> {
    alden: Option<T>,
    vault: Option<T>,
    core: Option<T>,
    synapse: Option<T>,
}

impl<T> RoleTable<T> {
    /// The value kept for `role`, if any.
    pub closed spec fn slot(&self, role: ServiceRole) -> Option<T> {
        match role {
            ServiceRole::Alden => self.alden,
            ServiceRole::Vault => self.vault,
            ServiceRole::Core => self.core,
            ServiceRole::Synapse => self.synapse,
        }
    }
}

impl<T> View for RoleTable<T> {
    type V = Map<ServiceRole, T>;

    /// The table as a map from each role that has a value to that value.
    open spec fn view(&self) -> Map<ServiceRole, T> {
        Map::new(|role: ServiceRole| self.slot(role) is Some, |role: ServiceRole| self.slot(role)->0)
    }
}

impl<T> RoleTable<T> {
    /// A table without entries.
    pub fn new() -> (table: RoleTable<T>)
        ensures
            table@ == Map::<ServiceRole, T>::empty(),
    {
        let table = RoleTable { alden: None, vault: None, core: None, synapse: None };
        assert(table@ =~= Map::<ServiceRole, T>::empty());
        table
    }

    /// The value kept for `role`, if any.
    pub fn get(&self, role: ServiceRole) -> (found: Option<&T>)
        ensures
            found is Some == self@.contains_key(role),
            found matches Some(value) ==> *value == self@[role],
    {
        match role {
            ServiceRole::Alden => self.alden.as_ref(),
            ServiceRole::Vault => self.vault.as_ref(),
            ServiceRole::Core => self.core.as_ref(),
            ServiceRole::Synapse => self.synapse.as_ref(),
        }
    }

    /// Puts `value` in the place of `role` and hands back the value that
    /// was there.
    pub fn insert(&mut self, role: ServiceRole, value: T) -> (displaced: Option<T>)
        ensures
            final(self)@ == old(self)@.insert(role, value),
            displaced is Some == old(self)@.contains_key(role),
            displaced matches Some(previous) ==> previous == old(self)@[role],
        no_unwind
    {
        let mut slot = Some(value);
        match role {
            ServiceRole::Alden => core::mem::swap(&mut self.alden, &mut slot),
            ServiceRole::Vault => core::mem::swap(&mut self.vault, &mut slot),
            ServiceRole::Core => core::mem::swap(&mut self.core, &mut slot),
            ServiceRole::Synapse => core::mem::swap(&mut self.synapse, &mut slot),
        }
        assert(self@ =~= old(self)@.insert(role, value));
        slot
    }

    /// Takes the value of `role` out of the table.
    pub fn take(&mut self, role: ServiceRole) -> (taken: Option<T>)
        ensures
            final(self)@ == old(self)@.remove(role),
            taken is Some == old(self)@.contains_key(role),
            taken matches Some(value) ==> value == old(self)@[role],
        no_unwind
    {
        let mut slot: Option<T> = None;
        match role {
            ServiceRole::Alden => core::mem::swap(&mut self.alden, &mut slot),
            ServiceRole::Vault => core::mem::swap(&mut self.vault, &mut slot),
            ServiceRole::Core => core::mem::swap(&mut self.core, &mut slot),
            ServiceRole::Synapse => core::mem::swap(&mut self.synapse, &mut slot),
        }
        assert(self@ =~= old(self)@.remove(role));
        slot
    }
}

} // verus!
