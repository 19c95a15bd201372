//! The in-memory registry of admitted users, keyed by session identifier.

use crate::user::User;
use std::collections::HashMap;
use vstd::prelude::*;

verus! {

broadcast use vstd::std_specs::hash::group_hash_axioms;

/// The table of currently admitted users for one server instance, keyed by
/// each user's 128-bit session identifier. Within current scope the registry
/// only grows: admission is the sole mutation, and the table is dropped with
/// the server instance that owns it.
pub struct UserRegistry {
    users: HashMap<u128, User>,
}

impl View for UserRegistry {
    type V = Map<u128, User>;

    closed spec fn view(&self) -> Map<u128, User> {
        self.users@
    }
}

/// A registry's view is always a finite map.
pub broadcast proof fn lemma_registry_finite(r: &UserRegistry)
    ensures
        #[trigger] r@.dom().finite(),
{
    assert(r.users@.dom().finite());
}

impl UserRegistry {
    /// An empty registry.
    pub fn new() -> (r: UserRegistry)
        ensures
            r@ == Map::<u128, User>::empty(),
    {
        UserRegistry { users: HashMap::new() }
    }

    /// How many users are registered.
    pub fn len(&self) -> (r: usize)
        ensures
            r == self@.len(),
    {
        self.users.len()
    }

    /// Whether a user with this session identifier is registered.
    pub fn contains(&self, id: u128) -> (r: bool)
        ensures
            r == self@.contains_key(id),
    {
        self.users.contains_key(&id)
    }

    /// Registers a user under a session identifier not present yet.
    pub fn insert_new(&mut self, user: User)
        requires
            !old(self)@.contains_key(user.uuid),
        ensures
            final(self)@ == old(self)@.insert(user.uuid, user),
    {
        let id = user.uuid;
        self.users.insert(id, user);
    }
}

} // verus!
