//! User accounts.

use vstd::prelude::*;

verus! {

/// A user account.
#[derive(Debug)]
pub struct User {
    pub id: u64,
    pub name: String,
    pub email: String,
    pub active: bool,
}

/// A new account with the given data. New accounts are active.
pub fn new_user(id: u64, name: String, email: String) -> (user: User)
    ensures
        user.id == id,
        user.name == name,
        user.email == email,
        user.active,
{
    User { id, name, email, active: true }
}

} // verus!
