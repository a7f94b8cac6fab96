use vstd::prelude::*;

verus! {

/// An account with its sign-in bookkeeping.
pub struct User {
    pub active: bool,
    pub username: String,
    pub email: String,
    pub sign_in_count: u64,
}

/// An RGB colour as a tuple struct.
#[derive(Debug, Clone, Copy, PartialEq, Eq, Structural)]
pub struct Color(pub i32, pub i32, pub i32);

/// A unit-like struct that carries no data.
#[derive(Debug, Clone, Copy, PartialEq, Eq, Structural)]
pub struct AlwaysEqual;

/// A fresh, active user that has signed in once.
pub fn build_user(email: String, username: String) -> (u: User)
    ensures
        u.active,
        u.username@ == username@,
        u.email@ == email@,
        u.sign_in_count == 1,
{
    User { active: true, username, email, sign_in_count: 1 }
}

} // verus!
