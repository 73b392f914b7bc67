//! Accounts and the values exchanged when registering or logging in.

use vstd::prelude::*;

verus! {

/// A registered account.
#[derive(Debug, PartialEq, Eq)]
pub struct User {
    /// Identifier assigned by the store.
    pub id: i64,
    pub username: String,
    pub email: String,
    /// Opaque salted hash of the password.
    pub password_hash: String,
    /// Creation instant, in milliseconds since the Unix epoch.
    pub created_at: i64,
}

/// Mathematical value of a [`User`].
pub struct UserView {
    pub id: i64,
    pub username: Seq<char>,
    pub email: Seq<char>,
    pub password_hash: Seq<char>,
    pub created_at: i64,
}

impl View for User {
    type V = UserView;

    open spec fn view(&self) -> UserView {
        UserView {
            id: self.id,
            username: self.username@,
            email: self.email@,
            password_hash: self.password_hash@,
            created_at: self.created_at,
        }
    }
}

impl Clone for User {
    fn clone(&self) -> (copy: User)
        ensures
            copy@ == self@,
    {
        User {
            id: self.id,
            username: self.username.clone(),
            email: self.email.clone(),
            password_hash: self.password_hash.clone(),
            created_at: self.created_at,
        }
    }
}

/// Body of a registration request.
#[derive(Debug, Clone, PartialEq, Eq)]
pub struct CreateUserParams {
    pub username: String,
    pub email: String,
    pub password: String,
}

/// Body of a login request.
#[derive(Debug, Clone, PartialEq, Eq)]
pub struct LoginParams {
    pub username: String,
    pub password: String,
}

/// What a successful registration or login hands back.
#[derive(Debug, PartialEq, Eq)]
pub struct UserAndToken {
    pub user: User,
    pub token: String,
}

/// The identity recovered from a verified bearer token.
#[derive(Debug, Clone, PartialEq, Eq)]
pub struct AuthenticatedUser {
    pub user_id: i64,
    pub username: String,
}

} // verus!
