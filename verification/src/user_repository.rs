//! The account store: lookup by username and insertion that refuses a
//! username or an email that is already taken.

use vstd::prelude::*;
use vstd::string::*;
use crate::error::{AppError, AppErrorView};
use crate::user::{User, UserView};

verus! {

/// Whether some account in `users` carries `username`.
pub open spec fn username_taken(users: Seq<UserView>, username: Seq<char>) -> bool {
    exists|i: int| 0 <= i < users.len() && #[trigger] users[i].username == username
}

/// Whether some account in `users` carries `email`.
pub open spec fn email_taken(users: Seq<UserView>, email: Seq<char>) -> bool {
    exists|i: int| 0 <= i < users.len() && #[trigger] users[i].email == email
}

/// Whether no two accounts in `users` share an id, a username or an email.
pub open spec fn accounts_distinct(users: Seq<UserView>) -> bool {
    forall|i: int, j: int|
        0 <= i < j < users.len() ==> {
            &&& (#[trigger] users[i]).id != (#[trigger] users[j]).id
            &&& users[i].username != users[j].username
            &&& users[i].email != users[j].email
        }
}

/// Message of the storage error raised when the store has run out of ids.
pub open spec fn ids_exhausted_message() -> Seq<char> {
    "account identifiers are exhausted"@
}

/// What inserting an account yields on a store that holds `users` and
/// would hand out `next_id`: a uniqueness conflict when the username or the
/// email is taken, a storage error when no id is left, and otherwise the new
/// account, created at instant `now`.
pub open spec fn save_outcome(
    users: Seq<UserView>,
    next_id: i64,
    username: Seq<char>,
    email: Seq<char>,
    password_hash: Seq<char>,
    now: i64,
) -> Result<UserView, AppErrorView> {
    if username_taken(users, username) || email_taken(users, email) {
        Err(AppErrorView::UserAlreadyExists)
    } else if next_id == i64::MAX {
        Err(AppErrorView::SqlxError(ids_exhausted_message()))
    } else {
        Ok(UserView { id: next_id, username, email, password_hash, created_at: now })
    }
}

/// The code with which a relational store reports a violated uniqueness
/// constraint.
pub const DUPLICATE_CODE: &'static str = "23505";

/// What a failed insertion into a relational store means: a uniqueness
/// conflict when the store's error code says so, and a storage error with the
/// store's message otherwise.
pub open spec fn insert_failure(code: Option<Seq<char>>, message: Seq<char>) -> AppErrorView {
    if code == Some("23505"@) {
        AppErrorView::UserAlreadyExists
    } else {
        AppErrorView::SqlxError(message)
    }
}

/// Classifies the failure of an insertion into a relational store by the
/// store's error code, if it gave one, and keeps its message otherwise.
pub fn classify_insert_failure(code: Option<&str>, message: String) -> (error: AppError)
    ensures
        error@ == insert_failure(
            match code {
                Some(c) => Some(c@),
                None => None,
            },
            message@,
        ),
{
    match code {
        Some(c) => {
            if String::from_str(c) == String::from_str(DUPLICATE_CODE) {
                AppError::UserAlreadyExists
            } else {
                AppError::SqlxError(message)
            }
        },
        None => AppError::SqlxError(message),
    }
}

/// The accounts, in the order in which they were created.
pub struct UserRepository {
    users: Vec<User>,
    next_id: i64,
}

impl View for UserRepository {
    type V = Seq<UserView>;

    closed spec fn view(&self) -> Seq<UserView> {
        Seq::new(self.users@.len(), |i: int| self.users@[i]@)
    }
}

impl UserRepository {
    /// The id that the next account will receive.
    pub closed spec fn next_id(&self) -> i64 {
        self.next_id
    }

    /// The store's invariant: ids, usernames and emails are unique, and
    /// every id handed out so far is positive and below the next one.
    pub open spec fn wf(&self) -> bool {
        &&& accounts_distinct(self@)
        &&& self.next_id() >= 1
        &&& forall|i: int| 0 <= i < self@.len() ==> 1 <= (#[trigger] self@[i]).id < self.next_id()
    }

    /// An empty store whose first account will get id 1.
    pub fn new() -> (repo: UserRepository)
        ensures
            repo.wf(),
            repo@ == Seq::<UserView>::empty(),
            repo.next_id() == 1,
    {
        let repo = UserRepository { users: Vec::new(), next_id: 1 };
        assert(repo@ =~= Seq::<UserView>::empty());
        repo
    }

    /// Looks the account with this username up. The in-memory store never
    /// fails.
    pub fn get_by_username(&self, username: &str) -> (found: Result<Option<User>, AppError>)
        ensures
            found is Ok,
            match found {
                Ok(Some(user)) => self@.contains(user@) && user.username@ == username@,
                Ok(None) => !username_taken(self@, username@),
                Err(_) => false,
            },
    {
        let wanted = String::from_str(username);
        let mut i: usize = 0;
        while i < self.users.len()
            invariant
                0 <= i <= self.users.len(),
                wanted@ == username@,
                forall|k: int| 0 <= k < i ==> (#[trigger] self@[k]).username != username@,
            decreases self.users.len() - i,
        {
            if self.users[i].username == wanted {
                let user = self.users[i].clone();
                assert(self@[i as int] == user@);
                return Ok(Some(user));
            }
            i += 1;
        }
        Ok(None)
    }

    /// Whether an account already carries the username or the email.
    fn is_taken(&self, username: &str, email: &str) -> (taken: bool)
        ensures
            taken == (username_taken(self@, username@) || email_taken(self@, email@)),
    {
        let wanted_name = String::from_str(username);
        let wanted_email = String::from_str(email);
        let mut i: usize = 0;
        while i < self.users.len()
            invariant
                0 <= i <= self.users.len(),
                wanted_name@ == username@,
                wanted_email@ == email@,
                forall|k: int| 0 <= k < i ==> (#[trigger] self@[k]).username != username@,
                forall|k: int| 0 <= k < i ==> (#[trigger] self@[k]).email != email@,
            decreases self.users.len() - i,
        {
            if self.users[i].username == wanted_name || self.users[i].email == wanted_email {
                assert(self@[i as int].username == username@ || self@[i as int].email == email@);
                return true;
            }
            i += 1;
        }
        false
    }

    /// Inserts a new account created at instant `now` (milliseconds since
    /// the Unix epoch) and returns it with its fresh id. When the username or
    /// the email is already taken the store is left exactly as it was and
    /// `UserAlreadyExists` comes back.
    pub fn save_user(&mut self, username: &str, email: &str, password_hash: &str, now: i64) -> (saved:
        Result<User, AppError>)
        requires
            old(self).wf(),
        ensures
            final(self).wf(),
            match saved {
                Ok(user) => {
                    &&& save_outcome(
                        old(self)@,
                        old(self).next_id(),
                        username@,
                        email@,
                        password_hash@,
                        now,
                    ) == Ok::<UserView, AppErrorView>(user@)
                    &&& final(self)@ == old(self)@.push(user@)
                    &&& final(self).next_id() == old(self).next_id() + 1
                },
                Err(e) => {
                    &&& save_outcome(
                        old(self)@,
                        old(self).next_id(),
                        username@,
                        email@,
                        password_hash@,
                        now,
                    ) == Err::<UserView, AppErrorView>(e@)
                    &&& final(self)@ == old(self)@
                    &&& final(self).next_id() == old(self).next_id()
                },
            },
    {
        if self.is_taken(username, email) {
            return Err(AppError::UserAlreadyExists);
        }
        if self.next_id == i64::MAX {
            return Err(AppError::SqlxError(String::from_str("account identifiers are exhausted")));
        }
        let user = User {
            id: self.next_id,
            username: String::from_str(username),
            email: String::from_str(email),
            password_hash: String::from_str(password_hash),
            created_at: now,
        };
        let saved = user.clone();
        self.users.push(user);
        self.next_id = self.next_id + 1;
        assert(self@ =~= old(self)@.push(saved@));
        Ok(saved)
    }
}

} // verus!
