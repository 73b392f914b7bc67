//! The account use-cases: registration and login.

use std::sync::Arc;
use vstd::prelude::*;
use vstd::string::*;
use crate::clock::Instant;
use crate::credentials::{hash_password, verify_outcome, verify_password};
use crate::error::{AppError, AppErrorView};
use crate::jwt::{issue_outcome, names_account, JwtService};
use crate::user::{User, UserAndToken, UserView};
use crate::user_repository::{accounts_distinct, save_outcome, username_taken, UserRepository};

verus! {

impl View for UserAndToken {
    type V = (UserView, Seq<char>);

    open spec fn view(&self) -> (UserView, Seq<char>) {
        (self.user@, self.token@)
    }
}

/// The mathematical value of a hashing result.
pub open spec fn hashed_view(hashed: Result<String, AppError>) -> Result<Seq<char>, AppErrorView> {
    match hashed {
        Ok(hash) => Ok(hash@),
        Err(e) => Err(e@),
    }
}

/// Whether `result` is the outcome `expected`.
pub open spec fn is_outcome(
    result: Result<UserAndToken, AppError>,
    expected: Result<(UserView, Seq<char>), AppErrorView>,
) -> bool {
    match result {
        Ok(granted) => expected == Ok::<(UserView, Seq<char>), AppErrorView>(granted@),
        Err(e) => expected == Err::<(UserView, Seq<char>), AppErrorView>(e@),
    }
}

/// What a registration yields once the password hash is known: the hasher's
/// error if it failed; the store's error if it refused the account, which
/// is `UserAlreadyExists` when the username or the email is taken; and
/// otherwise the new account with a token issued at `now`, or the signer's
/// error.
pub open spec fn register_outcome(
    users: Seq<UserView>,
    next_id: i64,
    secret: Seq<u8>,
    username: Seq<char>,
    email: Seq<char>,
    hashed: Result<Seq<char>, AppErrorView>,
    now: Instant,
) -> Result<(UserView, Seq<char>), AppErrorView> {
    match hashed {
        Err(e) => Err(e),
        Ok(hash) => match save_outcome(users, next_id, username, email, hash, now.millis) {
            Err(e) => Err(e),
            Ok(user) => match issue_outcome(secret, user.id, user.username, now.seconds) {
                Ok(token) => Ok((user, token)),
                Err(e) => Err(e),
            },
        },
    }
}

/// The accounts after a registration: one more when the hasher succeeded
/// and the store accepted the account, and the same as before otherwise.
pub open spec fn users_after_register(
    users: Seq<UserView>,
    next_id: i64,
    username: Seq<char>,
    email: Seq<char>,
    hashed: Result<Seq<char>, AppErrorView>,
    now: Instant,
) -> Seq<UserView> {
    match hashed {
        Err(_) => users,
        Ok(hash) => match save_outcome(users, next_id, username, email, hash, now.millis) {
            Err(_) => users,
            Ok(user) => users.push(user),
        },
    }
}

/// What presenting `password` for the account `found` yields: `UserNotFound`
/// when the lookup found nobody, an internal error when the stored hash is
/// malformed, `InvalidCredentials` when the password does not match, and the
/// account when it does.
pub open spec fn authenticate_outcome(
    found: Option<UserView>,
    username: Seq<char>,
    password: Seq<char>,
) -> Result<UserView, AppErrorView> {
    match found {
        None => Err(AppErrorView::UserNotFound { username }),
        Some(user) => match verify_outcome(password, user.password_hash) {
            Err(e) => Err(e),
            Ok(false) => Err(AppErrorView::InvalidCredentials),
            Ok(true) => Ok(user),
        },
    }
}

/// What a login yields for the account that the lookup found: the outcome
/// of [`authenticate_outcome`], followed by a token issued at `now`.
pub open spec fn login_outcome(
    found: Option<UserView>,
    secret: Seq<u8>,
    username: Seq<char>,
    password: Seq<char>,
    now: Instant,
) -> Result<(UserView, Seq<char>), AppErrorView> {
    match authenticate_outcome(found, username, password) {
        Err(e) => Err(e),
        Ok(user) => match issue_outcome(secret, user.id, user.username, now.seconds) {
            Ok(token) => Ok((user, token)),
            Err(e) => Err(e),
        },
    }
}

/// Whether the token that was granted at `now` names the account it was
/// granted with: checked under `secret` it yields that account's id and
/// username (see [`names_account`]).
pub open spec fn token_names_user(
    granted: Result<UserAndToken, AppError>,
    secret: Seq<u8>,
    now: Instant,
) -> bool {
    match granted {
        Ok(granted) => names_account(
            secret,
            granted.token@,
            granted.user.id,
            granted.user.username@,
            now.seconds,
        ),
        Err(_) => true,
    }
}

/// Whether `registered` and the accounts `after` are what a registration
/// with `password` at `now` yields on a store that held `before`, for some
/// outcome of hashing the password: a hash that `password` checks against,
/// or a failure of the hasher, which is a `HashError`. A token that comes
/// back names the new account.
pub open spec fn registered_as(
    before: Seq<UserView>,
    next_id: i64,
    secret: Seq<u8>,
    after: Seq<UserView>,
    registered: Result<UserAndToken, AppError>,
    username: Seq<char>,
    email: Seq<char>,
    password: Seq<char>,
    now: Instant,
) -> bool {
    &&& token_names_user(registered, secret, now)
    &&& exists|hashed: Result<Seq<char>, AppErrorView>|
        {
            &&& hashed matches Err(e) ==> e is HashError
            &&& hashed matches Ok(hash) ==> verify_outcome(password, hash) == Ok::<
                bool,
                AppErrorView,
            >(true)
            &&& is_outcome(
                registered,
                #[trigger] register_outcome(before, next_id, secret, username, email, hashed, now),
            )
            &&& after == users_after_register(before, next_id, username, email, hashed, now)
        }
}

/// Whether `logged_in` is what a login at `now` yields on the accounts
/// `users`: the outcome of [`login_outcome`] for the account that carries the
/// username, or for none when nobody does. A token that comes back names the
/// account.
pub open spec fn logged_in_as(
    users: Seq<UserView>,
    secret: Seq<u8>,
    logged_in: Result<UserAndToken, AppError>,
    username: Seq<char>,
    password: Seq<char>,
    now: Instant,
) -> bool {
    &&& token_names_user(logged_in, secret, now)
    &&& if username_taken(users, username) {
        exists|i: int|
            {
                &&& 0 <= i < users.len()
                &&& (#[trigger] users[i]).username == username
                &&& is_outcome(
                    logged_in,
                    login_outcome(Some(users[i]), secret, username, password, now),
                )
            }
    } else {
        is_outcome(logged_in, login_outcome(None, secret, username, password, now))
    }
}

/// Checks `password` against the account that a lookup by `username`
/// returned.
pub fn authenticate(found: Option<User>, username: String, password: &str) -> (checked: Result<
    User,
    AppError,
>)
    ensures
        match checked {
            Ok(user) => found == Some(user) && authenticate_outcome(
                Some(user@),
                username@,
                password@,
            ) == Ok::<UserView, AppErrorView>(user@),
            Err(e) => authenticate_outcome(
                match found {
                    Some(user) => Some(user@),
                    None => None,
                },
                username@,
                password@,
            ) == Err::<UserView, AppErrorView>(e@),
        },
{
    match found {
        None => Err(AppError::UserNotFound { username }),
        Some(user) => match verify_password(password, user.password_hash.as_str()) {
            Err(e) => Err(e),
            Ok(false) => Err(AppError::InvalidCredentials),
            Ok(true) => Ok(user),
        },
    }
}

/// The account use-cases over one account store and the shared token
/// service.
pub struct AuthService {
    user_repo: UserRepository,
    jwt_service: Arc<JwtService>,
}

impl AuthService {
    /// The accounts, in the order in which they were created.
    pub closed spec fn users(&self) -> Seq<UserView> {
        self.user_repo@
    }

    /// The id that the next account will receive.
    pub closed spec fn next_id(&self) -> i64 {
        self.user_repo.next_id()
    }

    /// The secret under which tokens are signed.
    pub closed spec fn secret(&self) -> Seq<u8> {
        self.jwt_service.secret()
    }

    /// The invariant of the underlying store.
    pub closed spec fn wf(&self) -> bool {
        self.user_repo.wf()
    }

    /// What the invariant says of the accounts: no two share an id, a
    /// username or an email, and every id is positive and below the next one.
    pub proof fn lemma_wf(&self)
        requires
            self.wf(),
        ensures
            accounts_distinct(self.users()),
            self.next_id() >= 1,
            forall|i: int|
                0 <= i < self.users().len() ==> 1 <= (#[trigger] self.users()[i]).id
                    < self.next_id(),
    {
    }

    /// Builds the use-cases around a store and the token service.
    pub fn new(user_repo: UserRepository, jwt_service: Arc<JwtService>) -> (service: AuthService)
        ensures
            service.users() == user_repo@,
            service.next_id() == user_repo.next_id(),
            service.secret() == jwt_service.secret(),
            service.wf() == user_repo.wf(),
    {
        AuthService { user_repo, jwt_service }
    }

    /// Completes a registration once the outcome of hashing the password is
    /// known. Nothing is stored when the hasher failed or when the username
    /// or the email is taken.
    pub fn register_hashed(
        &mut self,
        username: String,
        email: String,
        hashed: Result<String, AppError>,
        now: Instant,
    ) -> (registered: Result<UserAndToken, AppError>)
        requires
            old(self).wf(),
        ensures
            final(self).wf(),
            final(self).secret() == old(self).secret(),
            final(self).next_id() == (if final(self).users() == old(self).users() {
                old(self).next_id()
            } else {
                (old(self).next_id() + 1) as i64
            }),
            is_outcome(
                registered,
                register_outcome(
                    old(self).users(),
                    old(self).next_id(),
                    old(self).secret(),
                    username@,
                    email@,
                    hashed_view(hashed),
                    now,
                ),
            ),
            final(self).users() == users_after_register(
                old(self).users(),
                old(self).next_id(),
                username@,
                email@,
                hashed_view(hashed),
                now,
            ),
            token_names_user(registered, old(self).secret(), now),
    {
        let password_hash = match hashed {
            Ok(hash) => hash,
            Err(e) => { return Err(e); },
        };
        let user = match self.user_repo.save_user(
            username.as_str(),
            email.as_str(),
            password_hash.as_str(),
            now.millis,
        ) {
            Ok(user) => user,
            Err(e) => { return Err(e); },
        };
        let token = match self.jwt_service.generate_token_at(
            user.id,
            user.username.clone(),
            now.seconds,
        ) {
            Ok(token) => token,
            Err(e) => { return Err(e); },
        };
        Ok(UserAndToken { user, token })
    }

    /// Registers an account at instant `now`: hashes the password under a
    /// fresh salt, stores the account and issues a token bound to it. What is
    /// stored is a hash that the password checks against, never the password
    /// as it came. Whatever the hasher returns, the outcome is the one
    /// [`register_outcome`] prescribes for it, and a hasher that fails can only
    /// raise `HashError`.
    pub fn register(&mut self, username: String, email: String, password: String, now: Instant) -> (registered:
        Result<UserAndToken, AppError>)
        requires
            old(self).wf(),
        ensures
            final(self).wf(),
            final(self).secret() == old(self).secret(),
            final(self).next_id() == (if final(self).users() == old(self).users() {
                old(self).next_id()
            } else {
                (old(self).next_id() + 1) as i64
            }),
            registered_as(
                old(self).users(),
                old(self).next_id(),
                old(self).secret(),
                final(self).users(),
                registered,
                username@,
                email@,
                password@,
                now,
            ),
            registered matches Ok(granted) ==> verify_outcome(
                password@,
                granted.user.password_hash@,
            ) == Ok::<bool, AppErrorView>(true),
    {
        let hashed = hash_password(password.as_str());
        let ghost outcome = hashed_view(hashed);
        let ghost name = username@;
        let ghost mail = email@;
        let registered = self.register_hashed(username, email, hashed, now);
        assert(is_outcome(
            registered,
            register_outcome(
                old(self).users(),
                old(self).next_id(),
                old(self).secret(),
                name,
                mail,
                outcome,
                now,
            ),
        ));
        registered
    }

    /// Logs an account in at instant `now`: looks the username up, checks
    /// the password against the stored hash and issues a token. The store is
    /// only read.
    pub fn login(&self, username: String, password: String, now: Instant) -> (logged_in: Result<
        UserAndToken,
        AppError,
    >)
        requires
            self.wf(),
        ensures
            logged_in_as(self.users(), self.secret(), logged_in, username@, password@, now),
    {
        let found = match self.user_repo.get_by_username(username.as_str()) {
            Ok(found) => found,
            Err(e) => { return Err(e); },
        };
        proof {
            if let Some(user) = &found {
                let i = choose|i: int| 0 <= i < self.users().len() && self.users()[i] == user@;
                assert(self.users()[i].username == username@);
            }
        }
        let user = match authenticate(found, username, password.as_str()) {
            Ok(user) => user,
            Err(e) => { return Err(e); },
        };
        let token = match self.jwt_service.generate_token_at(
            user.id,
            user.username.clone(),
            now.seconds,
        ) {
            Ok(token) => token,
            Err(e) => { return Err(e); },
        };
        Ok(UserAndToken { user, token })
    }
}

} // verus!
