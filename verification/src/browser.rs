//! The state of the browser front end: which server it talks to and who is
//! logged in.

use vstd::prelude::*;

verus! {

/// What the front end remembers of a login.
#[derive(Debug, Clone, PartialEq, Eq)]
pub struct AuthData {
    pub token: String,
    pub user_id: i64,
}

/// What a reply of the server amounts to, judged by its status alone.
#[derive(Debug, Clone, Copy, PartialEq, Eq, Structural)]
pub enum ReplyKind {
    /// The server refused or failed: any status outside 200 to 299.
    Failed,
    /// Success without a body: status 204.
    Empty,
    /// Success with a JSON body.
    Json,
}

/// What a reply with this status amounts to.
pub open spec fn reply_kind_of(status: u16) -> ReplyKind {
    if status < 200 || status > 299 {
        ReplyKind::Failed
    } else if status == 204 {
        ReplyKind::Empty
    } else {
        ReplyKind::Json
    }
}

/// Judges a reply by its status.
pub fn classify_reply(status: u16) -> (kind: ReplyKind)
    ensures
        kind == reply_kind_of(status),
{
    if status < 200 || status > 299 {
        ReplyKind::Failed
    } else if status == 204 {
        ReplyKind::Empty
    } else {
        ReplyKind::Json
    }
}

/// The browser front end's session.
#[derive(Debug)]
pub struct BlogApp {
    server_url: String,
    auth_data: Option<AuthData>,
}

impl BlogApp {
    /// The address of the server.
    pub closed spec fn server_url(&self) -> Seq<char> {
        self.server_url@
    }

    /// The login the session holds: the token and the user id, if any.
    pub closed spec fn session(&self) -> Option<(Seq<char>, i64)> {
        match self.auth_data {
            Some(data) => Some((data.token@, data.user_id)),
            None => None,
        }
    }

    /// Opens a session with the login that was kept from earlier, if any.
    pub fn new(server_url: String, stored: Option<AuthData>) -> (app: BlogApp)
        ensures
            app.server_url() == server_url@,
            app.session() == (match stored {
                Some(data) => Some((data.token@, data.user_id)),
                None => None,
            }),
    {
        BlogApp { server_url, auth_data: stored }
    }

    /// Remembers the login that a registration or a login returned.
    pub fn set_auth_data(&mut self, auth_data: AuthData)
        ensures
            final(self).session() == Some((auth_data.token@, auth_data.user_id)),
            final(self).server_url() == old(self).server_url(),
    {
        self.auth_data = Some(auth_data);
    }

    /// Forgets the login.
    pub fn logout(&mut self)
        ensures
            final(self).session().is_none(),
            final(self).server_url() == old(self).server_url(),
    {
        self.auth_data = None;
    }

    /// Whether somebody is logged in.
    pub fn is_authenticated(&self) -> (authenticated: bool)
        ensures
            authenticated == self.session().is_some(),
    {
        self.auth_data.is_some()
    }

    /// Whether the post of this author belongs to the user who is logged
    /// in. Nobody owns anything while nobody is logged in.
    pub fn post_belongs_to_current_user(&self, author_id: i64) -> (belongs: bool)
        ensures
            belongs == (self.session() matches Some(login) && login.1 == author_id),
    {
        match &self.auth_data {
            Some(data) => data.user_id == author_id,
            None => false,
        }
    }

    /// The token to present, if somebody is logged in.
    pub fn token_opt(&self) -> (token: Option<&str>)
        ensures
            match token {
                Some(t) => self.session() matches Some(login) && login.0 == t@,
                None => self.session().is_none(),
            },
    {
        match &self.auth_data {
            Some(data) => Some(data.token.as_str()),
            None => None,
        }
    }
}

} // verus!
