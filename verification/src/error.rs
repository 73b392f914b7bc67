//! Domain errors shared by every component of the backend.

use vstd::prelude::*;
use vstd::string::*;

verus! {

/// Everything that can go wrong while serving a request or starting up.
#[derive(Debug, PartialEq, Eq)]
pub enum AppError {
    /// No account carries the given username.
    UserNotFound { username: String },
    /// The username or the email is already taken.
    UserAlreadyExists,
    /// The password does not match the stored hash.
    InvalidCredentials,
    /// No post carries the given id.
    PostNotFound,
    /// The caller is not the author of the post.
    Forbidden,
    /// The storage layer failed; the payload is its message.
    SqlxError(String),
    /// A schema migration failed; the payload is its message.
    MigrateError(String),
    /// The environment file could not be loaded.
    DotenvyError(String),
    /// A configuration variable is missing or malformed.
    VarError(String),
    /// An expiry instant does not fit the clock's range.
    InvalidDatetime,
    /// A token could not be signed; the payload is the signer's message.
    JwtError(String),
    /// A password could not be hashed, or a stored hash is malformed.
    HashError(String),
    /// The bearer token is missing, malformed, forged or expired.
    InvalidToken,
    /// An I/O operation failed; the payload is its message.
    Io(String),
}

/// Mathematical value of an [`AppError`]: the variant and its text payload.
pub enum AppErrorView {
    UserNotFound { username: Seq<char> },
    UserAlreadyExists,
    InvalidCredentials,
    PostNotFound,
    Forbidden,
    SqlxError(Seq<char>),
    MigrateError(Seq<char>),
    DotenvyError(Seq<char>),
    VarError(Seq<char>),
    InvalidDatetime,
    JwtError(Seq<char>),
    HashError(Seq<char>),
    InvalidToken,
    Io(Seq<char>),
}

impl View for AppError {
    type V = AppErrorView;

    open spec fn view(&self) -> AppErrorView {
        match self {
            AppError::UserNotFound { username } => AppErrorView::UserNotFound { username: username@ },
            AppError::UserAlreadyExists => AppErrorView::UserAlreadyExists,
            AppError::InvalidCredentials => AppErrorView::InvalidCredentials,
            AppError::PostNotFound => AppErrorView::PostNotFound,
            AppError::Forbidden => AppErrorView::Forbidden,
            AppError::SqlxError(m) => AppErrorView::SqlxError(m@),
            AppError::MigrateError(m) => AppErrorView::MigrateError(m@),
            AppError::DotenvyError(m) => AppErrorView::DotenvyError(m@),
            AppError::VarError(m) => AppErrorView::VarError(m@),
            AppError::InvalidDatetime => AppErrorView::InvalidDatetime,
            AppError::JwtError(m) => AppErrorView::JwtError(m@),
            AppError::HashError(m) => AppErrorView::HashError(m@),
            AppError::InvalidToken => AppErrorView::InvalidToken,
            AppError::Io(m) => AppErrorView::Io(m@),
        }
    }
}

/// The full text of an error, with whatever detail it carries. It is meant
/// for the server's own logs and never leaves the server.
pub open spec fn message_of(e: AppErrorView) -> Seq<char> {
    match e {
        AppErrorView::UserNotFound { username } => "User \""@ + username + "\" not found"@,
        AppErrorView::UserAlreadyExists => "User with this username and/or email already exists"@,
        AppErrorView::InvalidCredentials => "Invaid credentials"@,
        AppErrorView::PostNotFound => "Post not found"@,
        AppErrorView::Forbidden => "Forbidden: trying to edit another user's post"@,
        AppErrorView::SqlxError(m) => "SQL error: "@ + m,
        AppErrorView::MigrateError(m) => "Migrate error: "@ + m,
        AppErrorView::DotenvyError(m) => "Dotenvy error: "@ + m,
        AppErrorView::VarError(m) => "Var error: "@ + m,
        AppErrorView::InvalidDatetime => "Unable to create date/time"@,
        AppErrorView::JwtError(m) => "JWT error: "@ + m,
        AppErrorView::HashError(m) => "Hash error: "@ + m,
        AppErrorView::InvalidToken => "Token is invalid or expired"@,
        AppErrorView::Io(m) => "I/O error "@ + m,
    }
}

/// Whether the error is an internal failure (storage, configuration,
/// hashing, signing, I/O) rather than an outcome that a caller may learn of.
pub open spec fn is_internal(e: AppErrorView) -> bool {
    match e {
        AppErrorView::UserNotFound { .. } => false,
        AppErrorView::UserAlreadyExists => false,
        AppErrorView::InvalidCredentials => false,
        AppErrorView::PostNotFound => false,
        AppErrorView::Forbidden => false,
        AppErrorView::InvalidToken => false,
        _ => true,
    }
}

/// The text that stands for an error on the wire. Every internal failure
/// is reported by one and the same text, so that no detail of the storage
/// layer or of any other collaborator leaves the server. An unknown user and
/// a wrong password share one text too, so that a reply does not tell whether
/// an account exists.
pub open spec fn wire_text_of(e: AppErrorView) -> Seq<char> {
    match e {
        AppErrorView::UserNotFound { .. } => "Invalid username or password"@,
        AppErrorView::InvalidCredentials => "Invalid username or password"@,
        AppErrorView::UserAlreadyExists => "User with this username and/or email already exists"@,
        AppErrorView::PostNotFound => "Post not found"@,
        AppErrorView::Forbidden => "Forbidden: trying to edit another user's post"@,
        AppErrorView::InvalidToken => "Token is invalid or expired"@,
        _ => "Internal server error"@,
    }
}

impl AppError {
    /// Renders the error for the wire: see [`wire_text_of`].
    pub fn wire_text(&self) -> (text: String)
        ensures
            text@ == wire_text_of(self@),
    {
        match self {
            AppError::UserNotFound { .. } => String::from_str("Invalid username or password"),
            AppError::InvalidCredentials => String::from_str("Invalid username or password"),
            AppError::UserAlreadyExists => String::from_str(
                "User with this username and/or email already exists",
            ),
            AppError::PostNotFound => String::from_str("Post not found"),
            AppError::Forbidden => String::from_str("Forbidden: trying to edit another user's post"),
            AppError::InvalidToken => String::from_str("Token is invalid or expired"),
            _ => String::from_str("Internal server error"),
        }
    }

    /// Renders the error in full, for the server's own logs.
    pub fn message(&self) -> (text: String)
        ensures
            text@ == message_of(self@),
    {
        match self {
            AppError::UserNotFound { username } => {
                String::from_str("User \"").concat(username.as_str()).concat("\" not found")
            },
            AppError::UserAlreadyExists => String::from_str(
                "User with this username and/or email already exists",
            ),
            AppError::InvalidCredentials => String::from_str("Invaid credentials"),
            AppError::PostNotFound => String::from_str("Post not found"),
            AppError::Forbidden => String::from_str("Forbidden: trying to edit another user's post"),
            AppError::SqlxError(m) => String::from_str("SQL error: ").concat(m.as_str()),
            AppError::MigrateError(m) => String::from_str("Migrate error: ").concat(m.as_str()),
            AppError::DotenvyError(m) => String::from_str("Dotenvy error: ").concat(m.as_str()),
            AppError::VarError(m) => String::from_str("Var error: ").concat(m.as_str()),
            AppError::InvalidDatetime => String::from_str("Unable to create date/time"),
            AppError::JwtError(m) => String::from_str("JWT error: ").concat(m.as_str()),
            AppError::HashError(m) => String::from_str("Hash error: ").concat(m.as_str()),
            AppError::InvalidToken => String::from_str("Token is invalid or expired"),
            AppError::Io(m) => String::from_str("I/O error ").concat(m.as_str()),
        }
    }
}

} // verus!
