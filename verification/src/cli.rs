//! The commands of the command-line front end, as plain values.

use vstd::prelude::*;
use crate::client::BlogClientError;

verus! {

/// A parsed command line.
#[derive(Debug, Clone, PartialEq, Eq)]
pub struct Cli {
    pub command: Command,
    /// Use the RPC transport instead of the text protocol.
    pub grpc: bool,
    /// Address of the server; the protocol's default when absent.
    pub server: Option<String>,
}

/// What the user asked for.
#[derive(Debug, Clone, PartialEq, Eq)]
pub enum Command {
    Register { username: String, email: String, password: String },
    Login { username: String, password: String },
    Logout,
    Create { title: String, content: String },
    Get { id: i64 },
    Update { id: i64, title: String, content: String },
    Delete { id: i64 },
    List { limit: Option<u64>, offset: Option<u64> },
}

impl Command {
    /// Whether the command acts on behalf of an account, so that the saved
    /// token has to be loaded before the request is sent.
    pub open spec fn spec_requires_token(&self) -> bool {
        self is Create || self is Update || self is Delete
    }

    /// Whether the command acts on behalf of an account, so that the saved
    /// token has to be loaded before the request is sent.
    #[verifier::when_used_as_spec(spec_requires_token)]
    pub fn requires_token(&self) -> (needed: bool)
        ensures
            needed == self.spec_requires_token(),
    {
        match self {
            Command::Create { .. } | Command::Update { .. } | Command::Delete { .. } => true,
            _ => false,
        }
    }

    /// Whether a successful run hands back a fresh token to save.
    pub open spec fn spec_yields_token(&self) -> bool {
        self is Register || self is Login
    }

    /// Whether a successful run hands back a fresh token to save.
    #[verifier::when_used_as_spec(spec_yields_token)]
    pub fn yields_token(&self) -> (yields: bool)
        ensures
            yields == self.spec_yields_token(),
    {
        match self {
            Command::Register { .. } | Command::Login { .. } => true,
            _ => false,
        }
    }
}

/// What can stop a command.
#[derive(Debug, PartialEq, Eq)]
pub enum CliError {
    /// The exchange with the server failed.
    ClientError(BlogClientError),
    /// No token is saved: register or log in first.
    TokenNotFound,
    /// The token file could not be read or written.
    IoError(String),
}

/// Whether the error means that the saved token is of no use any more, so
/// that it should be discarded: the server refused the token or the
/// credentials.
pub open spec fn spec_is_token_invalid(error: &CliError) -> bool {
    match error {
        CliError::ClientError(BlogClientError::InvalidToken) => true,
        CliError::ClientError(BlogClientError::InvalidCredentials) => true,
        _ => false,
    }
}

/// Whether the error means that the saved token is of no use any more, so
/// that it should be discarded: the server refused the token or the
/// credentials.
#[verifier::when_used_as_spec(spec_is_token_invalid)]
pub fn is_token_invalid(error: &CliError) -> (invalid: bool)
    ensures
        invalid == spec_is_token_invalid(error),
{
    match error {
        CliError::ClientError(BlogClientError::InvalidToken) => true,
        CliError::ClientError(BlogClientError::InvalidCredentials) => true,
        _ => false,
    }
}

} // verus!
