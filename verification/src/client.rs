//! The caller's side of the protocol: which transport to use, the bearer
//! token a session holds, and what each reply from the server means.

use vstd::prelude::*;
use vstd::string::*;
use crate::api::Operation;
use crate::clock::{is_representable_millis, representable_millis};
use crate::grpc_api::{Code, GetPostsRequest, GetPostsResponse, Status};
use crate::post::{views_of, Post};

verus! {

/// How to reach the server, with its address.
#[derive(Debug, Clone, PartialEq, Eq)]
pub enum Transport {
    /// The resource-oriented text protocol.
    Http(String),
    /// The binary RPC protocol.
    Grpc(String),
}

/// Address used when the caller names no server.
pub const DEFAULT_ADDRESS: &'static str = "http://127.0.0.1";

/// Port of the text-protocol listener.
pub const DEFAULT_HTTP_PORT: &'static str = "8080";

/// Port of the RPC listener.
pub const DEFAULT_GRPC_PORT: &'static str = "50051";

/// The address a transport is given: `server` when the caller names one,
/// otherwise the default host, a colon and the default port of the chosen
/// protocol.
pub open spec fn server_address(grpc: bool, server: Option<String>) -> Seq<char> {
    match server {
        Some(s) => s@,
        None => if grpc {
            "http://127.0.0.1"@ + ":"@ + "50051"@
        } else {
            "http://127.0.0.1"@ + ":"@ + "8080"@
        },
    }
}

/// Picks the transport: RPC when `grpc` is set, the text protocol
/// otherwise; the address is `server` when given and the protocol's default
/// when not.
pub fn get_transport(grpc: bool, server: &Option<String>) -> (transport: Transport)
    ensures
        match transport {
            Transport::Grpc(address) => grpc && address@ == server_address(true, *server),
            Transport::Http(address) => !grpc && address@ == server_address(false, *server),
        },
{
    let port = if grpc {
        DEFAULT_GRPC_PORT
    } else {
        DEFAULT_HTTP_PORT
    };
    let address = match server {
        Some(s) => s.clone(),
        None => String::from_str(DEFAULT_ADDRESS).concat(":").concat(port),
    };
    if grpc {
        Transport::Grpc(address)
    } else {
        Transport::Http(address)
    }
}

/// What can go wrong on the caller's side.
#[derive(Debug, PartialEq, Eq)]
pub enum BlogClientError {
    /// The server address is not a valid URL.
    InvalidUrl(String),
    /// The HTTP exchange itself failed.
    Reqwest(String),
    /// An authenticated call was made before a token was set.
    TokenNotSet,
    /// The RPC channel failed.
    GrpcTransport(String),
    /// An RPC reply lacks a field that must be there.
    GrpcFieldNotSet(String),
    /// A timestamp in a reply is outside the calendar's range.
    IncorrectTimestamp(i64),
    /// The token cannot be carried as request metadata.
    InvalidMetadata(String),
    /// The username or the email is already taken.
    UserAlreadyExists,
    /// The text-protocol server answered with a status nobody expects here.
    UnexpectedHttpResponse { code: u16, message: String },
    /// The RPC server answered with a status nobody expects here.
    UnexpectedGrpcResponse { status_code: u16, message: String },
    /// The username or the password is wrong.
    InvalidCredentials,
    /// The token is missing, forged or expired.
    InvalidToken,
    /// The post belongs to another account.
    Forbidden,
    /// The resource does not exist.
    NotFound,
}

/// A session with the server: the transport and, once logged in, the token.
#[derive(Debug)]
pub struct BlogClient {
    transport: Transport,
    token: Option<String>,
}

impl BlogClient {
    /// The token the session holds, if any.
    pub closed spec fn token(&self) -> Option<Seq<char>> {
        match self.token {
            Some(t) => Some(t@),
            None => None,
        }
    }

    /// The transport the session was opened on.
    pub closed spec fn spec_transport(&self) -> Transport {
        self.transport
    }

    /// Opens a session on `transport`, with no token yet.
    pub fn new(transport: Transport) -> (client: BlogClient)
        ensures
            client.token().is_none(),
            client.spec_transport() == transport,
    {
        BlogClient { transport, token: None }
    }

    /// The transport the session was opened on.
    pub fn transport(&self) -> (transport: &Transport)
        ensures
            *transport == self.spec_transport(),
    {
        &self.transport
    }

    /// Stores the token returned by a registration or a login.
    pub fn set_token(&mut self, token: String)
        ensures
            final(self).token() == Some(token@),
            final(self).spec_transport() == old(self).spec_transport(),
    {
        self.token = Some(token)
    }

    /// The stored token, if one was set.
    pub fn get_token(&self) -> (token: Option<&str>)
        ensures
            match token {
                Some(t) => self.token() == Some(t@),
                None => self.token().is_none(),
            },
    {
        match &self.token {
            Some(t) => Some(t.as_str()),
            None => None,
        }
    }

    /// The stored token, or `TokenNotSet` when the session has none.
    pub fn require_token(&self) -> (token: Result<&str, BlogClientError>)
        ensures
            match token {
                Ok(t) => self.token() == Some(t@),
                Err(e) => self.token().is_none() && e == BlogClientError::TokenNotSet,
            },
    {
        match self.get_token() {
            Some(t) => Ok(t),
            None => Err(BlogClientError::TokenNotSet),
        }
    }
}

/// One page of posts as the server reports it.
#[derive(Debug, PartialEq, Eq)]
pub struct PostsCollection {
    pub posts: Vec<Post>,
    /// The page size the server applied.
    pub limit: u64,
    /// The index of the first post of the page.
    pub offset: u64,
    /// Number of posts on the server, whatever the window.
    pub total_posts: u64,
}

/// What the status of a reply from the text-protocol server means for the
/// operation that was asked for.
#[derive(Debug, PartialEq, Eq)]
pub enum HttpVerdict {
    /// The operation succeeded; the body holds its result.
    Success,
    /// The server refused for a reason the caller can act on.
    Failure(BlogClientError),
    /// Neither: the body is to be read as the text of an
    /// `UnexpectedHttpResponse`.
    Unexpected,
}

/// The meaning of status `code` as a reply to `operation`: success for the
/// operation's own success status; for a registration 409 is a taken name,
/// for a login 401 is wrong credentials, for reading a post 404 is a missing
/// post, for the calls that act for an account 401 is a bad token, and for an
/// update or a deletion 403 is a post of somebody else; anything else is
/// unexpected.
pub open spec fn verdict_of(operation: Operation, code: u16) -> HttpVerdict {
    if code == operation.spec_success_status() {
        HttpVerdict::Success
    } else {
        match (operation, code) {
            (Operation::Register, 409) => HttpVerdict::Failure(BlogClientError::UserAlreadyExists),
            (Operation::Login, 401) => HttpVerdict::Failure(BlogClientError::InvalidCredentials),
            (Operation::CreatePost, 401) => HttpVerdict::Failure(BlogClientError::InvalidToken),
            (Operation::GetPost, 404) => HttpVerdict::Failure(BlogClientError::NotFound),
            (Operation::UpdatePost, 401) => HttpVerdict::Failure(BlogClientError::InvalidToken),
            (Operation::UpdatePost, 403) => HttpVerdict::Failure(BlogClientError::Forbidden),
            (Operation::DeletePost, 401) => HttpVerdict::Failure(BlogClientError::InvalidToken),
            (Operation::DeletePost, 403) => HttpVerdict::Failure(BlogClientError::Forbidden),
            _ => HttpVerdict::Unexpected,
        }
    }
}

/// Judges the status of a reply from the text-protocol server.
pub fn judge_status(operation: Operation, code: u16) -> (verdict: HttpVerdict)
    ensures
        verdict == verdict_of(operation, code),
{
    if code == operation.success_status() {
        return HttpVerdict::Success;
    }
    match operation {
        Operation::Register => if code == 409 {
            HttpVerdict::Failure(BlogClientError::UserAlreadyExists)
        } else {
            HttpVerdict::Unexpected
        },
        Operation::Login => if code == 401 {
            HttpVerdict::Failure(BlogClientError::InvalidCredentials)
        } else {
            HttpVerdict::Unexpected
        },
        Operation::CreatePost => if code == 401 {
            HttpVerdict::Failure(BlogClientError::InvalidToken)
        } else {
            HttpVerdict::Unexpected
        },
        Operation::GetPost => if code == 404 {
            HttpVerdict::Failure(BlogClientError::NotFound)
        } else {
            HttpVerdict::Unexpected
        },
        Operation::UpdatePost | Operation::DeletePost => if code == 401 {
            HttpVerdict::Failure(BlogClientError::InvalidToken)
        } else if code == 403 {
            HttpVerdict::Failure(BlogClientError::Forbidden)
        } else {
            HttpVerdict::Unexpected
        },
        Operation::GetPosts => HttpVerdict::Unexpected,
    }
}

/// Mathematical value of a [`BlogClientError`]: the variant and its payload.
pub enum BlogClientErrorView {
    InvalidUrl(Seq<char>),
    Reqwest(Seq<char>),
    TokenNotSet,
    GrpcTransport(Seq<char>),
    GrpcFieldNotSet(Seq<char>),
    IncorrectTimestamp(i64),
    InvalidMetadata(Seq<char>),
    UserAlreadyExists,
    UnexpectedHttpResponse { code: u16, message: Seq<char> },
    UnexpectedGrpcResponse { status_code: u16, message: Seq<char> },
    InvalidCredentials,
    InvalidToken,
    Forbidden,
    NotFound,
}

impl View for BlogClientError {
    type V = BlogClientErrorView;

    open spec fn view(&self) -> BlogClientErrorView {
        match self {
            BlogClientError::InvalidUrl(m) => BlogClientErrorView::InvalidUrl(m@),
            BlogClientError::Reqwest(m) => BlogClientErrorView::Reqwest(m@),
            BlogClientError::TokenNotSet => BlogClientErrorView::TokenNotSet,
            BlogClientError::GrpcTransport(m) => BlogClientErrorView::GrpcTransport(m@),
            BlogClientError::GrpcFieldNotSet(m) => BlogClientErrorView::GrpcFieldNotSet(m@),
            BlogClientError::IncorrectTimestamp(t) => BlogClientErrorView::IncorrectTimestamp(*t),
            BlogClientError::InvalidMetadata(m) => BlogClientErrorView::InvalidMetadata(m@),
            BlogClientError::UserAlreadyExists => BlogClientErrorView::UserAlreadyExists,
            BlogClientError::UnexpectedHttpResponse { code, message } => {
                BlogClientErrorView::UnexpectedHttpResponse { code: *code, message: message@ }
            },
            BlogClientError::UnexpectedGrpcResponse { status_code, message } => {
                BlogClientErrorView::UnexpectedGrpcResponse {
                    status_code: *status_code,
                    message: message@,
                }
            },
            BlogClientError::InvalidCredentials => BlogClientErrorView::InvalidCredentials,
            BlogClientError::InvalidToken => BlogClientErrorView::InvalidToken,
            BlogClientError::Forbidden => BlogClientErrorView::Forbidden,
            BlogClientError::NotFound => BlogClientErrorView::NotFound,
        }
    }
}

/// The error that a status of the RPC server stands for: a taken name for
/// `AlreadyExists`, a missing resource for `NotFound`, a bad token for
/// `Unauthenticated`, a post of somebody else for `PermissionDenied`, and for
/// any other code an `UnexpectedGrpcResponse` with the code's number and the
/// status text.
pub open spec fn error_of_status(code: Code, message: Seq<char>) -> BlogClientErrorView {
    match code {
        Code::AlreadyExists => BlogClientErrorView::UserAlreadyExists,
        Code::NotFound => BlogClientErrorView::NotFound,
        Code::Unauthenticated => BlogClientErrorView::InvalidToken,
        Code::PermissionDenied => BlogClientErrorView::Forbidden,
        other => BlogClientErrorView::UnexpectedGrpcResponse {
            status_code: other.spec_number(),
            message,
        },
    }
}

impl BlogClientError {
    /// The error that a status of the RPC server stands for.
    pub fn from_status(status: Status) -> (error: BlogClientError)
        ensures
            error@ == error_of_status(status.code, status.message@),
    {
        match status.code {
            Code::AlreadyExists => BlogClientError::UserAlreadyExists,
            Code::NotFound => BlogClientError::NotFound,
            Code::Unauthenticated => BlogClientError::InvalidToken,
            Code::PermissionDenied => BlogClientError::Forbidden,
            other => BlogClientError::UnexpectedGrpcResponse {
                status_code: other.number(),
                message: status.message,
            },
        }
    }
}

/// The value of the `authorization` entry that carries `token`: the word
/// `Bearer`, one space, and the token.
pub fn authorization_value(token: &str) -> (value: String)
    ensures
        value@ == "Bearer "@ + token@,
{
    String::from_str("Bearer ").concat(token)
}

/// Accepts a timestamp of a reply when the calendar can represent it, and
/// reports it as `IncorrectTimestamp` when it cannot.
pub fn timestamp_to_datetime(ts: i64) -> (checked: Result<i64, BlogClientError>)
    ensures
        match checked {
            Ok(t) => t == ts && representable_millis(ts),
            Err(e) => e@ == BlogClientErrorView::IncorrectTimestamp(ts) && !representable_millis(
                ts,
            ),
        },
{
    if is_representable_millis(ts) {
        Ok(ts)
    } else {
        Err(BlogClientError::IncorrectTimestamp(ts))
    }
}

/// The error with which a post of a reply is turned down, if any: its
/// creation instant when the calendar cannot represent it, else its update
/// instant when the calendar cannot represent that.
pub open spec fn timestamp_fault(created_at: i64, updated_at: i64) -> Option<BlogClientErrorView> {
    if !representable_millis(created_at) {
        Some(BlogClientErrorView::IncorrectTimestamp(created_at))
    } else if !representable_millis(updated_at) {
        Some(BlogClientErrorView::IncorrectTimestamp(updated_at))
    } else {
        None
    }
}

/// Turns a post as it travels into a post of the caller's side, checking
/// both timestamps.
pub fn into_domain_post(post: crate::grpc_api::Post) -> (converted: Result<Post, BlogClientError>)
    ensures
        match converted {
            Ok(p) => p@ == post@ && timestamp_fault(post.created_at, post.updated_at).is_none(),
            Err(e) => timestamp_fault(post.created_at, post.updated_at) == Some(e@),
        },
{
    let created_at = match timestamp_to_datetime(post.created_at) {
        Ok(t) => t,
        Err(e) => { return Err(e); },
    };
    let updated_at = match timestamp_to_datetime(post.updated_at) {
        Ok(t) => t,
        Err(e) => { return Err(e); },
    };
    Ok(
        Post {
            id: post.id,
            title: post.title,
            content: post.content,
            author_id: post.author_id,
            created_at,
            updated_at,
        },
    )
}

/// A count of the wire read as an unsigned number: itself when it is not
/// negative, and 2^64 more when it is.
pub open spec fn unsigned_of(value: i64) -> u64 {
    if value >= 0 {
        value as u64
    } else {
        (value + 0x1_0000_0000_0000_0000) as u64
    }
}

/// A count of the caller read as a signed number of the wire: itself when
/// it fits, and 2^64 less when it does not.
pub open spec fn signed_of(value: u64) -> i64 {
    if value <= i64::MAX as u64 {
        value as i64
    } else {
        (value - 0x1_0000_0000_0000_0000) as i64
    }
}

/// Reads a count of the wire as an unsigned number.
pub fn to_unsigned(value: i64) -> (unsigned: u64)
    ensures
        unsigned == unsigned_of(value),
{
    if value >= 0 {
        value as u64
    } else {
        u64::MAX - ((-(value + 1)) as u64)
    }
}

/// Reads a count of the caller as a signed number of the wire.
pub fn to_signed(value: u64) -> (signed: i64)
    ensures
        signed == signed_of(value),
{
    if value <= i64::MAX as u64 {
        value as i64
    } else {
        -((u64::MAX - value) as i64) - 1
    }
}

/// The listing request for the window the caller asks for.
pub fn posts_request(limit: Option<u64>, offset: Option<u64>) -> (request: GetPostsRequest)
    ensures
        request.limit == (match limit {
            Some(l) => Some(signed_of(l)),
            None => None,
        }),
        request.offset == (match offset {
            Some(o) => Some(signed_of(o)),
            None => None,
        }),
{
    let limit = match limit {
        Some(l) => Some(to_signed(l)),
        None => None,
    };
    let offset = match offset {
        Some(o) => Some(to_signed(o)),
        None => None,
    };
    GetPostsRequest { limit, offset }
}

/// Whether some post among the first `n` of `posts` has a timestamp that
/// the calendar cannot represent.
pub open spec fn faulty_before(posts: Seq<crate::grpc_api::Post>, n: int) -> bool {
    exists|k: int|
        0 <= k < n && k < posts.len() && timestamp_fault(
            (#[trigger] posts[k]).created_at,
            posts[k].updated_at,
        ).is_some()
}

/// Turns a listing reply into the caller's page of posts. The first post
/// with a timestamp that the calendar cannot represent stops the conversion
/// with its error.
pub fn into_posts_collection(response: GetPostsResponse) -> (converted: Result<
    PostsCollection,
    BlogClientError,
>)
    ensures
        match converted {
            Ok(collection) => {
                &&& !faulty_before(response.posts@, response.posts@.len() as int)
                &&& views_of(collection.posts@) == crate::grpc_api::wire_views_of(response.posts@)
                &&& collection.limit == unsigned_of(response.limit)
                &&& collection.offset == unsigned_of(response.offset)
                &&& collection.total_posts == unsigned_of(response.total_posts_count)
            },
            Err(e) => exists|k: int|
                {
                    &&& 0 <= k < response.posts@.len()
                    &&& !faulty_before(response.posts@, k)
                    &&& timestamp_fault(
                        (#[trigger] response.posts@[k]).created_at,
                        response.posts@[k].updated_at,
                    ) == Some(e@)
                },
        },
{
    let limit = to_unsigned(response.limit);
    let offset = to_unsigned(response.offset);
    let total_posts = to_unsigned(response.total_posts_count);
    let ghost wire = response.posts@;
    let mut source = response.posts;
    let mut posts: Vec<Post> = Vec::new();
    let mut rest: Vec<crate::grpc_api::Post> = Vec::new();
    // Take the posts from the back, so that each can be moved out.
    while source.len() > 0
        invariant
            source@.len() + rest@.len() == wire.len(),
            forall|k: int| 0 <= k < source@.len() ==> source@[k] == wire[k],
            forall|k: int|
                0 <= k < rest@.len() ==> (#[trigger] rest@[k]) == wire[wire.len() - 1 - k],
        decreases source@.len(),
    {
        let post = source.pop().unwrap();
        rest.push(post);
    }
    while rest.len() > 0
        invariant
            wire == response.posts@,
            posts@.len() + rest@.len() == wire.len(),
            forall|k: int|
                0 <= k < rest@.len() ==> (#[trigger] rest@[k]) == wire[wire.len() - 1 - k],
            forall|k: int| 0 <= k < posts@.len() ==> (#[trigger] posts@[k])@ == wire[k]@,
            !faulty_before(wire, posts@.len() as int),
        decreases rest@.len(),
    {
        let ghost k = posts@.len() as int;
        let next = rest.pop().unwrap();
        assert(next == wire[k]);
        match into_domain_post(next) {
            Ok(post) => {
                posts.push(post);
                assert(!faulty_before(wire, k + 1)) by {
                    assert forall|j: int| 0 <= j < k + 1 && j < wire.len() implies timestamp_fault(
                        (#[trigger] wire[j]).created_at,
                        wire[j].updated_at,
                    ).is_none() by {
                        if j < k {
                            assert(!faulty_before(wire, k));
                        }
                    }
                }
            },
            Err(e) => {
                assert(timestamp_fault(wire[k].created_at, wire[k].updated_at) == Some(e@));
                return Err(e);
            },
        }
    }
    assert(views_of(posts@) =~= crate::grpc_api::wire_views_of(wire));
    Ok(PostsCollection { posts, limit, offset, total_posts })
}

} // verus!
