//! The messages and status codes of the RPC protocol.

use vstd::prelude::*;
use crate::post::PostView;

verus! {

/// The status codes of the RPC protocol.
#[derive(Debug, Clone, Copy, PartialEq, Eq, Structural)]
pub enum Code {
    /// The call succeeded.
    Okay,
    Cancelled,
    Unknown,
    InvalidArgument,
    DeadlineExceeded,
    NotFound,
    AlreadyExists,
    PermissionDenied,
    ResourceExhausted,
    FailedPrecondition,
    Aborted,
    OutOfRange,
    Unimplemented,
    Internal,
    Unavailable,
    DataLoss,
    Unauthenticated,
}

impl Code {
    /// The number that stands for the code on the wire.
    pub open spec fn spec_number(&self) -> u16 {
        match self {
            Code::Okay => 0,
            Code::Cancelled => 1,
            Code::Unknown => 2,
            Code::InvalidArgument => 3,
            Code::DeadlineExceeded => 4,
            Code::NotFound => 5,
            Code::AlreadyExists => 6,
            Code::PermissionDenied => 7,
            Code::ResourceExhausted => 8,
            Code::FailedPrecondition => 9,
            Code::Aborted => 10,
            Code::OutOfRange => 11,
            Code::Unimplemented => 12,
            Code::Internal => 13,
            Code::Unavailable => 14,
            Code::DataLoss => 15,
            Code::Unauthenticated => 16,
        }
    }

    /// The number that stands for the code on the wire.
    #[verifier::when_used_as_spec(spec_number)]
    pub fn number(&self) -> (number: u16)
        ensures
            number == self.spec_number(),
    {
        match self {
            Code::Okay => 0,
            Code::Cancelled => 1,
            Code::Unknown => 2,
            Code::InvalidArgument => 3,
            Code::DeadlineExceeded => 4,
            Code::NotFound => 5,
            Code::AlreadyExists => 6,
            Code::PermissionDenied => 7,
            Code::ResourceExhausted => 8,
            Code::FailedPrecondition => 9,
            Code::Aborted => 10,
            Code::OutOfRange => 11,
            Code::Unimplemented => 12,
            Code::Internal => 13,
            Code::Unavailable => 14,
            Code::DataLoss => 15,
            Code::Unauthenticated => 16,
        }
    }

    /// The code that a wire number stands for; `Unknown` for a number that
    /// names no code.
    pub fn from_number(number: u16) -> (code: Code)
        ensures
            number <= 16 ==> code.spec_number() == number,
            number > 16 ==> code == Code::Unknown,
    {
        match number {
            0 => Code::Okay,
            1 => Code::Cancelled,
            2 => Code::Unknown,
            3 => Code::InvalidArgument,
            4 => Code::DeadlineExceeded,
            5 => Code::NotFound,
            6 => Code::AlreadyExists,
            7 => Code::PermissionDenied,
            8 => Code::ResourceExhausted,
            9 => Code::FailedPrecondition,
            10 => Code::Aborted,
            11 => Code::OutOfRange,
            12 => Code::Unimplemented,
            13 => Code::Internal,
            14 => Code::Unavailable,
            15 => Code::DataLoss,
            16 => Code::Unauthenticated,
            _ => Code::Unknown,
        }
    }
}

/// The failure of a call: a code and a text.
#[derive(Debug, PartialEq, Eq)]
pub struct Status {
    pub code: Code,
    pub message: String,
}

/// Mathematical value of a [`Status`].
pub struct StatusView {
    pub code: Code,
    pub message: Seq<char>,
}

impl View for Status {
    type V = StatusView;

    open spec fn view(&self) -> StatusView {
        StatusView { code: self.code, message: self.message@ }
    }
}

#[derive(Debug, Clone, PartialEq, Eq)]
pub struct RegisterRequest {
    pub username: String,
    pub email: String,
    pub password: String,
}

#[derive(Debug, Clone, PartialEq, Eq)]
pub struct LoginRequest {
    pub username: String,
    pub password: String,
}

#[derive(Debug, Clone, PartialEq, Eq)]
pub struct AuthResponse {
    pub token: String,
}

#[derive(Debug, Clone, PartialEq, Eq)]
pub struct CreatePostRequest {
    pub title: String,
    pub content: String,
}

#[derive(Debug, Clone, Copy, PartialEq, Eq)]
pub struct GetPostRequest {
    pub post_id: i64,
}

#[derive(Debug, Clone, PartialEq, Eq)]
pub struct UpdatePostRequest {
    pub post_id: i64,
    pub title: String,
    pub content: String,
}

#[derive(Debug, Clone, Copy, PartialEq, Eq)]
pub struct DeletePostRequest {
    pub post_id: i64,
}

#[derive(Debug, Clone, Copy, PartialEq, Eq)]
pub struct GetPostsRequest {
    pub limit: Option<i64>,
    pub offset: Option<i64>,
}

/// A post as it travels: the timestamps are milliseconds since the Unix
/// epoch.
#[derive(Debug, PartialEq, Eq)]
pub struct Post {
    pub id: i64,
    pub title: String,
    pub content: String,
    pub author_id: i64,
    pub created_at: i64,
    pub updated_at: i64,
}

impl View for Post {
    type V = PostView;

    open spec fn view(&self) -> PostView {
        PostView {
            id: self.id,
            title: self.title@,
            content: self.content@,
            author_id: self.author_id,
            created_at: self.created_at,
            updated_at: self.updated_at,
        }
    }
}

/// The mathematical values of a list of posts as they travel.
pub open spec fn wire_views_of(posts: Seq<Post>) -> Seq<PostView> {
    Seq::new(posts.len(), |i: int| posts[i]@)
}

#[derive(Debug, PartialEq, Eq)]
pub struct PostResponse {
    pub post: Option<Post>,
}

#[derive(Debug, PartialEq, Eq)]
pub struct GetPostsResponse {
    pub posts: Vec<Post>,
    pub limit: i64,
    pub offset: i64,
    pub total_posts_count: i64,
}

} // verus!
