//! Posts and the values exchanged when reading or writing them.

use vstd::prelude::*;

verus! {

/// A published post.
#[derive(Debug, PartialEq, Eq)]
pub struct Post {
    /// Identifier assigned by the store.
    pub id: i64,
    pub title: String,
    pub content: String,
    /// The account that created the post; never reassigned.
    pub author_id: i64,
    /// Creation instant, in milliseconds since the Unix epoch.
    pub created_at: i64,
    /// Instant of the last successful update, in the same unit.
    pub updated_at: i64,
}

/// Mathematical value of a [`Post`].
pub struct PostView {
    pub id: i64,
    pub title: Seq<char>,
    pub content: Seq<char>,
    pub author_id: i64,
    pub created_at: i64,
    pub updated_at: i64,
}

impl View for Post {
    type V = PostView;

    open spec fn view(&self) -> PostView {
        PostView {
            id: self.id,
            title: self.title@,
            content: self.content@,
            author_id: self.author_id,
            created_at: self.created_at,
            updated_at: self.updated_at,
        }
    }
}

impl Clone for Post {
    fn clone(&self) -> (copy: Post)
        ensures
            copy@ == self@,
    {
        Post {
            id: self.id,
            title: self.title.clone(),
            content: self.content.clone(),
            author_id: self.author_id,
            created_at: self.created_at,
            updated_at: self.updated_at,
        }
    }
}

/// The mathematical values of a list of posts, in the same order.
pub open spec fn views_of(posts: Seq<Post>) -> Seq<PostView> {
    Seq::new(posts.len(), |i: int| posts[i]@)
}

/// Body of a request that creates a post.
#[derive(Debug, Clone, PartialEq, Eq)]
pub struct CreatePostParams {
    pub title: String,
    pub content: String,
}

/// Body of a request that rewrites a post.
#[derive(Debug, Clone, PartialEq, Eq)]
pub struct UpdatePostParams {
    pub title: String,
    pub content: String,
}

/// Window of a listing request.
#[derive(Debug, Clone, Copy, PartialEq, Eq)]
pub struct GetPostsParams {
    pub limit: i64,
    pub offset: i64,
}

/// Page size used when a listing request names none.
pub open spec fn spec_default_limit() -> i64 {
    10
}

/// Page start used when a listing request names none.
pub open spec fn spec_default_offset() -> i64 {
    0
}

/// Page size used when a listing request names none.
#[verifier::when_used_as_spec(spec_default_limit)]
pub fn default_limit() -> (limit: i64)
    ensures
        limit == 10,
{
    10
}

/// Page start used when a listing request names none.
#[verifier::when_used_as_spec(spec_default_offset)]
pub fn default_offset() -> (offset: i64)
    ensures
        offset == 0,
{
    0
}

impl GetPostsParams {
    /// Fills in the defaults for whatever the request left out.
    pub fn from_query(limit: Option<i64>, offset: Option<i64>) -> (params: GetPostsParams)
        ensures
            params.limit == (match limit {
                Some(l) => l,
                None => 10i64,
            }),
            params.offset == (match offset {
                Some(o) => o,
                None => 0i64,
            }),
    {
        let limit = match limit {
            Some(l) => l,
            None => default_limit(),
        };
        let offset = match offset {
            Some(o) => o,
            None => default_offset(),
        };
        GetPostsParams { limit, offset }
    }
}

/// One page of posts together with the size of the whole collection.
#[derive(Debug, PartialEq, Eq)]
pub struct GetPostsResponse {
    pub posts: Vec<Post>,
    /// Number of posts in the store, whatever the window.
    pub total: u64,
    pub limit: i64,
    pub offset: i64,
}

} // verus!
