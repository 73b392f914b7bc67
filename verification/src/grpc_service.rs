//! The RPC front end: one method per operation, each a plain mapping
//! between a request message, a use-case and a reply or a status.

use std::sync::Arc;
use vstd::prelude::*;
use vstd::string::*;
use crate::auth_service::{logged_in_as, registered_as, AuthService};
use crate::blog_service::{created_as, fetched_as, BlogService};
use crate::clock::Instant;
use crate::error::{wire_text_of, AppError, AppErrorView};
use crate::grpc_api::{
    wire_views_of,
    AuthResponse,
    Code,
    CreatePostRequest,
    DeletePostRequest,
    GetPostRequest,
    GetPostsRequest,
    GetPostsResponse,
    LoginRequest,
    PostResponse,
    RegisterRequest,
    Status,
    StatusView,
    UpdatePostRequest,
};
use crate::jwt::{verify_outcome, JwtService};
use crate::post::{default_limit, default_offset, Post};
use crate::post_repository::{deleted_as, page_of, updated_as};
use crate::user::UserAndToken;

verus! {

/// The code that the RPC protocol gives to an error: `Unauthenticated` for
/// anything that amounts to "not authenticated" (an unknown user and a wrong
/// password are deliberately not told apart), `AlreadyExists` for a taken
/// username or email, `NotFound` for a missing post, `PermissionDenied` for
/// a post of somebody else, and `Internal` for every internal failure.
pub open spec fn code_of(error: AppErrorView) -> Code {
    match error {
        AppErrorView::UserNotFound { .. } => Code::Unauthenticated,
        AppErrorView::UserAlreadyExists => Code::AlreadyExists,
        AppErrorView::InvalidCredentials => Code::Unauthenticated,
        AppErrorView::PostNotFound => Code::NotFound,
        AppErrorView::Forbidden => Code::PermissionDenied,
        AppErrorView::InvalidToken => Code::Unauthenticated,
        _ => Code::Internal,
    }
}

/// The status that reports an error: its code and its wire text. Whatever
/// detail the error carries stays behind.
pub open spec fn status_of(error: AppErrorView) -> StatusView {
    StatusView { code: code_of(error), message: wire_text_of(error) }
}

impl Status {
    /// The status that reports `error`.
    pub fn from_error(error: AppError) -> (status: Status)
        ensures
            status@ == status_of(error@),
    {
        let code = match &error {
            AppError::UserNotFound { .. } => Code::Unauthenticated,
            AppError::UserAlreadyExists => Code::AlreadyExists,
            AppError::InvalidCredentials => Code::Unauthenticated,
            AppError::PostNotFound => Code::NotFound,
            AppError::Forbidden => Code::PermissionDenied,
            AppError::InvalidToken => Code::Unauthenticated,
            _ => Code::Internal,
        };
        Status { code, message: error.wire_text() }
    }
}

/// The token in the value of an `authorization` entry: what follows the
/// prefix `Bearer ` (with its one space), when the value starts with it.
pub open spec fn bearer_of(value: Seq<char>) -> Option<Seq<char>> {
    if value.len() >= 7 && value.subrange(0, 7) == "Bearer "@ {
        Some(value.subrange(7, value.len() as int))
    } else {
        None
    }
}

/// Extracts the token from the value of an `authorization` entry.
pub fn bearer_token(value: &str) -> (token: Option<&str>)
    ensures
        match token {
            Some(t) => bearer_of(value@) == Some(t@),
            None => bearer_of(value@).is_none(),
        },
{
    let length = value.unicode_len();
    if length < 7 {
        return None;
    }
    let prefix = String::from_str(value.substring_char(0, 7));
    if prefix == String::from_str("Bearer ") {
        Some(value.substring_char(7, length))
    } else {
        None
    }
}

/// The caller on whose behalf a protected method acts at instant `now`: the
/// user id bound in the bearer token of the `authorization` entry, and
/// `InvalidToken` when the entry is missing, does not carry a bearer token,
/// or carries one that is not valid.
pub open spec fn caller_of(secret: Seq<u8>, authorization: Option<Seq<char>>, now: Instant) -> Result<
    i64,
    AppErrorView,
> {
    match authorization {
        None => Err(AppErrorView::InvalidToken),
        Some(value) => match bearer_of(value) {
            None => Err(AppErrorView::InvalidToken),
            Some(token) => match verify_outcome(secret, token, now.seconds) {
                Ok(claims) => Ok(claims.user_id),
                Err(e) => Err(e),
            },
        },
    }
}

/// The view of an optional text.
pub open spec fn text_of(value: Option<&str>) -> Option<Seq<char>> {
    match value {
        Some(v) => Some(v@),
        None => None,
    }
}

/// Whether `reply` carries the token of the use-case outcome `outcome`, or
/// reports its error.
pub open spec fn is_auth_reply(
    reply: Result<AuthResponse, Status>,
    outcome: Result<UserAndToken, AppError>,
) -> bool {
    match outcome {
        Ok(granted) => reply matches Ok(response) && response.token@ == granted.token@,
        Err(e) => reply matches Err(status) && status@ == status_of(e@),
    }
}

/// Whether `reply` carries the post of the use-case outcome `outcome`, or
/// reports its error.
pub open spec fn is_post_reply(reply: Result<PostResponse, Status>, outcome: Result<Post, AppError>) -> bool {
    match outcome {
        Ok(post) => reply matches Ok(response) && (response.post matches Some(wire) && wire@
            == post@),
        Err(e) => reply matches Err(status) && status@ == status_of(e@),
    }
}

/// Whether `reply` confirms the use-case outcome `outcome`, or reports its
/// error.
pub open spec fn is_empty_reply(reply: Result<(), Status>, outcome: Result<(), AppError>) -> bool {
    match outcome {
        Ok(_) => reply is Ok,
        Err(e) => reply matches Err(status) && status@ == status_of(e@),
    }
}

/// A post as it travels.
pub fn to_grpc_post(post: Post) -> (wire: crate::grpc_api::Post)
    ensures
        wire@ == post@,
{
    crate::grpc_api::Post {
        id: post.id,
        title: post.title,
        content: post.content,
        author_id: post.author_id,
        created_at: post.created_at,
        updated_at: post.updated_at,
    }
}

/// The reply that carries one post.
pub fn to_post_response(post: Post) -> (response: PostResponse)
    ensures
        response.post matches Some(wire) && wire@ == post@,
{
    PostResponse { post: Some(to_grpc_post(post)) }
}

/// The number of all posts as it travels: the count itself, or the largest
/// number the field can hold when the count lies beyond it.
pub open spec fn wire_total(total: u64) -> i64 {
    if total > i64::MAX as u64 {
        i64::MAX
    } else {
        total as i64
    }
}

/// The number of all posts as it travels.
pub fn wire_total_of(total: u64) -> (count: i64)
    ensures
        count == wire_total(total),
{
    if total > i64::MAX as u64 {
        i64::MAX
    } else {
        total as i64
    }
}

/// The RPC front end. It holds the token service; the use-cases are handed
/// to each method, so that both front ends can work on the same ones.
pub struct GrpcService {
    jwt_service: Arc<JwtService>,
}

impl GrpcService {
    /// The secret under which tokens are checked.
    pub closed spec fn secret(&self) -> Seq<u8> {
        self.jwt_service.secret()
    }

    /// Builds the front end around the shared token service.
    pub fn new(jwt_service: Arc<JwtService>) -> (service: GrpcService)
        ensures
            service.secret() == jwt_service.secret(),
    {
        GrpcService { jwt_service }
    }

    /// Reads the caller's id from the `authorization` entry of a request's
    /// metadata at instant `now`.
    pub fn get_user_id(&self, authorization: Option<&str>, now: Instant) -> (caller: Result<
        i64,
        AppError,
    >)
        ensures
            match caller {
                Ok(id) => caller_of(self.secret(), text_of(authorization), now) == Ok::<
                    i64,
                    AppErrorView,
                >(id),
                Err(e) => caller_of(self.secret(), text_of(authorization), now) == Err::<
                    i64,
                    AppErrorView,
                >(e@),
            },
    {
        let value = match authorization {
            Some(value) => value,
            None => { return Err(AppError::InvalidToken); },
        };
        let token = match bearer_token(value) {
            Some(token) => token,
            None => { return Err(AppError::InvalidToken); },
        };
        match self.jwt_service.verify_token_at(token, now.seconds) {
            Ok(claims) => Ok(claims.user_id),
            Err(e) => Err(e),
        }
    }

    /// `Register`: the token of the new account. The account holds a hash
    /// that the password checks against.
    pub fn register(&self, auth_service: &mut AuthService, request: RegisterRequest, now: Instant) -> (reply:
        Result<AuthResponse, Status>)
        requires
            old(auth_service).wf(),
        ensures
            final(auth_service).wf(),
            final(auth_service).secret() == old(auth_service).secret(),
            exists|registered: Result<UserAndToken, AppError>|
                {
                    &&& #[trigger] is_auth_reply(reply, registered)
                    &&& registered_as(
                        old(auth_service).users(),
                        old(auth_service).next_id(),
                        old(auth_service).secret(),
                        final(auth_service).users(),
                        registered,
                        request.username@,
                        request.email@,
                        request.password@,
                        now,
                    )
                    &&& registered matches Ok(granted) ==> crate::credentials::verify_outcome(
                        request.password@,
                        granted.user.password_hash@,
                    ) == Ok::<bool, AppErrorView>(true)
                },
    {
        let registered = auth_service.register(
            request.username,
            request.email,
            request.password,
            now,
        );
        let ghost outcome = registered;
        let reply = match registered {
            Ok(granted) => Ok(AuthResponse { token: granted.token }),
            Err(e) => Err(Status::from_error(e)),
        };
        assert(is_auth_reply(reply, outcome));
        reply
    }

    /// `Login`: a fresh token for the account.
    pub fn login(&self, auth_service: &AuthService, request: LoginRequest, now: Instant) -> (reply:
        Result<AuthResponse, Status>)
        requires
            auth_service.wf(),
        ensures
            exists|logged_in: Result<UserAndToken, AppError>|
                {
                    &&& #[trigger] is_auth_reply(reply, logged_in)
                    &&& logged_in_as(
                        auth_service.users(),
                        auth_service.secret(),
                        logged_in,
                        request.username@,
                        request.password@,
                        now,
                    )
                },
    {
        let logged_in = auth_service.login(request.username, request.password, now);
        let ghost outcome = logged_in;
        let reply = match logged_in {
            Ok(granted) => Ok(AuthResponse { token: granted.token }),
            Err(e) => Err(Status::from_error(e)),
        };
        assert(is_auth_reply(reply, outcome));
        reply
    }

    /// `CreatePost`: the new post, written by the caller that the bearer
    /// token names. Without a valid token the use-case is not invoked.
    pub fn create_post(
        &self,
        authorization: Option<&str>,
        posts_service: &mut BlogService,
        request: CreatePostRequest,
        now: Instant,
    ) -> (reply: Result<PostResponse, Status>)
        requires
            old(posts_service).wf(),
        ensures
            final(posts_service).wf(),
            match caller_of(self.secret(), text_of(authorization), now) {
                Err(e) => {
                    &&& reply matches Err(status) && status@ == status_of(e)
                    &&& final(posts_service)@ == old(posts_service)@
                    &&& final(posts_service).next_id() == old(posts_service).next_id()
                },
                Ok(user_id) => exists|created: Result<Post, AppError>|
                    {
                        &&& #[trigger] is_post_reply(reply, created)
                        &&& created_as(
                            old(posts_service)@,
                            old(posts_service).next_id(),
                            final(posts_service)@,
                            created,
                            request.title@,
                            request.content@,
                            user_id,
                            now.millis,
                        )
                    },
            },
    {
        let user_id = match self.get_user_id(authorization, now) {
            Ok(id) => id,
            Err(e) => { return Err(Status::from_error(e)); },
        };
        let created = posts_service.create_post(request.title, request.content, user_id, now.millis);
        let ghost outcome = created;
        let reply = match created {
            Ok(post) => Ok(to_post_response(post)),
            Err(e) => Err(Status::from_error(e)),
        };
        assert(is_post_reply(reply, outcome));
        reply
    }

    /// `GetPost`: the post. Anyone may read.
    pub fn get_post(&self, posts_service: &BlogService, request: GetPostRequest) -> (reply: Result<
        PostResponse,
        Status,
    >)
        ensures
            exists|found: Result<Post, AppError>|
                {
                    &&& #[trigger] is_post_reply(reply, found)
                    &&& fetched_as(posts_service@, found, request.post_id)
                },
    {
        let found = posts_service.get_post(request.post_id);
        let ghost outcome = found;
        let reply = match found {
            Ok(post) => Ok(to_post_response(post)),
            Err(e) => Err(Status::from_error(e)),
        };
        assert(is_post_reply(reply, outcome));
        reply
    }

    /// `UpdatePost`: the rewritten post, provided that the caller that the
    /// bearer token names wrote it. Without a valid token the use-case is not
    /// invoked.
    pub fn update_post(
        &self,
        authorization: Option<&str>,
        posts_service: &mut BlogService,
        request: UpdatePostRequest,
        now: Instant,
    ) -> (reply: Result<PostResponse, Status>)
        requires
            old(posts_service).wf(),
        ensures
            final(posts_service).wf(),
            final(posts_service).next_id() == old(posts_service).next_id(),
            match caller_of(self.secret(), text_of(authorization), now) {
                Err(e) => {
                    &&& reply matches Err(status) && status@ == status_of(e)
                    &&& final(posts_service)@ == old(posts_service)@
                },
                Ok(user_id) => exists|updated: Result<Post, AppError>|
                    {
                        &&& #[trigger] is_post_reply(reply, updated)
                        &&& updated_as(
                            old(posts_service)@,
                            final(posts_service)@,
                            updated,
                            request.post_id,
                            request.title@,
                            request.content@,
                            user_id,
                            now.millis,
                        )
                    },
            },
    {
        let user_id = match self.get_user_id(authorization, now) {
            Ok(id) => id,
            Err(e) => { return Err(Status::from_error(e)); },
        };
        let updated = posts_service.update_post(
            request.post_id,
            request.title,
            request.content,
            user_id,
            now.millis,
        );
        let ghost outcome = updated;
        let reply = match updated {
            Ok(post) => Ok(to_post_response(post)),
            Err(e) => Err(Status::from_error(e)),
        };
        assert(is_post_reply(reply, outcome));
        reply
    }

    /// `DeletePost`: nothing, provided that the caller that the bearer token
    /// names wrote the post. Without a valid token the use-case is not
    /// invoked.
    pub fn delete_post(
        &self,
        authorization: Option<&str>,
        posts_service: &mut BlogService,
        request: DeletePostRequest,
        now: Instant,
    ) -> (reply: Result<(), Status>)
        requires
            old(posts_service).wf(),
        ensures
            final(posts_service).wf(),
            final(posts_service).next_id() == old(posts_service).next_id(),
            match caller_of(self.secret(), text_of(authorization), now) {
                Err(e) => {
                    &&& reply matches Err(status) && status@ == status_of(e)
                    &&& final(posts_service)@ == old(posts_service)@
                },
                Ok(user_id) => exists|deleted: Result<(), AppError>|
                    {
                        &&& #[trigger] is_empty_reply(reply, deleted)
                        &&& deleted_as(
                            old(posts_service)@,
                            final(posts_service)@,
                            deleted,
                            request.post_id,
                            user_id,
                        )
                    },
            },
    {
        let user_id = match self.get_user_id(authorization, now) {
            Ok(id) => id,
            Err(e) => { return Err(Status::from_error(e)); },
        };
        let deleted = posts_service.delete_post(request.post_id, user_id);
        let ghost outcome = deleted;
        let reply = match deleted {
            Ok(_) => Ok(()),
            Err(e) => Err(Status::from_error(e)),
        };
        assert(is_empty_reply(reply, outcome));
        reply
    }

    /// `GetPosts`: one page of posts, newest first, the window that was
    /// applied (10 posts from the newest on, unless the request says
    /// otherwise), and the number of all posts, which always fits the field
    /// for a store that keeps its invariant. Anyone may read.
    pub fn get_posts(&self, posts_service: &BlogService, request: GetPostsRequest) -> (reply: Result<
        GetPostsResponse,
        Status,
    >)
        ensures
            match reply {
                Ok(response) => {
                    &&& response.limit == (match request.limit {
                        Some(limit) => limit,
                        None => 10i64,
                    })
                    &&& response.offset == (match request.offset {
                        Some(offset) => offset,
                        None => 0i64,
                    })
                    &&& wire_views_of(response.posts@) == page_of(
                        posts_service@,
                        response.limit,
                        response.offset,
                    )
                    &&& response.total_posts_count == wire_total(posts_service@.len() as u64)
                    &&& posts_service.wf() ==> response.total_posts_count == posts_service@.len()
                },
                Err(_) => false,
            },
    {
        proof {
            if posts_service.wf() {
                posts_service.lemma_wf();
            }
        }
        let limit = match request.limit {
            Some(limit) => limit,
            None => default_limit(),
        };
        let offset = match request.offset {
            Some(offset) => offset,
            None => default_offset(),
        };
        let (posts, total) = match posts_service.get_posts(limit, offset) {
            Ok(listed) => listed,
            Err(e) => { return Err(Status::from_error(e)); },
        };
        let mut wire: Vec<crate::grpc_api::Post> = Vec::new();
        let mut i: usize = 0;
        while i < posts.len()
            invariant
                0 <= i <= posts.len(),
                wire@.len() == i,
                forall|k: int| 0 <= k < i ==> (#[trigger] wire@[k])@ == posts@[k]@,
            decreases posts.len() - i,
        {
            wire.push(to_grpc_post(posts[i].clone()));
            i += 1;
        }
        assert(wire_views_of(wire@) =~= crate::post::views_of(posts@));
        let total_posts_count = wire_total_of(total);
        Ok(GetPostsResponse { posts: wire, limit, offset, total_posts_count })
    }
}

} // verus!
