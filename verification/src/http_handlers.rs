//! The text-protocol front end: one handler per operation, each a plain
//! mapping between a request, a use-case and a response with a status.

use vstd::prelude::*;
use vstd::string::*;
use crate::api::Operation;
use crate::auth_service::{logged_in_as, registered_as, AuthService};
use crate::blog_service::{created_as, fetched_as, listed_as, BlogService};
use crate::post_repository::{deleted_as, updated_as};
use crate::clock::Instant;
use crate::credentials::verify_outcome;
use crate::error::{wire_text_of, AppError, AppErrorView};
use crate::post::{CreatePostParams, GetPostsParams, GetPostsResponse, Post, UpdatePostParams};
use crate::user::{AuthenticatedUser, CreateUserParams, LoginParams, UserAndToken};

verus! {

/// The body of an error response.
#[derive(Debug, PartialEq, Eq)]
pub struct ErrorDescription {
    /// The error's text.
    pub error: String,
    /// The status, repeated in the body.
    pub status: u16,
}

/// What a response carries.
#[derive(Debug, PartialEq, Eq)]
pub enum Body {
    Empty,
    Auth(UserAndToken),
    Post(Post),
    Posts(GetPostsResponse),
    Error(ErrorDescription),
}

/// A response of the text protocol: a status and a body.
#[derive(Debug, PartialEq, Eq)]
pub struct HttpResponse {
    pub status: u16,
    pub body: Body,
}

/// The status that the text protocol gives to an error: 401 for anything
/// that amounts to "not authenticated" (an unknown user and a wrong password
/// are deliberately not told apart), 409 for a taken username or email, 404
/// for a missing post, 403 for a post of somebody else, and 500 for every
/// internal failure.
pub open spec fn status_of(error: AppErrorView) -> u16 {
    match error {
        AppErrorView::UserNotFound { .. } => 401,
        AppErrorView::UserAlreadyExists => 409,
        AppErrorView::InvalidCredentials => 401,
        AppErrorView::PostNotFound => 404,
        AppErrorView::Forbidden => 403,
        AppErrorView::InvalidToken => 401,
        _ => 500,
    }
}

impl AppError {
    /// The status that the text protocol gives to this error.
    pub fn status_code(&self) -> (status: u16)
        ensures
            status == status_of(self@),
    {
        match self {
            AppError::UserNotFound { .. } => 401,
            AppError::UserAlreadyExists => 409,
            AppError::InvalidCredentials => 401,
            AppError::PostNotFound => 404,
            AppError::Forbidden => 403,
            AppError::InvalidToken => 401,
            _ => 500,
        }
    }

    /// The response that reports this error: its status, and a body that
    /// holds the error's wire text and the status once more. Whatever detail
    /// the error carries stays behind.
    pub fn error_response(&self) -> (response: HttpResponse)
        ensures
            response.status == status_of(self@),
            response.body matches Body::Error(description) && description.status == status_of(
                self@,
            ) && description.error@ == wire_text_of(self@),
    {
        let status = self.status_code();
        HttpResponse {
            status,
            body: Body::Error(ErrorDescription { error: self.wire_text(), status }),
        }
    }
}

/// The response that a handler's result turns into on the wire: the
/// response itself, or the report of the error.
pub fn respond(result: Result<HttpResponse, AppError>) -> (response: HttpResponse)
    ensures
        match result {
            Ok(r) => response == r,
            Err(e) => response.status == status_of(e@) && (response.body matches Body::Error(
                description,
            ) && description.status == status_of(e@) && description.error@ == wire_text_of(e@)),
        },
{
    match result {
        Ok(response) => response,
        Err(e) => e.error_response(),
    }
}

/// The use-case outcome that a handler's result stands for, when the
/// result is a response with status `status` that carries an account and a
/// token, or an error.
pub open spec fn auth_outcome(result: Result<HttpResponse, AppError>, status: u16) -> Option<
    Result<UserAndToken, AppError>,
> {
    match result {
        Ok(HttpResponse { status: s, body: Body::Auth(granted) }) => if s == status {
            Some(Ok(granted))
        } else {
            None
        },
        Ok(_) => None,
        Err(e) => Some(Err(e)),
    }
}

/// The use-case outcome that a handler's result stands for, when the
/// result is a response with status `status` that carries a post, or an
/// error.
pub open spec fn post_outcome(result: Result<HttpResponse, AppError>, status: u16) -> Option<
    Result<Post, AppError>,
> {
    match result {
        Ok(HttpResponse { status: s, body: Body::Post(post) }) => if s == status {
            Some(Ok(post))
        } else {
            None
        },
        Ok(_) => None,
        Err(e) => Some(Err(e)),
    }
}

/// The use-case outcome that a handler's result stands for, when the
/// result is an empty response with status `status`, or an error.
pub open spec fn empty_outcome(result: Result<HttpResponse, AppError>, status: u16) -> Option<
    Result<(), AppError>,
> {
    match result {
        Ok(HttpResponse { status: s, body: Body::Empty }) => if s == status {
            Some(Ok(()))
        } else {
            None
        },
        Ok(_) => None,
        Err(e) => Some(Err(e)),
    }
}

/// The identity on whose behalf a protected handler acts: the id of the
/// authenticated user that the token check attached to the request, or
/// `InvalidToken` when it attached none.
pub open spec fn caller_of(user: Option<&AuthenticatedUser>) -> Result<i64, AppErrorView> {
    match user {
        Some(user) => Ok(user.user_id),
        None => Err(AppErrorView::InvalidToken),
    }
}

/// Reads the caller's id from the identity attached to the request.
pub fn try_get_user_id(user: Option<&AuthenticatedUser>) -> (caller: Result<i64, AppError>)
    ensures
        match caller {
            Ok(id) => caller_of(user) == Ok::<i64, AppErrorView>(id),
            Err(e) => caller_of(user) == Err::<i64, AppErrorView>(e@),
        },
{
    match user {
        Some(user) => Ok(user.user_id),
        None => Err(AppError::InvalidToken),
    }
}

/// `POST /auth/register`: 201 with the new account and its token. The
/// account holds a hash that the password checks against.
pub fn register(auth_service: &mut AuthService, request: CreateUserParams, now: Instant) -> (result:
    Result<HttpResponse, AppError>)
    requires
        old(auth_service).wf(),
    ensures
        final(auth_service).wf(),
        final(auth_service).secret() == old(auth_service).secret(),
        auth_outcome(result, 201) matches Some(registered) && registered_as(
            old(auth_service).users(),
            old(auth_service).next_id(),
            old(auth_service).secret(),
            final(auth_service).users(),
            registered,
            request.username@,
            request.email@,
            request.password@,
            now,
        ),
        result matches Ok(HttpResponse { body: Body::Auth(granted), .. }) ==> verify_outcome(
            request.password@,
            granted.user.password_hash@,
        ) == Ok::<bool, AppErrorView>(true),
{
    let granted = match auth_service.register(
        request.username,
        request.email,
        request.password,
        now,
    ) {
        Ok(granted) => granted,
        Err(e) => { return Err(e); },
    };
    Ok(HttpResponse { status: Operation::Register.success_status(), body: Body::Auth(granted) })
}

/// `POST /auth/login`: 200 with the account and a fresh token.
pub fn login(auth_service: &AuthService, request: LoginParams, now: Instant) -> (result: Result<
    HttpResponse,
    AppError,
>)
    requires
        auth_service.wf(),
    ensures
        auth_outcome(result, 200) matches Some(logged_in) && logged_in_as(
            auth_service.users(),
            auth_service.secret(),
            logged_in,
            request.username@,
            request.password@,
            now,
        ),
{
    let granted = match auth_service.login(request.username, request.password, now) {
        Ok(granted) => granted,
        Err(e) => { return Err(e); },
    };
    Ok(HttpResponse { status: Operation::Login.success_status(), body: Body::Auth(granted) })
}

/// `POST /posts`: 201 with the new post, written by the authenticated
/// caller. Without an identity the use-case is not invoked.
pub fn create_post(
    user: Option<&AuthenticatedUser>,
    blog_service: &mut BlogService,
    post_data: CreatePostParams,
    now: Instant,
) -> (result: Result<HttpResponse, AppError>)
    requires
        old(blog_service).wf(),
    ensures
        final(blog_service).wf(),
        match user {
            None => {
                &&& result matches Err(e) && e@ == AppErrorView::InvalidToken
                &&& final(blog_service)@ == old(blog_service)@
                &&& final(blog_service).next_id() == old(blog_service).next_id()
            },
            Some(caller) => post_outcome(result, 201) matches Some(created) && created_as(
                old(blog_service)@,
                old(blog_service).next_id(),
                final(blog_service)@,
                created,
                post_data.title@,
                post_data.content@,
                caller.user_id,
                now.millis,
            ),
        },
{
    let user_id = match try_get_user_id(user) {
        Ok(id) => id,
        Err(e) => { return Err(e); },
    };
    let post = match blog_service.create_post(
        post_data.title,
        post_data.content,
        user_id,
        now.millis,
    ) {
        Ok(post) => post,
        Err(e) => { return Err(e); },
    };
    Ok(HttpResponse { status: Operation::CreatePost.success_status(), body: Body::Post(post) })
}

/// `GET /posts/{id}`: 200 with the post. Anyone may read.
pub fn get_post(post_id: i64, blog_service: &BlogService) -> (result: Result<HttpResponse, AppError>)
    ensures
        post_outcome(result, 200) matches Some(found) && fetched_as(blog_service@, found, post_id),
{
    let post = match blog_service.get_post(post_id) {
        Ok(post) => post,
        Err(e) => { return Err(e); },
    };
    Ok(HttpResponse { status: Operation::GetPost.success_status(), body: Body::Post(post) })
}

/// `PUT /posts/{id}`: 200 with the rewritten post, provided that the
/// authenticated caller wrote it. Without an identity the use-case is not
/// invoked.
pub fn update_post(
    user: Option<&AuthenticatedUser>,
    post_id: i64,
    blog_service: &mut BlogService,
    post_data: UpdatePostParams,
    now: Instant,
) -> (result: Result<HttpResponse, AppError>)
    requires
        old(blog_service).wf(),
    ensures
        final(blog_service).wf(),
        final(blog_service).next_id() == old(blog_service).next_id(),
        match user {
            None => {
                &&& result matches Err(e) && e@ == AppErrorView::InvalidToken
                &&& final(blog_service)@ == old(blog_service)@
            },
            Some(caller) => post_outcome(result, 200) matches Some(updated) && updated_as(
                old(blog_service)@,
                final(blog_service)@,
                updated,
                post_id,
                post_data.title@,
                post_data.content@,
                caller.user_id,
                now.millis,
            ),
        },
{
    let user_id = match try_get_user_id(user) {
        Ok(id) => id,
        Err(e) => { return Err(e); },
    };
    let post = match blog_service.update_post(
        post_id,
        post_data.title,
        post_data.content,
        user_id,
        now.millis,
    ) {
        Ok(post) => post,
        Err(e) => { return Err(e); },
    };
    Ok(HttpResponse { status: Operation::UpdatePost.success_status(), body: Body::Post(post) })
}

/// `DELETE /posts/{id}`: 204 and no body, provided that the authenticated
/// caller wrote the post. Without an identity the use-case is not invoked.
pub fn delete_post(user: Option<&AuthenticatedUser>, post_id: i64, blog_service: &mut BlogService) -> (result:
    Result<HttpResponse, AppError>)
    requires
        old(blog_service).wf(),
    ensures
        final(blog_service).wf(),
        final(blog_service).next_id() == old(blog_service).next_id(),
        match user {
            None => {
                &&& result matches Err(e) && e@ == AppErrorView::InvalidToken
                &&& final(blog_service)@ == old(blog_service)@
            },
            Some(caller) => empty_outcome(result, 204) matches Some(deleted) && deleted_as(
                old(blog_service)@,
                final(blog_service)@,
                deleted,
                post_id,
                caller.user_id,
            ),
        },
{
    let user_id = match try_get_user_id(user) {
        Ok(id) => id,
        Err(e) => { return Err(e); },
    };
    match blog_service.delete_post(post_id, user_id) {
        Ok(_) => {},
        Err(e) => { return Err(e); },
    }
    Ok(HttpResponse { status: Operation::DeletePost.success_status(), body: Body::Empty })
}

/// `GET /posts?limit&offset`: 200 with one page of posts, newest first, the
/// number of all posts, and the window as it was asked for. Anyone may read.
pub fn get_posts(params: GetPostsParams, blog_service: &BlogService) -> (result: Result<
    HttpResponse,
    AppError,
>)
    ensures
        match result {
            Ok(HttpResponse { status, body: Body::Posts(response) }) => {
                &&& status == 200
                &&& listed_as(
                    blog_service@,
                    Ok((response.posts, response.total)),
                    params.limit,
                    params.offset,
                )
                &&& response.limit == params.limit
                &&& response.offset == params.offset
            },
            _ => false,
        },
{
    let (posts, total) = match blog_service.get_posts(params.limit, params.offset) {
        Ok(listed) => listed,
        Err(e) => { return Err(e); },
    };
    let response = GetPostsResponse { posts, total, limit: params.limit, offset: params.offset };
    Ok(HttpResponse { status: Operation::GetPosts.success_status(), body: Body::Posts(response) })
}

} // verus!
