//! What holds of the backend as a whole: both front ends decide alike, a
//! taken username stays taken, a foreign post stays out of reach and an
//! expired token stays refused.

use vstd::prelude::*;
use vstd::string::*;
use crate::auth_service::{
    is_outcome,
    token_names_user,
    login_outcome,
    register_outcome,
    registered_as,
    users_after_register,
};
use crate::clock::Instant;
use crate::error::{is_internal, wire_text_of, AppError, AppErrorView};
use crate::grpc_api::Code;
use crate::grpc_service::{bearer_of, caller_of, code_of};
use crate::http_handlers::status_of;
use crate::jwt::{hs256_verified, verify_outcome, TOKEN_LIFETIME};
use crate::middleware::{validation_outcome, RejectionView};
use crate::post::{Post, PostView};
use crate::post_repository::{deleted_as, has_post, has_post_by, ids_distinct, updated_as};
use crate::user::{UserAndToken, UserView};
use crate::user_repository::{email_taken, save_outcome, username_taken};

verus! {

/// The two front ends put every error into the same class: what one calls
/// 401 the other calls `Unauthenticated`, and likewise 409 and
/// `AlreadyExists`, 404 and `NotFound`, 403 and `PermissionDenied`, 500 and
/// `Internal`. No error gets any other status or code.
pub proof fn lemma_front_ends_agree(error: AppErrorView)
    ensures
        status_of(error) == 401 <==> code_of(error) == Code::Unauthenticated,
        status_of(error) == 409 <==> code_of(error) == Code::AlreadyExists,
        status_of(error) == 404 <==> code_of(error) == Code::NotFound,
        status_of(error) == 403 <==> code_of(error) == Code::PermissionDenied,
        status_of(error) == 500 <==> code_of(error) == Code::Internal,
        status_of(error) == 401 || status_of(error) == 409 || status_of(error) == 404 || status_of(
            error,
        ) == 403 || status_of(error) == 500,
{
}

/// No detail of an internal failure crosses either front end: any two
/// internal failures, whatever messages they carry, are answered alike, with
/// status 500 or code `Internal` and one fixed text.
pub proof fn lemma_internal_failures_look_alike(one: AppErrorView, other: AppErrorView)
    requires
        is_internal(one),
        is_internal(other),
    ensures
        status_of(one) == 500,
        status_of(other) == 500,
        wire_text_of(one) == wire_text_of(other),
        crate::grpc_service::status_of(one) == crate::grpc_service::status_of(other),
        code_of(one) == Code::Internal,
{
}

/// The value of an `authorization` entry that carries `token`.
pub open spec fn bearer_header(token: Seq<char>) -> Seq<char> {
    "Bearer "@ + token
}

/// The token that was put into an `authorization` entry is the one that
/// comes out of it.
pub proof fn lemma_bearer_round_trip(token: Seq<char>)
    ensures
        bearer_of(bearer_header(token)) == Some(token),
{
    reveal_strlit("Bearer ");
    let header = bearer_header(token);
    assert(header.subrange(0, 7) =~= "Bearer "@);
    assert(header.subrange(7, header.len() as int) =~= token);
}

/// Both front ends recognise the same callers: at any instant a token is
/// accepted by the token check of the text protocol exactly when the RPC
/// front end accepts it, and then both act for the same user id.
pub proof fn lemma_same_caller(secret: Seq<u8>, token: Seq<char>, now: Instant)
    ensures
        validation_outcome(Some(secret), token, now) is Ok <==> caller_of(
            secret,
            Some(bearer_header(token)),
            now,
        ) is Ok,
        validation_outcome(Some(secret), token, now) matches Ok(identity) ==> caller_of(
            secret,
            Some(bearer_header(token)),
            now,
        ) == Ok::<i64, AppErrorView>(identity.0),
        validation_outcome(Some(secret), token, now) matches Err(rejection) ==> rejection.status
            == 401,
        validation_outcome(Some(secret), token, now) is Err ==> caller_of(
            secret,
            Some(bearer_header(token)),
            now,
        ) == Err::<i64, AppErrorView>(AppErrorView::InvalidToken),
        code_of(AppErrorView::InvalidToken) == Code::Unauthenticated,
{
    lemma_bearer_round_trip(token);
}

/// A registration under a username or an email that is taken is refused
/// with `UserAlreadyExists`, which is 409 on the text protocol and
/// `AlreadyExists` on the RPC protocol, and it leaves the accounts exactly as
/// they were.
pub proof fn lemma_taken_name_is_refused(
    users: Seq<UserView>,
    next_id: i64,
    secret: Seq<u8>,
    username: Seq<char>,
    email: Seq<char>,
    hash: Seq<char>,
    now: Instant,
)
    requires
        username_taken(users, username) || email_taken(users, email),
    ensures
        register_outcome(users, next_id, secret, username, email, Ok(hash), now) == Err::<
            (UserView, Seq<char>),
            AppErrorView,
        >(AppErrorView::UserAlreadyExists),
        users_after_register(users, next_id, username, email, Ok(hash), now) == users,
        status_of(AppErrorView::UserAlreadyExists) == 409,
        code_of(AppErrorView::UserAlreadyExists) == Code::AlreadyExists,
{
}

/// Whatever the hasher does, a registration under a username or an email
/// that is taken never succeeds and never stores anything: it ends in
/// `UserAlreadyExists`, or in the hasher's own error when hashing failed
/// before the store was asked.
pub proof fn lemma_taken_name_never_registers(
    before: Seq<UserView>,
    next_id: i64,
    secret: Seq<u8>,
    after: Seq<UserView>,
    registered: Result<UserAndToken, AppError>,
    username: Seq<char>,
    email: Seq<char>,
    password: Seq<char>,
    now: Instant,
)
    requires
        username_taken(before, username) || email_taken(before, email),
        registered_as(before, next_id, secret, after, registered, username, email, password, now),
    ensures
        after == before,
        registered matches Err(e) && (e@ == AppErrorView::UserAlreadyExists || e@ is HashError),
{
    let hashed = choose|hashed: Result<Seq<char>, AppErrorView>|
        {
            &&& hashed matches Err(e) ==> e is HashError
            &&& hashed matches Ok(hash) ==> crate::credentials::verify_outcome(password, hash)
                == Ok::<bool, AppErrorView>(true)
            &&& is_outcome(
                registered,
                #[trigger] register_outcome(before, next_id, secret, username, email, hashed, now),
            )
            &&& after == users_after_register(before, next_id, username, email, hashed, now)
        };
}

/// Once a registration has stored an account, every later registration
/// under the same username is refused with `UserAlreadyExists`, whatever
/// email, password hash and instant it comes with, and stores nothing.
pub proof fn lemma_second_registration_is_refused(
    users: Seq<UserView>,
    next_id: i64,
    secret: Seq<u8>,
    username: Seq<char>,
    first_email: Seq<char>,
    first_hash: Seq<char>,
    first_now: Instant,
    second_next_id: i64,
    second_email: Seq<char>,
    second_hash: Seq<char>,
    second_now: Instant,
)
    requires
        save_outcome(users, next_id, username, first_email, first_hash, first_now.millis) is Ok,
    ensures
        ({
            let stored = users_after_register(
                users,
                next_id,
                username,
                first_email,
                Ok(first_hash),
                first_now,
            );
            &&& username_taken(stored, username)
            &&& register_outcome(
                stored,
                second_next_id,
                secret,
                username,
                second_email,
                Ok(second_hash),
                second_now,
            ) == Err::<(UserView, Seq<char>), AppErrorView>(AppErrorView::UserAlreadyExists)
            &&& users_after_register(
                stored,
                second_next_id,
                username,
                second_email,
                Ok(second_hash),
                second_now,
            ) == stored
        }),
{
    let stored = users_after_register(users, next_id, username, first_email, Ok(first_hash), first_now);
    assert(stored[users.len() as int].username == username);
}

/// A login that fails because nobody carries the username and a login that
/// fails because the password is wrong cannot be told apart on the wire:
/// both are 401 on the text protocol and `Unauthenticated` on the RPC
/// protocol, and both carry the same text.
pub proof fn lemma_failed_logins_look_alike(
    found: UserView,
    secret: Seq<u8>,
    username: Seq<char>,
    password: Seq<char>,
    now: Instant,
)
    requires
        crate::credentials::verify_outcome(password, found.password_hash) == Ok::<
            bool,
            AppErrorView,
        >(false),
    ensures
        login_outcome(None, secret, username, password, now) matches Err(unknown) && login_outcome(
            Some(found),
            secret,
            username,
            password,
            now,
        ) matches Err(wrong) && status_of(unknown) == 401 && status_of(wrong) == 401 && code_of(
            unknown,
        ) == Code::Unauthenticated && code_of(wrong) == Code::Unauthenticated && wire_text_of(
            unknown,
        ) == wire_text_of(wrong),
{
}

/// An update on behalf of a caller who did not write the post changes
/// nothing and is refused with `Forbidden`, which is 403 on the text protocol
/// and `PermissionDenied` on the RPC protocol.
pub proof fn lemma_foreign_update_is_forbidden(
    before: Seq<PostView>,
    after: Seq<PostView>,
    updated: Result<Post, AppError>,
    post_id: i64,
    title: Seq<char>,
    content: Seq<char>,
    caller: i64,
    now: i64,
)
    requires
        has_post(before, post_id),
        !has_post_by(before, post_id, caller),
        updated_as(before, after, updated, post_id, title, content, caller, now),
    ensures
        updated matches Err(e) && e@ == AppErrorView::Forbidden,
        after == before,
        status_of(AppErrorView::Forbidden) == 403,
        code_of(AppErrorView::Forbidden) == Code::PermissionDenied,
{
}

/// A deletion on behalf of a caller who did not write the post changes
/// nothing and is refused with `Forbidden`, which is 403 on the text protocol
/// and `PermissionDenied` on the RPC protocol.
pub proof fn lemma_foreign_delete_is_forbidden(
    before: Seq<PostView>,
    after: Seq<PostView>,
    deleted: Result<(), AppError>,
    post_id: i64,
    caller: i64,
)
    requires
        has_post(before, post_id),
        !has_post_by(before, post_id, caller),
        deleted_as(before, after, deleted, post_id, caller),
    ensures
        deleted matches Err(e) && e@ == AppErrorView::Forbidden,
        after == before,
        status_of(AppErrorView::Forbidden) == 403,
        code_of(AppErrorView::Forbidden) == Code::PermissionDenied,
{
}

/// An update is decided by the posts, the post's id and the caller alone:
/// whichever front end carries it, the same request on the same posts gets
/// the same answer and leaves the same posts behind. What one front end
/// denies the other denies too.
pub proof fn lemma_update_is_decided_alike(
    before: Seq<PostView>,
    one_after: Seq<PostView>,
    one: Result<Post, AppError>,
    other_after: Seq<PostView>,
    other: Result<Post, AppError>,
    post_id: i64,
    title: Seq<char>,
    content: Seq<char>,
    caller: i64,
    now: i64,
)
    requires
        ids_distinct(before),
        updated_as(before, one_after, one, post_id, title, content, caller, now),
        updated_as(before, other_after, other, post_id, title, content, caller, now),
    ensures
        one is Ok <==> other is Ok,
        one_after == other_after,
        one matches Ok(post) ==> other matches Ok(same) && post@ == same@,
        one matches Err(e) ==> other matches Err(same) && e@ == same@ && status_of(e@)
            == status_of(same@) && code_of(e@) == code_of(same@),
{
    if let Ok(post) = one {
        let same = other->Ok_0;
        let i = choose|i: int|
            {
                &&& 0 <= i < before.len()
                &&& (#[trigger] before[i]).id == post_id
                &&& post@ == (PostView { title, content, updated_at: now, ..before[i] })
                &&& post.author_id == caller
                &&& one_after == before.update(i, post@)
            };
        let j = choose|j: int|
            {
                &&& 0 <= j < before.len()
                &&& (#[trigger] before[j]).id == post_id
                &&& same@ == (PostView { title, content, updated_at: now, ..before[j] })
                &&& same.author_id == caller
                &&& other_after == before.update(j, same@)
            };
        assert(i == j);
    }
}

/// A deletion is decided by the posts, the post's id and the caller alone:
/// whichever front end carries it, the same request on the same posts gets
/// the same answer and leaves the same posts behind. What one front end
/// denies the other denies too.
pub proof fn lemma_delete_is_decided_alike(
    before: Seq<PostView>,
    one_after: Seq<PostView>,
    one: Result<(), AppError>,
    other_after: Seq<PostView>,
    other: Result<(), AppError>,
    post_id: i64,
    caller: i64,
)
    requires
        ids_distinct(before),
        deleted_as(before, one_after, one, post_id, caller),
        deleted_as(before, other_after, other, post_id, caller),
    ensures
        one is Ok <==> other is Ok,
        one_after == other_after,
        one matches Err(e) ==> other matches Err(same) && e@ == same@ && status_of(e@)
            == status_of(same@) && code_of(e@) == code_of(same@),
{
    if one is Ok {
        let i = choose|i: int|
            {
                &&& 0 <= i < before.len()
                &&& (#[trigger] before[i]).id == post_id
                &&& one_after == before.remove(i)
            };
        let j = choose|j: int|
            {
                &&& 0 <= j < before.len()
                &&& (#[trigger] before[j]).id == post_id
                &&& other_after == before.remove(j)
            };
        assert(i == j);
    }
}

/// A token granted by a registration or a login acts for the account it was
/// granted with, and for no other, on both front ends, from the instant it
/// was granted until just before it expires.
pub proof fn lemma_granted_token_acts_for_its_account(
    secret: Seq<u8>,
    granted: UserAndToken,
    issued: Instant,
    now: Instant,
)
    requires
        token_names_user(Ok(granted), secret, issued),
        -TOKEN_LIFETIME <= issued.seconds <= i64::MAX - TOKEN_LIFETIME,
        now.seconds < issued.seconds + TOKEN_LIFETIME,
    ensures
        validation_outcome(Some(secret), granted.token@, now) == Ok::<
            (i64, Seq<char>),
            RejectionView,
        >((granted.user.id, granted.user.username@)),
        caller_of(secret, Some(bearer_header(granted.token@)), now) == Ok::<i64, AppErrorView>(
            granted.user.id,
        ),
{
    lemma_bearer_round_trip(granted.token@);
}

/// From the instant a token expires, every authenticated call that presents
/// it is turned away as unauthenticated by both front ends: 401 from the
/// token check of the text protocol, `InvalidToken` and thus
/// `Unauthenticated` from the RPC front end.
pub proof fn lemma_expired_token_is_turned_away(secret: Seq<u8>, token: Seq<char>, now: Instant)
    requires
        hs256_verified(secret, token) matches Some(claims) && claims.2 <= now.seconds,
    ensures
        validation_outcome(Some(secret), token, now) == Err::<(i64, Seq<char>), RejectionView>(
            RejectionView { status: 401, message: "Invalid or expired token"@ },
        ),
        caller_of(secret, Some(bearer_header(token)), now) == Err::<i64, AppErrorView>(
            AppErrorView::InvalidToken,
        ),
        code_of(AppErrorView::InvalidToken) == Code::Unauthenticated,
        status_of(AppErrorView::InvalidToken) == 401,
{
    lemma_bearer_round_trip(token);
}

} // verus!
