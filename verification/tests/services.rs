use std::sync::Arc;

use blog_core::auth_service::{authenticate, AuthService};
use blog_core::blog_service::{authorize, BlogService};
use blog_core::clock::Instant;
use blog_core::error::AppError;
use blog_core::jwt::JwtService;
use blog_core::post::Post;
use blog_core::post_repository::PostRepository;
use blog_core::user::User;
use blog_core::user_repository::UserRepository;

const KNOWN_HASH: &str =
    "$argon2id$v=19$m=256,t=2,p=1$c29tZXNhbHQ$nf65EOgLrQMR/uIPnA4rEsF5h7TKyQwu9U1bMCHGi/4";

fn at(seconds: i64) -> Instant {
    Instant { seconds, millis: seconds * 1000 }
}

fn auth_service() -> (AuthService, Arc<JwtService>) {
    let jwt = Arc::new(JwtService::new("top-secret"));
    (AuthService::new(UserRepository::new(), jwt.clone()), jwt)
}

fn sample_post(author_id: i64) -> Post {
    Post {
        id: 3,
        title: "T".to_string(),
        content: "C".to_string(),
        author_id,
        created_at: 1,
        updated_at: 2,
    }
}

#[test]
fn registration_stores_the_account_and_issues_a_token() {
    let (mut auth, jwt) = auth_service();
    let granted = auth
        .register_hashed(
            "alice".to_string(),
            "a@x.com".to_string(),
            Ok(KNOWN_HASH.to_string()),
            at(1_000),
        )
        .unwrap();
    assert_eq!(
        granted.user,
        User {
            id: 1,
            username: "alice".to_string(),
            email: "a@x.com".to_string(),
            password_hash: KNOWN_HASH.to_string(),
            created_at: 1_000_000,
        }
    );
    let claims = jwt.verify_token_at(&granted.token, 1_000).unwrap();
    assert_eq!(claims.user_id, 1);
    assert_eq!(claims.username, "alice");
    assert_eq!(claims.exp, 1_000 + 86_400);
}

#[test]
fn registration_with_a_failed_hash_stores_nothing() {
    let (mut auth, _) = auth_service();
    let failed = auth.register_hashed(
        "alice".to_string(),
        "a@x.com".to_string(),
        Err(AppError::HashError("out of memory".to_string())),
        at(1_000),
    );
    assert_eq!(failed, Err(AppError::HashError("out of memory".to_string())));
    let login = auth.login("alice".to_string(), "password".to_string(), at(1_001));
    assert_eq!(login, Err(AppError::UserNotFound { username: "alice".to_string() }));
}

#[test]
fn second_registration_of_a_username_is_refused() {
    let (mut auth, _) = auth_service();
    auth.register_hashed(
        "alice".to_string(),
        "a@x.com".to_string(),
        Ok(KNOWN_HASH.to_string()),
        at(1_000),
    )
    .unwrap();
    let again = auth.register_hashed(
        "alice".to_string(),
        "other@x.com".to_string(),
        Ok(KNOWN_HASH.to_string()),
        at(1_001),
    );
    assert_eq!(again, Err(AppError::UserAlreadyExists));
    let next = auth
        .register_hashed(
            "bob".to_string(),
            "other@x.com".to_string(),
            Ok(KNOWN_HASH.to_string()),
            at(1_002),
        )
        .unwrap();
    assert_eq!(next.user.id, 2);
}

#[test]
fn registration_hashes_the_password() {
    let (mut auth, _) = auth_service();
    let granted = auth
        .register("alice".to_string(), "a@x.com".to_string(), "pw1".to_string(), at(1_000))
        .unwrap();
    assert_ne!(granted.user.password_hash, "pw1");
    assert_eq!(
        blog_core::credentials::verify_password("pw1", &granted.user.password_hash),
        Ok(true)
    );
    let again = auth.login("alice".to_string(), "pw1".to_string(), at(2_000)).unwrap();
    assert_eq!(again.user, granted.user);
    assert_ne!(again.token, granted.token);
}

#[test]
fn login_checks_the_password() {
    let (mut auth, jwt) = auth_service();
    auth.register_hashed(
        "alice".to_string(),
        "a@x.com".to_string(),
        Ok(KNOWN_HASH.to_string()),
        at(1_000),
    )
    .unwrap();
    let granted = auth.login("alice".to_string(), "password".to_string(), at(5_000)).unwrap();
    assert_eq!(granted.user.id, 1);
    assert_eq!(jwt.verify_token_at(&granted.token, 5_000).unwrap().exp, 5_000 + 86_400);
    assert_eq!(
        auth.login("alice".to_string(), "differentpassword".to_string(), at(5_000)),
        Err(AppError::InvalidCredentials)
    );
    assert_eq!(
        auth.login("nobody".to_string(), "password".to_string(), at(5_000)),
        Err(AppError::UserNotFound { username: "nobody".to_string() })
    );
}

#[test]
fn login_with_a_malformed_stored_hash_is_an_internal_error() {
    let (mut auth, _) = auth_service();
    auth.register_hashed(
        "alice".to_string(),
        "a@x.com".to_string(),
        Ok("garbage".to_string()),
        at(1_000),
    )
    .unwrap();
    let outcome = auth.login("alice".to_string(), "password".to_string(), at(5_000));
    assert!(matches!(outcome, Err(AppError::HashError(_))));
}

#[test]
fn token_failure_after_storing_is_reported() {
    let (mut auth, _) = auth_service();
    let too_late = Instant { seconds: i64::MAX, millis: 0 };
    let outcome = auth.register_hashed(
        "alice".to_string(),
        "a@x.com".to_string(),
        Ok(KNOWN_HASH.to_string()),
        too_late,
    );
    assert_eq!(outcome, Err(AppError::InvalidDatetime));
    assert_eq!(
        auth.login("alice".to_string(), "password".to_string(), too_late),
        Err(AppError::InvalidDatetime)
    );
}

#[test]
fn authenticate_decides_by_lookup_and_password() {
    let user = User {
        id: 4,
        username: "alice".to_string(),
        email: "a@x.com".to_string(),
        password_hash: KNOWN_HASH.to_string(),
        created_at: 0,
    };
    assert_eq!(
        authenticate(None, "alice".to_string(), "password"),
        Err(AppError::UserNotFound { username: "alice".to_string() })
    );
    assert_eq!(
        authenticate(Some(user.clone()), "alice".to_string(), "nope"),
        Err(AppError::InvalidCredentials)
    );
    assert_eq!(authenticate(Some(user.clone()), "alice".to_string(), "password"), Ok(user));
}

#[test]
fn authorize_lets_only_the_author_through() {
    assert_eq!(authorize(None, 1), Err(AppError::PostNotFound));
    assert_eq!(authorize(Some(sample_post(2)), 1), Err(AppError::Forbidden));
    assert_eq!(authorize(Some(sample_post(1)), 1), Ok(sample_post(1)));
}

#[test]
fn only_the_author_updates_a_post() {
    let mut blog = BlogService::new(PostRepository::new());
    let post = blog.create_post("T".to_string(), "C".to_string(), 1, 100).unwrap();
    assert_eq!(
        blog.update_post(post.id, "X".to_string(), "Y".to_string(), 2, 200),
        Err(AppError::Forbidden)
    );
    assert_eq!(blog.get_post(post.id), Ok(post.clone()));
    assert_eq!(
        blog.update_post(77, "X".to_string(), "Y".to_string(), 1, 200),
        Err(AppError::PostNotFound)
    );
    let updated = blog.update_post(post.id, "X".to_string(), "Y".to_string(), 1, 200).unwrap();
    assert_eq!(
        updated,
        Post {
            id: 1,
            title: "X".to_string(),
            content: "Y".to_string(),
            author_id: 1,
            created_at: 100,
            updated_at: 200,
        }
    );
    assert_eq!(blog.get_post(post.id), Ok(updated));
}

#[test]
fn only_the_author_deletes_a_post() {
    let mut blog = BlogService::new(PostRepository::new());
    let post = blog.create_post("T".to_string(), "C".to_string(), 1, 100).unwrap();
    assert_eq!(blog.delete_post(post.id, 2), Err(AppError::Forbidden));
    assert_eq!(blog.get_post(post.id), Ok(post.clone()));
    assert_eq!(blog.delete_post(77, 1), Err(AppError::PostNotFound));
    assert_eq!(blog.delete_post(post.id, 1), Ok(()));
    assert_eq!(blog.get_post(post.id), Err(AppError::PostNotFound));
    assert_eq!(blog.delete_post(post.id, 1), Err(AppError::PostNotFound));
}

#[test]
fn listing_reports_the_total_whatever_the_window() {
    let mut blog = BlogService::new(PostRepository::new());
    for i in 0..12 {
        blog.create_post(format!("n{i}"), "".to_string(), 1, i).unwrap();
    }
    let (page, total) = blog.get_posts(10, 0).unwrap();
    assert_eq!(page.len(), 10);
    assert_eq!(total, 12);
    assert_eq!(page[0].title, "n11");
    assert_eq!(page[9].title, "n2");
    assert!(page.windows(2).all(|w| w[0].created_at >= w[1].created_at));
    let (page, total) = blog.get_posts(3, 10).unwrap();
    assert_eq!(page.len(), 2);
    assert_eq!(total, 12);
    let (page, total) = blog.get_posts(0, 0).unwrap();
    assert_eq!(page.len(), 0);
    assert_eq!(total, 12);
}

#[test]
fn empty_store_lists_nothing() {
    let blog = BlogService::new(PostRepository::new());
    let (page, total) = blog.get_posts(10, 0).unwrap();
    assert!(page.is_empty());
    assert_eq!(total, 0);
}
