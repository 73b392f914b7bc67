use blog_core::error::AppError;
use blog_core::jwt::{Claims, JwtService, TOKEN_LIFETIME};

#[test]
fn token_lifetime_is_one_day() {
    assert_eq!(TOKEN_LIFETIME, 24 * 60 * 60);
}

#[test]
fn issued_token_carries_identity_and_expiry() {
    let service = JwtService::new("top-secret");
    let token = service.generate_token_at(7, "alice".to_string(), 1_000).unwrap();
    let claims = service.verify_token_at(&token, 1_000).unwrap();
    assert_eq!(claims, Claims { user_id: 7, username: "alice".to_string(), exp: 87_400 });
}

#[test]
fn token_is_a_signed_compact_string() {
    let service = JwtService::new("top-secret");
    let token = service.generate_token_at(7, "alice".to_string(), 1_000).unwrap();
    assert_ne!(token, "alice");
    assert_eq!(token.split('.').count(), 3);
    assert!(token.starts_with("eyJ0eXAiOiJKV1QiLCJhbGciOiJIUzI1NiJ9."));
}

#[test]
fn signing_is_deterministic() {
    let service = JwtService::new("top-secret");
    let first = service.generate_token_at(7, "alice".to_string(), 1_000).unwrap();
    let second = service.generate_token_at(7, "alice".to_string(), 1_000).unwrap();
    assert_eq!(first, second);
    let other = service.generate_token_at(8, "alice".to_string(), 1_000).unwrap();
    assert_ne!(first, other);
}

#[test]
fn token_is_valid_strictly_before_expiry() {
    let service = JwtService::new("top-secret");
    let token = service.generate_token_at(1, "bob".to_string(), 0).unwrap();
    assert!(service.verify_token_at(&token, 0).is_ok());
    assert!(service.verify_token_at(&token, 86_399).is_ok());
    assert_eq!(service.verify_token_at(&token, 86_400), Err(AppError::InvalidToken));
    assert_eq!(service.verify_token_at(&token, 86_401), Err(AppError::InvalidToken));
    assert_eq!(service.verify_token_at(&token, i64::MAX), Err(AppError::InvalidToken));
}

#[test]
fn expired_token_stays_invalid_after_it_worked() {
    let service = JwtService::new("top-secret");
    let token = service.generate_token_at(1, "bob".to_string(), 500).unwrap();
    assert!(service.verify_token_at(&token, 600).is_ok());
    assert_eq!(service.verify_token_at(&token, 500 + 86_400), Err(AppError::InvalidToken));
    assert_eq!(service.verify_token_at(&token, 500 + 86_400 + 1), Err(AppError::InvalidToken));
    assert_eq!(service.verify_token_at(&token, 1_000_000_000), Err(AppError::InvalidToken));
}

#[test]
fn token_signed_with_another_secret_is_invalid() {
    let issuer = JwtService::new("one secret");
    let verifier = JwtService::new("another secret");
    let token = issuer.generate_token_at(1, "bob".to_string(), 0).unwrap();
    assert_eq!(verifier.verify_token_at(&token, 0), Err(AppError::InvalidToken));
}

#[test]
fn malformed_token_is_invalid() {
    let service = JwtService::new("top-secret");
    assert_eq!(service.verify_token_at("", 0), Err(AppError::InvalidToken));
    assert_eq!(service.verify_token_at("not a token", 0), Err(AppError::InvalidToken));
    assert_eq!(service.verify_token_at("a.b.c", 0), Err(AppError::InvalidToken));
}

#[test]
fn tampered_token_is_invalid() {
    let service = JwtService::new("top-secret");
    let token = service.generate_token_at(1, "bob".to_string(), 0).unwrap();
    let mut tampered = token.clone();
    let last = tampered.pop().unwrap();
    tampered.push(if last == 'A' { 'B' } else { 'A' });
    assert_eq!(service.verify_token_at(&tampered, 0), Err(AppError::InvalidToken));
}

#[test]
fn expiry_beyond_the_clock_is_refused() {
    let service = JwtService::new("top-secret");
    assert_eq!(
        service.generate_token_at(1, "bob".to_string(), i64::MAX),
        Err(AppError::InvalidDatetime)
    );
    assert_eq!(
        service.generate_token_at(1, "bob".to_string(), i64::MAX - 86_399),
        Err(AppError::InvalidDatetime)
    );
    assert!(service.generate_token_at(1, "bob".to_string(), i64::MAX - 86_400).is_ok());
}

#[test]
fn token_issued_now_is_valid_now() {
    let service = JwtService::new("top-secret");
    let token = service.generate_token(42, "carol".to_string()).unwrap();
    let claims = service.verify_token(&token).unwrap();
    assert_eq!(claims.user_id, 42);
    assert_eq!(claims.username, "carol");
    assert!(claims.exp > 86_400);
}

#[test]
fn token_with_expiry_zero_is_read_back() {
    let service = JwtService::new("top-secret");
    let token = service.generate_token_at(1, "bob".to_string(), -86_400).unwrap();
    assert_eq!(
        service.verify_token_at(&token, -1),
        Ok(Claims { user_id: 1, username: "bob".to_string(), exp: 0 })
    );
    assert_eq!(service.verify_token_at(&token, 0), Err(AppError::InvalidToken));
}

#[test]
fn token_with_negative_expiry_is_never_accepted() {
    let service = JwtService::new("top-secret");
    let token = service.generate_token_at(1, "bob".to_string(), -86_401).unwrap();
    assert_eq!(service.verify_token_at(&token, -100_000), Err(AppError::InvalidToken));
    assert_eq!(service.verify_token_at(&token, i64::MIN), Err(AppError::InvalidToken));
}

#[test]
fn any_identity_is_read_back() {
    let service = JwtService::new("");
    let name = "\"quoted\" \\ \u{00e9}\u{4e2d}\u{1f600}\n\t".to_string();
    for user_id in [i64::MIN, -1, 0, 1, i64::MAX] {
        let token = service.generate_token_at(user_id, name.clone(), i64::MAX - 86_400).unwrap();
        assert_eq!(
            service.verify_token_at(&token, i64::MAX - 1),
            Ok(Claims { user_id, username: name.clone(), exp: i64::MAX })
        );
    }
    let empty = service.generate_token_at(7, String::new(), 0).unwrap();
    assert_eq!(
        service.verify_token_at(&empty, 0),
        Ok(Claims { user_id: 7, username: String::new(), exp: 86_400 })
    );
}
