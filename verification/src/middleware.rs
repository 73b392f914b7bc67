//! The token check that guards the protected routes of the text protocol.

use vstd::prelude::*;
use vstd::string::*;
use crate::clock::Instant;
use crate::jwt::{verify_outcome, JwtService};
use crate::user::AuthenticatedUser;

verus! {

/// Why a request was turned away before it reached its handler.
#[derive(Debug, PartialEq, Eq)]
pub struct Rejection {
    pub status: u16,
    pub message: String,
}

/// Mathematical value of a [`Rejection`].
pub struct RejectionView {
    pub status: u16,
    pub message: Seq<char>,
}

impl View for Rejection {
    type V = RejectionView;

    open spec fn view(&self) -> RejectionView {
        RejectionView { status: self.status, message: self.message@ }
    }
}

/// What the token check yields at instant `now`: the identity bound in the
/// token when it is valid, a 401 when it is not, and a 500 when no token
/// service was configured (`secret` is `None`).
pub open spec fn validation_outcome(secret: Option<Seq<u8>>, token: Seq<char>, now: Instant) -> Result<
    (i64, Seq<char>),
    RejectionView,
> {
    match secret {
        None => Err(RejectionView { status: 500, message: "JwtService is not configured"@ }),
        Some(secret) => match verify_outcome(secret, token, now.seconds) {
            Ok(claims) => Ok((claims.user_id, claims.username)),
            Err(_) => Err(RejectionView { status: 401, message: "Invalid or expired token"@ }),
        },
    }
}

/// Checks the bearer token of a request at instant `now` and returns the
/// identity to attach to the request.
pub fn jwt_validator(jwt_service: Option<&JwtService>, token: &str, now: Instant) -> (result: Result<
    AuthenticatedUser,
    Rejection,
>)
    ensures
        match result {
            Ok(user) => validation_outcome(
                match jwt_service {
                    Some(service) => Some(service.secret()),
                    None => None,
                },
                token@,
                now,
            ) == Ok::<(i64, Seq<char>), RejectionView>((user.user_id, user.username@)),
            Err(rejection) => validation_outcome(
                match jwt_service {
                    Some(service) => Some(service.secret()),
                    None => None,
                },
                token@,
                now,
            ) == Err::<(i64, Seq<char>), RejectionView>(rejection@),
        },
{
    match jwt_service {
        None => Err(
            Rejection { status: 500, message: String::from_str("JwtService is not configured") },
        ),
        Some(service) => match service.verify_token_at(token, now.seconds) {
            Ok(claims) => Ok(AuthenticatedUser::from(claims)),
            Err(_) => Err(
                Rejection { status: 401, message: String::from_str("Invalid or expired token") },
            ),
        },
    }
}

} // verus!
