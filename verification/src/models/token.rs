//! What a token says, and the identity that a request gets from it.

use vstd::prelude::*;

verus! {

/// The signed payload of a token.
#[derive(Clone, Copy, Debug, PartialEq, Eq, Structural)]
pub struct Claims {
    /// The user's identifier.
    pub sub: u128,
    /// The instant after which the token is invalid, in seconds since the
    /// Unix epoch.
    pub exp: u64,
    /// Whether the user was a superuser when the token was issued.
    pub is_superuser: bool,
}

/// The caller of the current operation, as established from a verified token.
#[derive(Clone, Copy, Debug, PartialEq, Eq, Structural)]
pub struct AuthUser {
    /// The user's identifier.
    pub id: u128,
    /// Whether the user may bypass per-resource ownership checks.
    pub is_superuser: bool,
}

impl Claims {
    /// Whether the token is still valid at `now`: its expiry is strictly in
    /// the future.
    pub open spec fn live_at(self, now: u64) -> bool {
        now < self.exp
    }

    /// The identity that these claims establish.
    pub open spec fn identity(self) -> AuthUser {
        AuthUser { id: self.sub, is_superuser: self.is_superuser }
    }
}

impl AuthUser {
    /// Takes the identity from verified claims: the subject and the privilege
    /// flag, unchanged.
    pub fn from_claims(claims: &Claims) -> (user: AuthUser)
        ensures
            user == claims.identity(),
    {
        AuthUser { id: claims.sub, is_superuser: claims.is_superuser }
    }
}

} // verus!
