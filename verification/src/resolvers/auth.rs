//! Opening an account and logging in.

use vstd::prelude::*;

use crate::error::ErrorKind;
use crate::ident::fresh_id;
use crate::models::token::Claims;
use crate::models::user::{LoginInput, RegisterInput, UserRow};
use crate::password::{
    hash_password, judge_password, password_outcome, password_verdict, verify_password,
};

verus! {

/// How long a token is valid from its issue: one day, in seconds.
pub const TOKEN_LIFETIME: u64 = 86_400;

/// The operations on accounts.
#[derive(Clone, Copy, Debug, Default)]
pub struct AuthMutation;

impl AuthMutation {
    /// The claims that a login of an account gets at `now`: the account's
    /// identifier and privilege, valid for a day.
    pub open spec fn claims_at(user: &UserRow, now: u64) -> Claims {
        Claims {
            sub: user.id,
            exp: (now + TOKEN_LIFETIME) as u64,
            is_superuser: user.is_superuser,
        }
    }

    /// What a login is granted, given the account found for the email and
    /// what became of the password check.
    pub open spec fn granted(user: Option<&UserRow>, verdict: Option<bool>, now: u64) -> Result<
        Claims,
        ErrorKind,
    > {
        match user {
            None => Err(ErrorKind::ValidationFailed),
            Some(row) => match password_outcome(verdict) {
                Ok(_) => Ok(AuthMutation::claims_at(row, now)),
                Err(kind) => Err(kind),
            },
        }
    }

    /// The verdict on the password of a login, if an account was found.
    pub open spec fn verdict_for(user: Option<&UserRow>, input: &LoginInput) -> Option<bool> {
        match user {
            Some(row) => password_verdict(input.password@, row.password@),
            None => None,
        }
    }

    /// Whether a row is the one stored for a new account: the email as
    /// entered, a hash that matches the password, and no privilege.
    pub open spec fn registers(row: &UserRow, input: &RegisterInput, now: i64) -> bool {
        &&& row.email@ == input.email@
        &&& password_verdict(input.password@, row.password@) == Some(true)
        &&& !row.is_superuser
        &&& row.created_at == now
    }

    /// Whether `outcome` is what `login` may return: the refusal where the
    /// login is not granted, and otherwise what encoding the granted claims
    /// under the secret gives.
    pub open spec fn logged_in(
        user: Option<&UserRow>,
        input: &LoginInput,
        secret: Seq<u8>,
        now: u64,
        outcome: Result<String, ErrorKind>,
    ) -> bool {
        match AuthMutation::granted(user, AuthMutation::verdict_for(user, input), now) {
            Ok(claims) => claims.encoded_as(secret, outcome),
            Err(kind) => outcome matches Err(refusal) && refusal == kind,
        }
    }

    /// Whether `outcome` is what `register_user` may return: a row for the
    /// email with a hash that matches the password and no privilege, or
    /// `HashingFailed`.
    pub open spec fn registration(
        input: &RegisterInput,
        now: i64,
        outcome: Result<UserRow, ErrorKind>,
    ) -> bool {
        match outcome {
            Ok(row) => AuthMutation::registers(&row, input, now),
            Err(kind) => kind == ErrorKind::HashingFailed,
        }
    }

    /// Decides a login from the verdict on the password: the claims for the
    /// account where the password matched, valid for a day from `now`.
    pub fn grant(user: &UserRow, verdict: Option<bool>, now: u64) -> (outcome: Result<
        Claims,
        ErrorKind,
    >)
        requires
            now + TOKEN_LIFETIME <= u64::MAX,
        ensures
            outcome == AuthMutation::granted(Some(user), verdict, now),
    {
        match judge_password(verdict) {
            Ok(_) => Ok(
                Claims { sub: user.id, exp: now + TOKEN_LIFETIME, is_superuser: user.is_superuser },
            ),
            Err(kind) => Err(kind),
        }
    }

    /// Opens an account: the row to store for it, with the password hashed,
    /// a new identifier and no privilege.
    pub fn register_user(&self, input: RegisterInput, now: i64) -> (outcome: Result<
        UserRow,
        ErrorKind,
    >)
        ensures
            AuthMutation::registration(&input, now, outcome),
    {
        let hash = hash_password(input.password.as_str()).ok();
        UserRow::register(input.email, hash, fresh_id(), now)
    }

    /// Logs a user in: given the account that the store holds for the email,
    /// if any, holds the password against its hash and issues a token valid
    /// for a day.
    ///
    /// An email without an account and a stored hash that cannot be read
    /// fail validation alike. The token that comes out decodes under the
    /// same secret to the account's claims until it expires.
    pub fn login(
        &self,
        user: Option<&UserRow>,
        input: &LoginInput,
        secret: &[u8],
        now: u64,
    ) -> (outcome: Result<String, ErrorKind>)
        requires
            now + TOKEN_LIFETIME <= u64::MAX,
        ensures
            AuthMutation::logged_in(user, input, secret@, now, outcome),
    {
        let row = match user {
            Some(row) => row,
            None => {
                return Err(ErrorKind::ValidationFailed);
            },
        };
        let verdict = verify_password(input.password.as_str(), row.password.as_str());
        match AuthMutation::grant(row, verdict, now) {
            Ok(claims) => claims.encode(secret),
            Err(kind) => Err(kind),
        }
    }
}

/// A password that was registered is accepted at login: the row that a
/// registration stores grants the account's claims to the same password.
pub proof fn lemma_registered_password_logs_in(
    row: UserRow,
    registration: RegisterInput,
    attempt: LoginInput,
    created: i64,
    now: u64,
)
    requires
        AuthMutation::registers(&row, &registration, created),
        attempt.password@ == registration.password@,
    ensures
        AuthMutation::granted(Some(&row), AuthMutation::verdict_for(Some(&row), &attempt), now)
            == Ok::<Claims, ErrorKind>(AuthMutation::claims_at(&row, now)),
        !AuthMutation::claims_at(&row, now).is_superuser,
{
}

} // verus!
