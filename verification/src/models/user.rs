//! Accounts: what a client sends to open one or to log in, and what the
//! store and the API hold of one.

use vstd::prelude::*;

use crate::error::ErrorKind;
use crate::ident::{hyphenated, id_text};
use crate::text::opt_text;

verus! {

/// What a client sends to open an account.
#[derive(Clone)]
pub struct RegisterInput {
    pub email: String,
    pub password: String,
}

/// What a client sends to log in.
#[derive(Clone)]
pub struct LoginInput {
    pub email: String,
    pub password: String,
}

/// An account as the API shows it.
#[derive(Clone)]
pub struct User {
    pub id: String,
    pub email: String,
    pub password: String,
    pub is_superuser: bool,
    /// Microseconds since the Unix epoch.
    pub created_at: i64,
}

/// An account as the store holds it.
#[derive(Clone)]
pub struct UserRow {
    pub id: u128,
    pub email: String,
    /// The bcrypt hash of the password.
    pub password: String,
    pub is_superuser: bool,
    /// Microseconds since the Unix epoch.
    pub created_at: i64,
}

impl UserRow {
    /// The fields of a row as a mathematical value.
    pub open spec fn fields(&self) -> (u128, Seq<char>, Seq<char>, bool, i64) {
        (self.id, self.email@, self.password@, self.is_superuser, self.created_at)
    }

    /// What becomes of a registration, given what became of hashing the
    /// password: the fields of the row to store, or the failure.
    pub open spec fn registered(
        email: Seq<char>,
        hash: Option<Seq<char>>,
        id: u128,
        now: i64,
    ) -> Result<(u128, Seq<char>, Seq<char>, bool, i64), ErrorKind> {
        match hash {
            Some(text) => Ok((id, email, text, false, now)),
            None => Err(ErrorKind::HashingFailed),
        }
    }

    /// The row to store for a new account, given what became of hashing the
    /// password: no row without a hash, and never a privilege.
    pub fn register(email: String, hash: Option<String>, id: u128, now: i64) -> (outcome: Result<
        UserRow,
        ErrorKind,
    >)
        ensures
            match UserRow::registered(email@, opt_text(hash), id, now) {
                Ok(fields) => outcome matches Ok(row) && row.fields() == fields,
                Err(kind) => outcome matches Err(refusal) && refusal == kind,
            },
    {
        match hash {
            Some(text) => Ok(
                UserRow { id, email, password: text, is_superuser: false, created_at: now },
            ),
            None => Err(ErrorKind::HashingFailed),
        }
    }
}

impl User {
    /// Whether this is how the API shows `row`: the identifier hyphenated,
    /// the rest unchanged.
    pub open spec fn shows(&self, row: &UserRow) -> bool {
        &&& self.id@ == hyphenated(row.id)
        &&& self.email@ == row.email@
        &&& self.password@ == row.password@
        &&& self.is_superuser == row.is_superuser
        &&& self.created_at == row.created_at
    }

    /// The account as the API shows it.
    pub fn from_row(row: &UserRow) -> (user: User)
        ensures
            user.shows(row),
    {
        User {
            id: id_text(row.id),
            email: row.email.clone(),
            password: row.password.clone(),
            is_superuser: row.is_superuser,
            created_at: row.created_at,
        }
    }
}

} // verus!
