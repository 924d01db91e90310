//! The checks that every operation makes before it touches a record.

use vstd::prelude::*;

use crate::error::ErrorKind;
use crate::models::token::AuthUser;

verus! {

/// What an operation knows of its caller: the identity that was established
/// for the request, or that there is none. It is made once for a request and
/// never changes.
#[derive(Clone, Copy, Debug)]
pub struct RequestContext {
    identity: Option<AuthUser>,
}

impl View for RequestContext {
    type V = Option<AuthUser>;

    closed spec fn view(&self) -> Option<AuthUser> {
        self.identity
    }
}

impl RequestContext {
    /// The context of a request for which an identity may have been
    /// established.
    pub fn new(identity: Option<AuthUser>) -> (context: RequestContext)
        ensures
            context@ == identity,
    {
        RequestContext { identity }
    }

    /// The context of a request without a credential.
    pub fn anonymous() -> (context: RequestContext)
        ensures
            context@ is None,
    {
        RequestContext { identity: None }
    }

    /// The caller's identity, or `None` where the request has none.
    pub fn identity(&self) -> (identity: Option<AuthUser>)
        ensures
            identity == self@,
    {
        self.identity
    }
}

/// What `require_authenticated` returns for a context.
pub open spec fn authenticated(context: Option<AuthUser>) -> Result<AuthUser, ErrorKind> {
    match context {
        Some(identity) => Ok(identity),
        None => Err(ErrorKind::Unauthenticated),
    }
}

/// Whether an identity may read or change a record of the given owner: it is
/// the owner, or a superuser.
pub open spec fn may_access(identity: AuthUser, owner: u128) -> bool {
    identity.id == owner || identity.is_superuser
}

/// What `require_owner_or_superuser` returns.
pub open spec fn access(identity: AuthUser, owner: u128) -> Result<(), ErrorKind> {
    if may_access(identity, owner) {
        Ok(())
    } else {
        Err(ErrorKind::Forbidden)
    }
}

/// What `require_superuser` returns.
pub open spec fn superuser_access(identity: AuthUser) -> Result<(), ErrorKind> {
    if identity.is_superuser {
        Ok(())
    } else {
        Err(ErrorKind::Forbidden)
    }
}

/// The caller's identity, for an operation that needs one.
pub fn require_authenticated(context: &RequestContext) -> (outcome: Result<AuthUser, ErrorKind>)
    ensures
        outcome == authenticated(context@),
{
    match context.identity() {
        Some(identity) => Ok(identity),
        None => Err(ErrorKind::Unauthenticated),
    }
}

/// Grants access to a record to its owner and to a superuser, and to nobody
/// else.
pub fn require_owner_or_superuser(identity: &AuthUser, owner: u128) -> (outcome: Result<
    (),
    ErrorKind,
>)
    ensures
        outcome == access(*identity, owner),
{
    if identity.id == owner || identity.is_superuser {
        Ok(())
    } else {
        Err(ErrorKind::Forbidden)
    }
}

/// Grants access to a superuser, and to nobody else.
pub fn require_superuser(identity: &AuthUser) -> (outcome: Result<(), ErrorKind>)
    ensures
        outcome == superuser_access(*identity),
{
    if identity.is_superuser {
        Ok(())
    } else {
        Err(ErrorKind::Forbidden)
    }
}

/// An identity that is no superuser is refused every record that another
/// user owns and granted every record of its own; a superuser is granted
/// every record.
pub proof fn lemma_ownership(identity: AuthUser, owner: u128)
    ensures
        !identity.is_superuser && identity.id != owner ==> access(identity, owner) == Err::<
            (),
            ErrorKind,
        >(ErrorKind::Forbidden),
        identity.id == owner ==> access(identity, owner) == Ok::<(), ErrorKind>(()),
        identity.is_superuser ==> access(identity, owner) == Ok::<(), ErrorKind>(()),
{
}

} // verus!
