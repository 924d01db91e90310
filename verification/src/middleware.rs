//! From a request's authorization header to the caller's identity.

use vstd::prelude::*;
use vstd::string::*;

use crate::codec::{verified_payload, Payload, TokenFault};
use crate::error::ErrorKind;
use crate::guard::RequestContext;
use crate::models::token::{AuthUser, Claims};
use crate::text::opt_str;

verus! {

/// The prefix that an authorization header must have: `Bearer` and one
/// space.
pub open spec fn bearer_prefix() -> Seq<char> {
    seq!['B', 'e', 'a', 'r', 'e', 'r', ' ']
}

/// The token in an authorization header: what follows the prefix, where the
/// header has it, letter for letter.
pub open spec fn bearer_token_of(header: Seq<char>) -> Option<Seq<char>> {
    if header.len() >= 7 && header.take(7) == bearer_prefix() {
        Some(header.skip(7))
    } else {
        None
    }
}

/// What a verification outcome means for a request: its identity, or the
/// failure to report.
pub open spec fn identified(reading: Result<Payload, TokenFault>, now: u64) -> Result<
    Option<AuthUser>,
    ErrorKind,
> {
    match Claims::accepted(reading, now) {
        Ok(claims) => Ok(Some(claims.identity())),
        Err(kind) => Err(kind),
    }
}

/// What `from_request_parts` returns for a header, a secret and an instant.
pub open spec fn extraction(header: Option<Seq<char>>, secret: Seq<u8>, now: u64) -> Result<
    Option<AuthUser>,
    ErrorKind,
> {
    match header {
        None => Ok(None),
        Some(value) => match bearer_token_of(value) {
            None => Err(ErrorKind::MalformedHeader),
            Some(token) => identified(verified_payload(token, secret), now),
        },
    }
}

/// Takes the token out of an authorization header.
pub fn bearer_token(header: &str) -> (token: Option<&str>)
    ensures
        opt_str(token) == bearer_token_of(header@),
{
    let len = header.unicode_len();
    if len < 7 {
        return None;
    }
    let matches = header.get_char(0) == 'B' && header.get_char(1) == 'e' && header.get_char(2)
        == 'a' && header.get_char(3) == 'r' && header.get_char(4) == 'e' && header.get_char(5)
        == 'r' && header.get_char(6) == ' ';
    if matches {
        assert(header@.take(7) =~= bearer_prefix());
        assert(header@.subrange(7, len as int) =~= header@.skip(7));
        Some(header.substring_char(7, len))
    } else {
        assert(header@.take(7) != bearer_prefix()) by {
            if header@.take(7) == bearer_prefix() {
                assert(forall|i: int| 0 <= i < 7 ==> header@[i] == header@.take(7)[i]);
            }
        }
        None
    }
}

/// A header made of the prefix and a token yields that token, letter for
/// letter.
pub proof fn lemma_bearer_header(token: Seq<char>)
    ensures
        bearer_token_of(bearer_prefix() + token) == Some(token),
{
    let header = bearer_prefix() + token;
    assert(header.take(7) =~= bearer_prefix());
    assert(header.skip(7) =~= token);
}

/// A header that does not begin with the prefix is refused as malformed,
/// whatever the secret and the instant, and no token is looked at.
pub proof fn lemma_malformed_header(header: Seq<char>, secret: Seq<u8>, now: u64)
    requires
        header.len() < 7 || header.take(7) != bearer_prefix(),
    ensures
        extraction(Some(header), secret, now) == Err::<Option<AuthUser>, ErrorKind>(
            ErrorKind::MalformedHeader,
        ),
{
}

/// A request gets an identity only from a token that verifies and has not
/// expired, and the identity is what that token's claims say: no request is
/// given an identity by default.
pub proof fn lemma_identity_comes_from_claims(
    header: Option<Seq<char>>,
    secret: Seq<u8>,
    now: u64,
    identity: AuthUser,
)
    requires
        extraction(header, secret, now) == Ok::<Option<AuthUser>, ErrorKind>(Some(identity)),
    ensures
        header is Some,
        bearer_token_of(header->0) is Some,
        Claims::decoding(bearer_token_of(header->0)->0, secret, now) is Ok,
        identity == Claims::decoding(bearer_token_of(header->0)->0, secret, now)->Ok_0.identity(),
{
}

/// A token that was issued authenticates its bearer as the user it was
/// issued to at every instant before its expiry, and is refused as expired
/// from then on.
pub proof fn lemma_issued_token_authenticates(
    claims: Claims,
    secret: Seq<u8>,
    token: String,
    now: u64,
)
    requires
        claims.encoded_as(secret, Ok(token)),
    ensures
        claims.live_at(now) ==> extraction(Some(bearer_prefix() + token@), secret, now) == Ok::<
            Option<AuthUser>,
            ErrorKind,
        >(Some(claims.identity())),
        !claims.live_at(now) ==> extraction(Some(bearer_prefix() + token@), secret, now) == Err::<
            Option<AuthUser>,
            ErrorKind,
        >(ErrorKind::Expired),
{
    lemma_bearer_header(token@);
    if claims.live_at(now) {
        assert(Claims::decoding(token@, secret, now) == Ok::<Claims, ErrorKind>(claims));
    } else {
        assert(Claims::decoding(token@, secret, now) == Err::<Claims, ErrorKind>(
            ErrorKind::Expired,
        ));
    }
}

/// Two requests under way at once each get the identity that their own
/// token states: what one request carries has no part in what the other is
/// given.
pub proof fn lemma_identities_stay_apart(
    first: Seq<char>,
    second: Seq<char>,
    secret: Seq<u8>,
    now: u64,
    one: Claims,
    other: Claims,
)
    requires
        Claims::decoding(first, secret, now) == Ok::<Claims, ErrorKind>(one),
        Claims::decoding(second, secret, now) == Ok::<Claims, ErrorKind>(other),
    ensures
        extraction(Some(bearer_prefix() + first), secret, now) == Ok::<
            Option<AuthUser>,
            ErrorKind,
        >(Some(one.identity())),
        extraction(Some(bearer_prefix() + second), secret, now) == Ok::<
            Option<AuthUser>,
            ErrorKind,
        >(Some(other.identity())),
        one.sub != other.sub ==> one.identity() != other.identity(),
{
    lemma_bearer_header(first);
    lemma_bearer_header(second);
}

impl AuthUser {
    /// Establishes the caller's identity from the authorization header of a
    /// request, if it has one.
    ///
    /// A request without the header has no identity, which is no failure. A
    /// header that lacks the prefix `Bearer ` is refused as malformed. What
    /// follows the prefix is decoded under `secret` as of `now`; the identity
    /// is taken from the claims, and a token that does not decode is
    /// refused with the failure that decoding gave.
    pub fn from_request_parts(authorization: Option<&str>, secret: &[u8], now: u64) -> (outcome:
        Result<Option<AuthUser>, ErrorKind>)
        ensures
            outcome == extraction(opt_str(authorization), secret@, now),
    {
        match authorization {
            None => Ok(None),
            Some(header) => match bearer_token(header) {
                None => Err(ErrorKind::MalformedHeader),
                Some(token) => match Claims::decode(token, secret, now) {
                    Ok(claims) => Ok(Some(AuthUser::from_claims(&claims))),
                    Err(kind) => Err(kind),
                },
            },
        }
    }
}

impl RequestContext {
    /// The context of a request whose authorization header is given: its
    /// identity where the header yields one, none where there is no header,
    /// and the failure otherwise, in which case the request goes no further.
    pub fn for_request(authorization: Option<&str>, secret: &[u8], now: u64) -> (outcome: Result<
        RequestContext,
        ErrorKind,
    >)
        ensures
            match extraction(opt_str(authorization), secret@, now) {
                Ok(identity) => outcome is Ok && outcome->Ok_0@ == identity,
                Err(kind) => outcome == Err::<RequestContext, ErrorKind>(kind),
            },
    {
        match AuthUser::from_request_parts(authorization, secret, now) {
            Ok(identity) => Ok(RequestContext::new(identity)),
            Err(kind) => Err(kind),
        }
    }
}

} // verus!
