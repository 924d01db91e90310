//! Tokens: compact signed strings that carry [`Claims`], signed and verified
//! with HMAC-SHA256 under a shared secret.

use jsonwebtoken::{Algorithm, DecodingKey, EncodingKey, Header, Validation};
use serde_json::Value;
use vstd::prelude::*;

use crate::error::ErrorKind;
use crate::ident::{hyphenated, id_text, parse_id, parsed_uuid};
use crate::models::token::Claims;

verus! {

/// The error of `jsonwebtoken`, carried through and never looked into.
#[verifier::external_type_specification]
#[verifier::external_body]
pub struct ExTokenError(jsonwebtoken::errors::Error);

/// Why the verification of a token failed.
#[derive(Clone, Copy, Debug, PartialEq, Eq, Structural)]
pub enum TokenFault {
    /// The signature is not the one that the secret gives the token's text.
    BadSignature,
    /// The header names an algorithm other than HMAC-SHA256.
    WrongAlgorithm,
    /// Anything else: the token is not three segments of base64url, a segment
    /// is not the JSON expected, or a registered claim is refused.
    Unreadable,
}

/// The three fields of a verified payload, each as far as the payload has it
/// with the JSON type expected: `sub` a string, `exp` a non-negative integer
/// below 2^64, `is_superuser` a boolean.
#[derive(Clone, Debug)]
pub struct RawClaims {
    pub sub: Option<String>,
    pub exp: Option<u64>,
    pub is_superuser: Option<bool>,
}

/// [`RawClaims`] as a mathematical value.
pub struct Payload {
    pub sub: Option<Seq<char>>,
    pub exp: Option<u64>,
    pub is_superuser: Option<bool>,
}

impl View for RawClaims {
    type V = Payload;

    open spec fn view(&self) -> Payload {
        Payload {
            sub: match self.sub {
                Some(text) => Some(text@),
                None => None,
            },
            exp: self.exp,
            is_superuser: self.is_superuser,
        }
    }
}

/// The token that `jsonwebtoken::encode` writes for a payload of the three
/// fields under a secret, or `None` where it reports an error.
pub uninterp spec fn signed_token(
    sub: Seq<char>,
    exp: u64,
    is_superuser: bool,
    secret: Seq<u8>,
) -> Option<Seq<char>>;

/// What `jsonwebtoken::decode` makes of a token under a secret, when it
/// accepts HMAC-SHA256 alone and leaves the expiry to its caller.
pub uninterp spec fn verified_payload(token: Seq<char>, secret: Seq<u8>) -> Result<
    Payload,
    TokenFault,
>;

/// Whether the last segment of a token begins at `at`: just after a full
/// stop, with no full stop from there on.
pub open spec fn signature_starts(token: Seq<char>, at: int) -> bool {
    &&& 0 < at <= token.len()
    &&& token[at - 1] == '.'
    &&& forall|i: int| at <= i < token.len() ==> token[i] != '.'
}

/// Whether `other` is `token` under another signature: the same text up to
/// the last full stop, and after it a different last segment.
pub open spec fn resigned(token: Seq<char>, other: Seq<char>) -> bool {
    exists|at: int|
        #![trigger signature_starts(token, at)]
        signature_starts(token, at) && signature_starts(other, at) && other.take(at)
            == token.take(at) && other != token
}

/// The outcome of a verification that failed on the signature.
pub open spec fn bad_signature() -> Result<Payload, TokenFault> {
    Err(TokenFault::BadSignature)
}

/// `jsonwebtoken::encode`, with the default header (HMAC-SHA256) and the key
/// that `EncodingKey::from_secret` makes of the secret, on a JSON object with
/// the members `sub`, `exp` and `is_superuser`. The contract names the token.
/// It also claims that the token verifies under the same secret and yields
/// the three fields again: the signature is recomputed from the same text
/// and key, and the JSON is read back as it was written.
#[verifier::external_body]
fn jwt_encode(sub: &str, exp: u64, is_superuser: bool, secret: &[u8]) -> (outcome: Result<
    String,
    jsonwebtoken::errors::Error,
>)
    ensures
        match outcome {
            Ok(token) => signed_token(sub@, exp, is_superuser, secret@) == Some(token@)
                && verified_payload(token@, secret@) == Ok::<Payload, TokenFault>(
                (Payload { sub: Some(sub@), exp: Some(exp), is_superuser: Some(is_superuser) }),
            ),
            Err(_) => signed_token(sub@, exp, is_superuser, secret@) is None,
        },
{
    let mut claims = serde_json::Map::new();
    claims.insert("sub".to_string(), Value::from(sub));
    claims.insert("exp".to_string(), Value::from(exp));
    claims.insert("is_superuser".to_string(), Value::from(is_superuser));
    jsonwebtoken::encode(&Header::default(), &claims, &EncodingKey::from_secret(secret))
}

/// `jsonwebtoken::decode`, with the key that `DecodingKey::from_secret` makes
/// of the secret and the validation that `Validation::new` gives for
/// HMAC-SHA256, but for `validate_exp`, which is switched off: the call then
/// reads no clock. The payload is read as a JSON value and the three fields
/// are picked from it; of the errors, a failed signature and a refused
/// algorithm are told apart from the rest. The contract gives the outcome a
/// name. It also claims of a token that was accepted that the same text
/// under any other signature fails on the signature: the header and the
/// algorithm are read from the same text as before, and the signature is
/// then compared with the one that the secret gives that text, which is the
/// accepted one.
#[verifier::external_body]
fn jwt_decode(token: &str, secret: &[u8]) -> (outcome: Result<RawClaims, TokenFault>)
    ensures
        match outcome {
            Ok(raw) => verified_payload(token@, secret@) == Ok::<Payload, TokenFault>(raw@),
            Err(fault) => verified_payload(token@, secret@) == Err::<Payload, TokenFault>(fault),
        },
        outcome is Ok ==> forall|other: Seq<char>| #[trigger]
            resigned(token@, other) ==> verified_payload(other, secret@) == bad_signature(),
{
    let mut rules = Validation::new(Algorithm::HS256);
    rules.validate_exp = false;
    match jsonwebtoken::decode::<Value>(token, &DecodingKey::from_secret(secret), &rules) {
        Ok(data) => Ok(RawClaims {
            sub: data.claims.get("sub").and_then(Value::as_str).map(String::from),
            exp: data.claims.get("exp").and_then(Value::as_u64),
            is_superuser: data.claims.get("is_superuser").and_then(Value::as_bool),
        }),
        Err(fault) => Err(match fault.kind() {
            jsonwebtoken::errors::ErrorKind::InvalidSignature => TokenFault::BadSignature,
            jsonwebtoken::errors::ErrorKind::InvalidAlgorithm => TokenFault::WrongAlgorithm,
            _ => TokenFault::Unreadable,
        }),
    }
}

/// The outcome of a verification as a mathematical value.
pub open spec fn reading_of(reading: Result<RawClaims, TokenFault>) -> Result<Payload, TokenFault> {
    match reading {
        Ok(raw) => Ok(raw@),
        Err(fault) => Err(fault),
    }
}

impl TokenFault {
    /// The failure that a client is told of.
    pub open spec fn refusal(self) -> ErrorKind {
        match self {
            TokenFault::BadSignature => ErrorKind::InvalidSignature,
            TokenFault::WrongAlgorithm => ErrorKind::InvalidSignature,
            TokenFault::Unreadable => ErrorKind::Malformed,
        }
    }

    /// Maps a failed verification to the failure that a client is told of. A
    /// token under another algorithm counts as forged.
    pub fn to_error(&self) -> (kind: ErrorKind)
        ensures
            kind == self.refusal(),
    {
        match self {
            TokenFault::BadSignature => ErrorKind::InvalidSignature,
            TokenFault::WrongAlgorithm => ErrorKind::InvalidSignature,
            TokenFault::Unreadable => ErrorKind::Malformed,
        }
    }
}

impl Claims {
    /// The payload that stands for these claims in a token.
    pub open spec fn payload(self) -> Payload {
        Payload {
            sub: Some(hyphenated(self.sub)),
            exp: Some(self.exp),
            is_superuser: Some(self.is_superuser),
        }
    }

    /// What the fields of a verified payload amount to at `now`: the claims,
    /// if all three are there and the expiry is in the future.
    pub open spec fn checked(
        sub: Option<u128>,
        exp: Option<u64>,
        is_superuser: Option<bool>,
        now: u64,
    ) -> Result<Claims, ErrorKind> {
        if sub is Some && exp is Some && is_superuser is Some {
            let claims = Claims {
                sub: sub->0,
                exp: exp->0,
                is_superuser: is_superuser->0,
            };
            if claims.live_at(now) {
                Ok(claims)
            } else {
                Err(ErrorKind::Expired)
            }
        } else {
            Err(ErrorKind::Malformed)
        }
    }

    /// The subject of a payload as an identifier, if it is there and is a
    /// UUID.
    pub open spec fn subject(payload: Payload) -> Option<u128> {
        match payload.sub {
            Some(text) => parsed_uuid(text),
            None => None,
        }
    }

    /// What a verification outcome amounts to at `now`.
    pub open spec fn accepted(reading: Result<Payload, TokenFault>, now: u64) -> Result<
        Claims,
        ErrorKind,
    > {
        match reading {
            Ok(payload) => Claims::checked(
                Claims::subject(payload),
                payload.exp,
                payload.is_superuser,
                now,
            ),
            Err(fault) => Err(fault.refusal()),
        }
    }

    /// What `decode` returns for a token, a secret and an instant.
    pub open spec fn decoding(token: Seq<char>, secret: Seq<u8>, now: u64) -> Result<
        Claims,
        ErrorKind,
    > {
        Claims::accepted(verified_payload(token, secret), now)
    }

    /// Checks the fields of a verified payload: a field that is missing makes
    /// the token malformed, and only then is the expiry held against `now`.
    pub fn check(sub: Option<u128>, exp: Option<u64>, is_superuser: Option<bool>, now: u64) -> (outcome:
        Result<Claims, ErrorKind>)
        ensures
            outcome == Claims::checked(sub, exp, is_superuser, now),
    {
        match (sub, exp, is_superuser) {
            (Some(sub), Some(exp), Some(is_superuser)) => {
                if now < exp {
                    Ok(Claims { sub, exp, is_superuser })
                } else {
                    Err(ErrorKind::Expired)
                }
            },
            _ => Err(ErrorKind::Malformed),
        }
    }

    /// Whether `outcome` is what `encode` may return for these claims under a
    /// secret. A token is the one that the signing names; it verifies under
    /// the same secret as the payload of these claims, so it decodes to them
    /// at every instant before their expiry and is refused as expired from
    /// then on. A failure is `EncodingFailed`, and comes only where the
    /// signing fails.
    pub open spec fn encoded_as(self, secret: Seq<u8>, outcome: Result<String, ErrorKind>) -> bool {
        match outcome {
            Ok(token) => {
                &&& signed_token(hyphenated(self.sub), self.exp, self.is_superuser, secret)
                    == Some(token@)
                &&& verified_payload(token@, secret) == Ok::<Payload, TokenFault>(self.payload())
                &&& forall|now: u64|
                    self.live_at(now) ==> #[trigger] Claims::decoding(token@, secret, now) == Ok::<
                        Claims,
                        ErrorKind,
                    >(self)
                &&& forall|now: u64|
                    !self.live_at(now) ==> #[trigger] Claims::decoding(token@, secret, now)
                        == Err::<Claims, ErrorKind>(ErrorKind::Expired)
            },
            Err(kind) => {
                &&& kind == ErrorKind::EncodingFailed
                &&& signed_token(hyphenated(self.sub), self.exp, self.is_superuser, secret)
                    is None
            },
        }
    }

    /// Writes the claims into a token signed under `secret`.
    ///
    /// The token that comes out decodes under the same secret to these claims
    /// at every instant before their expiry, and is refused as expired from
    /// then on.
    pub fn encode(&self, secret: &[u8]) -> (outcome: Result<String, ErrorKind>)
        ensures
            self.encoded_as(secret@, outcome),
    {
        let subject = id_text(self.sub);
        match jwt_encode(subject.as_str(), self.exp, self.is_superuser, secret) {
            Ok(token) => Ok(token),
            Err(_) => Err(ErrorKind::EncodingFailed),
        }
    }

    /// Turns the outcome of a verification into claims or the failure to
    /// report: a failed verification maps to its refusal, and a verified
    /// payload must hold a UUID as subject, an expiry after `now` and the
    /// privilege flag.
    pub fn accept(reading: Result<RawClaims, TokenFault>, now: u64) -> (outcome: Result<
        Claims,
        ErrorKind,
    >)
        ensures
            outcome == Claims::accepted(reading_of(reading), now),
    {
        match reading {
            Ok(raw) => {
                let subject = match &raw.sub {
                    Some(text) => parse_id(text.as_str()).ok(),
                    None => None,
                };
                Claims::check(subject, raw.exp, raw.is_superuser, now)
            },
            Err(fault) => Err(fault.to_error()),
        }
    }

    /// Verifies a token under `secret` and reads its claims as of `now`.
    ///
    /// The token is refused with `InvalidSignature` where the signature does
    /// not match or the header names another algorithm, with `Malformed`
    /// where it cannot be read as the three claims, and with `Expired` where
    /// it reads well and its expiry is not after `now`. Where a token is
    /// accepted, the same text under any other signature is refused with
    /// `InvalidSignature`, at every instant.
    pub fn decode(token: &str, secret: &[u8], now: u64) -> (outcome: Result<Claims, ErrorKind>)
        ensures
            outcome == Claims::decoding(token@, secret@, now),
            outcome is Ok ==> forall|other: Seq<char>, later: u64|
                resigned(token@, other) ==> #[trigger] Claims::decoding(other, secret@, later)
                    == Err::<Claims, ErrorKind>(ErrorKind::InvalidSignature),
    {
        let reading = jwt_decode(token, secret);
        proof {
            if reading is Ok {
                assert forall|other: Seq<char>, later: u64| resigned(token@, other) implies
                    #[trigger] Claims::decoding(other, secret@, later) == Err::<Claims, ErrorKind>(
                    ErrorKind::InvalidSignature,
                ) by {
                    assert(verified_payload(other, secret@) == bad_signature());
                }
            }
        }
        Claims::accept(reading, now)
    }
}

/// A token whose last segment is replaced by another text is the same token
/// under another signature.
pub proof fn lemma_other_signature(message: Seq<char>, signature: Seq<char>, forged: Seq<char>)
    requires
        forall|i: int| 0 <= i < signature.len() ==> signature[i] != '.',
        forall|i: int| 0 <= i < forged.len() ==> forged[i] != '.',
        forged != signature,
    ensures
        resigned(message + seq!['.'] + signature, message + seq!['.'] + forged),
{
    let token = message + seq!['.'] + signature;
    let other = message + seq!['.'] + forged;
    let at: int = message.len() as int + 1;
    assert(token.take(at) =~= message + seq!['.']);
    assert(other.take(at) =~= message + seq!['.']);
    assert(token.skip(at) =~= signature);
    assert(other.skip(at) =~= forged);
    assert(signature_starts(token, at)) by {
        assert forall|i: int| at <= i < token.len() implies token[i] != '.' by {
            assert(token[i] == signature[i - at]);
        }
    }
    assert(signature_starts(other, at)) by {
        assert forall|i: int| at <= i < other.len() implies other[i] != '.' by {
            assert(other[i] == forged[i - at]);
        }
    }
    if other == token {
        assert(other.skip(at) == token.skip(at));
    }
}

/// A token that fails verification is never accepted, whatever the
/// instant; one that names another algorithm is refused as forged.
pub proof fn lemma_unverified_is_refused(fault: TokenFault, now: u64)
    ensures
        Claims::accepted(Err(fault), now) is Err,
        Claims::accepted(Err(TokenFault::BadSignature), now) == Err::<Claims, ErrorKind>(
            ErrorKind::InvalidSignature,
        ),
        Claims::accepted(Err(TokenFault::WrongAlgorithm), now) == Err::<Claims, ErrorKind>(
            ErrorKind::InvalidSignature,
        ),
{
}

/// A verified payload that holds all three claims is accepted exactly
/// before its expiry, and refused as expired from then on, however good its
/// signature.
pub proof fn lemma_expiry_decides(payload: Payload, now: u64)
    requires
        Claims::subject(payload) is Some,
        payload.exp is Some,
        payload.is_superuser is Some,
    ensures
        now < payload.exp->0 ==> Claims::accepted(Ok(payload), now) is Ok,
        now >= payload.exp->0 ==> Claims::accepted(Ok(payload), now) == Err::<Claims, ErrorKind>(
            ErrorKind::Expired,
        ),
{
}

/// Claims that are accepted are the ones that the verified payload holds:
/// nothing is accepted from a failed verification, and nothing is made up.
pub proof fn lemma_accepted_claims_are_verified(
    reading: Result<Payload, TokenFault>,
    now: u64,
    claims: Claims,
)
    requires
        Claims::accepted(reading, now) == Ok::<Claims, ErrorKind>(claims),
    ensures
        reading is Ok,
        Claims::subject(reading->Ok_0) == Some(claims.sub),
        reading->Ok_0.exp == Some(claims.exp),
        reading->Ok_0.is_superuser == Some(claims.is_superuser),
        claims.live_at(now),
{
}

} // verus!
