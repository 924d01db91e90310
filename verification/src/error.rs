//! The closed set of failures that the API reports, and the envelope in
//! which they reach a client.

use vstd::prelude::*;
use vstd::string::*;

verus! {

/// Why an operation was refused. Every failure that can reach a client is one
/// of these; none carries data taken from the request.
#[derive(Clone, Copy, Debug, PartialEq, Eq, Structural)]
pub enum ErrorKind {
    /// The signing secret is not configured. Fatal at startup.
    ConfigMissing,
    /// The authorization header does not start with `Bearer `.
    MalformedHeader,
    /// The token cannot be read as a signed set of the expected claims.
    Malformed,
    /// The token's signature does not match, or it names another algorithm.
    InvalidSignature,
    /// The token's expiry is not in the future.
    Expired,
    /// The operation needs an identity and the request has none.
    Unauthenticated,
    /// The identity has no right over the resource.
    Forbidden,
    /// No account has the given email, or the stored hash cannot be read.
    ValidationFailed,
    /// The password does not match the stored hash.
    InvalidPassword,
    /// The password could not be hashed.
    HashingFailed,
    /// The token could not be produced.
    EncodingFailed,
    /// A record identifier is not a UUID.
    InvalidId,
    /// The question is empty once surrounding whitespace is removed.
    EmptyQuestion,
    /// The key of the completion service is not configured.
    MissingApiKey,
    /// The completion service could not be reached.
    CompletionUnreachable,
    /// The completion service answered with something that is no JSON.
    InvalidCompletion,
    /// The store failed to run a query.
    QueryFailed,
    /// The store failed to run a change.
    MutationFailed,
}

/// A failure as a client sees it: a stable kind and a fixed message.
#[derive(Clone, Debug)]
pub struct Rejection {
    pub status: ErrorKind,
    pub message: String,
}

impl ErrorKind {
    /// The text shown to a client for this kind. It depends on the kind alone.
    pub open spec fn message_text(self) -> Seq<char> {
        match self {
            ErrorKind::ConfigMissing => "JWT_SECRET must be set"@,
            ErrorKind::MalformedHeader => "Invalid auth header format"@,
            ErrorKind::Malformed => "Invalid token"@,
            ErrorKind::InvalidSignature => "Invalid token"@,
            ErrorKind::Expired => "Invalid token"@,
            ErrorKind::Unauthenticated => "You must be logged in to perform this action"@,
            ErrorKind::Forbidden => "You are not allowed to perform this action"@,
            ErrorKind::ValidationFailed => "Validation failed"@,
            ErrorKind::InvalidPassword => "Invalid password"@,
            ErrorKind::HashingFailed => "Hashing failed"@,
            ErrorKind::EncodingFailed => "Failed to encode token"@,
            ErrorKind::InvalidId => "Invalid UUID format"@,
            ErrorKind::EmptyQuestion => "Question cannot be empty"@,
            ErrorKind::MissingApiKey => "Missing OpenAI API Key"@,
            ErrorKind::CompletionUnreachable => "Failed to contact OpenAI"@,
            ErrorKind::InvalidCompletion => "Invalid OpenAI response"@,
            ErrorKind::QueryFailed => "Failed to execute query"@,
            ErrorKind::MutationFailed => "Failed to execute mutation"@,
        }
    }

    /// Whether the failure concerns who the caller is, as opposed to what
    /// was asked.
    pub open spec fn concerns_credentials(self) -> bool {
        self == ErrorKind::MalformedHeader || self == ErrorKind::Malformed
            || self == ErrorKind::InvalidSignature || self == ErrorKind::Expired
            || self == ErrorKind::Unauthenticated
    }

    /// Whether the failure lies with the service and not with the request.
    pub open spec fn is_internal(self) -> bool {
        self == ErrorKind::ConfigMissing || self == ErrorKind::HashingFailed
            || self == ErrorKind::EncodingFailed || self == ErrorKind::MissingApiKey
            || self == ErrorKind::CompletionUnreachable || self == ErrorKind::InvalidCompletion
            || self == ErrorKind::QueryFailed || self == ErrorKind::MutationFailed
    }

    /// The text shown to a client for this kind.
    pub fn message(&self) -> (text: String)
        ensures
            text@ == self.message_text(),
    {
        let text: &str = match self {
            ErrorKind::ConfigMissing => "JWT_SECRET must be set",
            ErrorKind::MalformedHeader => "Invalid auth header format",
            ErrorKind::Malformed => "Invalid token",
            ErrorKind::InvalidSignature => "Invalid token",
            ErrorKind::Expired => "Invalid token",
            ErrorKind::Unauthenticated => "You must be logged in to perform this action",
            ErrorKind::Forbidden => "You are not allowed to perform this action",
            ErrorKind::ValidationFailed => "Validation failed",
            ErrorKind::InvalidPassword => "Invalid password",
            ErrorKind::HashingFailed => "Hashing failed",
            ErrorKind::EncodingFailed => "Failed to encode token",
            ErrorKind::InvalidId => "Invalid UUID format",
            ErrorKind::EmptyQuestion => "Question cannot be empty",
            ErrorKind::MissingApiKey => "Missing OpenAI API Key",
            ErrorKind::CompletionUnreachable => "Failed to contact OpenAI",
            ErrorKind::InvalidCompletion => "Invalid OpenAI response",
            ErrorKind::QueryFailed => "Failed to execute query",
            ErrorKind::MutationFailed => "Failed to execute mutation",
        };
        String::from_str(text)
    }

    /// The HTTP status under which the failure is reported.
    pub fn http_status(&self) -> (code: u16)
        ensures
            code == (if self.is_internal() {
                500u16
            } else if *self == ErrorKind::Forbidden {
                403u16
            } else if self.concerns_credentials() {
                401u16
            } else {
                400u16
            }),
    {
        match self {
            ErrorKind::ConfigMissing
            | ErrorKind::HashingFailed
            | ErrorKind::EncodingFailed
            | ErrorKind::MissingApiKey
            | ErrorKind::CompletionUnreachable
            | ErrorKind::InvalidCompletion
            | ErrorKind::QueryFailed
            | ErrorKind::MutationFailed => 500,
            ErrorKind::Forbidden => 403,
            ErrorKind::MalformedHeader
            | ErrorKind::Malformed
            | ErrorKind::InvalidSignature
            | ErrorKind::Expired
            | ErrorKind::Unauthenticated => 401,
            _ => 400,
        }
    }
}

impl Rejection {
    /// A rejection is well formed when its message is the one fixed for its
    /// kind: nothing of the request, the token or the secret is in it.
    pub open spec fn well_formed(&self) -> bool {
        self.message@ == self.status.message_text()
    }

    /// The rejection for a kind, with the message fixed for it.
    pub fn new(status: ErrorKind) -> (rejection: Rejection)
        ensures
            rejection.status == status,
            rejection.well_formed(),
    {
        Rejection { status, message: status.message() }
    }
}

} // verus!
