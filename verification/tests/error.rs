use decision_api::{ErrorKind, Rejection};

const ALL: [ErrorKind; 18] = [
    ErrorKind::ConfigMissing,
    ErrorKind::MalformedHeader,
    ErrorKind::Malformed,
    ErrorKind::InvalidSignature,
    ErrorKind::Expired,
    ErrorKind::Unauthenticated,
    ErrorKind::Forbidden,
    ErrorKind::ValidationFailed,
    ErrorKind::InvalidPassword,
    ErrorKind::HashingFailed,
    ErrorKind::EncodingFailed,
    ErrorKind::InvalidId,
    ErrorKind::EmptyQuestion,
    ErrorKind::MissingApiKey,
    ErrorKind::CompletionUnreachable,
    ErrorKind::InvalidCompletion,
    ErrorKind::QueryFailed,
    ErrorKind::MutationFailed,
];

#[test]
fn messages_are_fixed_per_kind() {
    assert_eq!(ErrorKind::ConfigMissing.message(), "JWT_SECRET must be set");
    assert_eq!(ErrorKind::MalformedHeader.message(), "Invalid auth header format");
    assert_eq!(ErrorKind::Malformed.message(), "Invalid token");
    assert_eq!(ErrorKind::InvalidSignature.message(), "Invalid token");
    assert_eq!(ErrorKind::Expired.message(), "Invalid token");
    assert_eq!(ErrorKind::Unauthenticated.message(), "You must be logged in to perform this action");
    assert_eq!(ErrorKind::Forbidden.message(), "You are not allowed to perform this action");
    assert_eq!(ErrorKind::ValidationFailed.message(), "Validation failed");
    assert_eq!(ErrorKind::InvalidPassword.message(), "Invalid password");
    assert_eq!(ErrorKind::HashingFailed.message(), "Hashing failed");
    assert_eq!(ErrorKind::EncodingFailed.message(), "Failed to encode token");
    assert_eq!(ErrorKind::InvalidId.message(), "Invalid UUID format");
    assert_eq!(ErrorKind::EmptyQuestion.message(), "Question cannot be empty");
    assert_eq!(ErrorKind::MissingApiKey.message(), "Missing OpenAI API Key");
    assert_eq!(ErrorKind::CompletionUnreachable.message(), "Failed to contact OpenAI");
    assert_eq!(ErrorKind::InvalidCompletion.message(), "Invalid OpenAI response");
    assert_eq!(ErrorKind::QueryFailed.message(), "Failed to execute query");
    assert_eq!(ErrorKind::MutationFailed.message(), "Failed to execute mutation");
}

#[test]
fn statuses_by_kind() {
    let expected: [u16; 18] =
        [500, 401, 401, 401, 401, 401, 403, 400, 400, 500, 500, 400, 400, 500, 500, 500, 500, 500];
    for (kind, code) in ALL.iter().zip(expected) {
        assert_eq!(kind.http_status(), code, "{:?}", kind);
    }
}

#[test]
fn rejection_carries_kind_and_fixed_message() {
    for kind in ALL {
        let rejection = Rejection::new(kind);
        assert_eq!(rejection.status, kind);
        assert_eq!(rejection.message, kind.message());
        assert!(!rejection.message.is_empty());
    }
}

#[test]
fn rejection_of_a_token_tells_nothing_of_the_token() {
    let secret = b"a secret nobody should see";
    let token = "abc.def.ghi";
    let kind = decision_api::Claims::decode(token, secret, 0).unwrap_err();
    let rejection = Rejection::new(kind);
    assert_eq!(rejection.message, "Invalid token");
    assert!(!rejection.message.contains("abc"));
    assert!(!rejection.message.contains("secret"));
}
