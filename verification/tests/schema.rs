use decision_api::{
    AuthUser, Claims, DecisionInput, ErrorKind, LoginInput, Lookup, MutationRoot, QueryRoot,
    RegisterInput, RequestContext, UserRow,
};

const SECRET: &[u8] = b"an example secret";
const RECORD: &str = "a1a2a3a4-b1b2-c1c2-d1d2-d3d4d5d6d7d8";
const RECORD_ID: u128 = 0xa1a2a3a4_b1b2_c1c2_d1d2_d3d4d5d6d7d8;

const VIEWER: AuthUser = AuthUser { id: 7, is_superuser: false };

fn logged_in() -> RequestContext {
    RequestContext::new(Some(VIEWER))
}

fn lookup() -> Lookup {
    Lookup { viewer: VIEWER, record: RECORD_ID }
}

fn question(text: &str) -> DecisionInput {
    DecisionInput { category: None, desired_outcome: None, emotions: None, question: text.to_string() }
}

#[test]
fn queries_enter_at_the_root() {
    assert_eq!(QueryRoot.decisions(&logged_in()), Ok(VIEWER));
    assert_eq!(QueryRoot.decisions(&RequestContext::anonymous()), Err(ErrorKind::Unauthenticated));
    assert_eq!(QueryRoot.decision_by_id(&logged_in(), RECORD), Ok(lookup()));
    assert_eq!(QueryRoot.decision_by_id(&logged_in(), "x"), Err(ErrorKind::InvalidId));
    assert_eq!(
        QueryRoot.decision_by_id(&RequestContext::anonymous(), RECORD),
        Err(ErrorKind::Unauthenticated)
    );
}

#[test]
fn changes_enter_at_the_root() {
    let anonymous = RequestContext::anonymous();
    assert_eq!(MutationRoot.delete_decision(&logged_in(), RECORD), Ok(lookup()));
    assert_eq!(MutationRoot.delete_decision(&anonymous, RECORD), Err(ErrorKind::Unauthenticated));
    assert_eq!(MutationRoot.update_decision(&logged_in(), RECORD), Ok(lookup()));
    assert_eq!(MutationRoot.update_decision(&logged_in(), "x"), Err(ErrorKind::InvalidId));
    let draft = MutationRoot
        .create_decision(&logged_in(), question(" Why? "), Some("key".to_string()))
        .ok()
        .unwrap();
    assert_eq!(draft.owner, 7);
    assert_eq!(draft.question, "Why?");
    assert_eq!(draft.prompt, "Provide a one paragraph answer to this question:\nWhy?");
    assert_eq!(
        MutationRoot.create_decision(&anonymous, question("Why?"), None).err(),
        Some(ErrorKind::Unauthenticated)
    );
}

#[test]
fn accounts_enter_at_the_root() {
    let row = UserRow {
        id: 9,
        email: "a@b.c".to_string(),
        password: "$2b$04$EGdrhbKUv8Oc9vGiXX0HQOxSg445d458Muh7DAHskb6QbtCvdxcie".to_string(),
        is_superuser: true,
        created_at: 0,
    };
    let attempt =
        LoginInput { email: "a@b.c".to_string(), password: "correctbatteryhorsestapler".to_string() };
    let token = MutationRoot.login(Some(&row), &attempt, SECRET, 100).unwrap();
    assert_eq!(
        Claims::decode(&token, SECRET, 100),
        Ok(Claims { sub: 9, exp: 86_500, is_superuser: true })
    );
    assert_eq!(MutationRoot.login(None, &attempt, SECRET, 100), Err(ErrorKind::ValidationFailed));
    let input = RegisterInput { email: "n@b.c".to_string(), password: "pw".to_string() };
    let stored = MutationRoot.register_user(input, 5).ok().unwrap();
    assert_eq!(stored.email, "n@b.c");
    assert!(!stored.is_superuser);
    assert_eq!(stored.created_at, 5);
}
