use decision_api::resolvers::decision::build_prompt;
use decision_api::{
    AuthUser, DecisionInput, DecisionMutation, DecisionQuery, DecisionRow, Draft, ErrorKind,
    Lookup, RequestContext, UpdateDecisionInput,
};

const U1: u128 = 0x550e8400_e29b_41d4_a716_446655440000;
const U2: u128 = 0x550e8400_e29b_41d4_a716_446655440001;
const RECORD: &str = "a1a2a3a4-b1b2-c1c2-d1d2-d3d4d5d6d7d8";
const RECORD_ID: u128 = 0xa1a2a3a4_b1b2_c1c2_d1d2_d3d4d5d6d7d8;

fn user(id: u128) -> AuthUser {
    AuthUser { id, is_superuser: false }
}

fn root(id: u128) -> AuthUser {
    AuthUser { id, is_superuser: true }
}

fn logged_in(id: u128) -> RequestContext {
    RequestContext::new(Some(user(id)))
}

fn full_input() -> DecisionInput {
    DecisionInput {
        category: Some("Career".to_string()),
        desired_outcome: Some("  clarity  ".to_string()),
        emotions: Some(vec!["anxious".to_string(), "hopeful".to_string()]),
        question: "  Should I switch jobs?  ".to_string(),
    }
}

fn bare_input(question: &str) -> DecisionInput {
    DecisionInput { category: None, desired_outcome: None, emotions: None, question: question.to_string() }
}

fn row(id: u128, owner: u128) -> DecisionRow {
    DecisionRow {
        id,
        answer: Some("Yes.".to_string()),
        category: None,
        desired_outcome: None,
        emotions: None,
        progress: String::new(),
        question: "Should I?".to_string(),
        user_id: owner,
        created_at: 0,
    }
}

fn key() -> Option<String> {
    Some("sk-test".to_string())
}

#[test]
fn prompt_with_all_context() {
    assert_eq!(
        build_prompt(&full_input()),
        "Category: Career.\nCurrent emotional state: anxious, hopeful.\nWhat I hope to feel or achieve: clarity.\nProvide a one paragraph answer to this question:\nShould I switch jobs?"
    );
}

#[test]
fn prompt_without_context() {
    assert_eq!(
        build_prompt(&bare_input("Should I?")),
        "Provide a one paragraph answer to this question:\nShould I?"
    );
}

#[test]
fn prompt_with_some_context() {
    let mut input = bare_input(" Q ");
    input.emotions = Some(vec!["tired".to_string()]);
    assert_eq!(
        build_prompt(&input),
        "Current emotional state: tired.\nProvide a one paragraph answer to this question:\nQ"
    );
    input.emotions = Some(Vec::new());
    input.category = Some(" Health ".to_string());
    assert_eq!(
        build_prompt(&input),
        "Category:  Health .\nCurrent emotional state: .\nProvide a one paragraph answer to this question:\nQ"
    );
    let mut input = bare_input("Q");
    input.desired_outcome = Some("\tpeace\n".to_string());
    assert_eq!(
        build_prompt(&input),
        "What I hope to feel or achieve: peace.\nProvide a one paragraph answer to this question:\nQ"
    );
}

#[test]
fn create_decision_drafts_the_request() {
    let draft = DecisionMutation.create_decision(&logged_in(U1), full_input(), key()).unwrap();
    assert_eq!(draft.owner, U1);
    assert_eq!(draft.category.as_deref(), Some("Career"));
    assert_eq!(draft.desired_outcome.as_deref(), Some("  clarity  "));
    assert_eq!(draft.emotions, Some(vec!["anxious".to_string(), "hopeful".to_string()]));
    assert_eq!(draft.question, "Should I switch jobs?");
    assert_eq!(draft.prompt, build_prompt(&full_input()));
    assert_eq!(draft.api_key, "sk-test");
}

#[test]
fn create_decision_needs_a_login_first() {
    let anonymous = RequestContext::anonymous();
    assert_eq!(
        DecisionMutation.create_decision(&anonymous, full_input(), key()).err(),
        Some(ErrorKind::Unauthenticated)
    );
    assert_eq!(
        DecisionMutation.create_decision(&anonymous, bare_input("  "), None).err(),
        Some(ErrorKind::Unauthenticated)
    );
}

#[test]
fn create_decision_refuses_an_empty_question_before_a_missing_key() {
    for question in ["", " ", "\n\t ", "\u{3000}"] {
        assert_eq!(
            DecisionMutation.create_decision(&logged_in(U1), bare_input(question), key()).err(),
            Some(ErrorKind::EmptyQuestion)
        );
        assert_eq!(
            DecisionMutation.create_decision(&logged_in(U1), bare_input(question), None).err(),
            Some(ErrorKind::EmptyQuestion)
        );
    }
}

#[test]
fn create_decision_needs_the_key() {
    assert_eq!(
        DecisionMutation.create_decision(&logged_in(U1), full_input(), None).err(),
        Some(ErrorKind::MissingApiKey)
    );
}

#[test]
fn answered_decision_is_stored_for_its_owner() {
    let draft: Draft = DecisionMutation.create_decision(&logged_in(U1), full_input(), key()).unwrap();
    let row = DecisionMutation.decision_answered(draft, "Take it.".to_string(), 1_700_000_000_000_000);
    assert_eq!(row.answer.as_deref(), Some("Take it."));
    assert_eq!(row.category.as_deref(), Some("Career"));
    assert_eq!(row.desired_outcome.as_deref(), Some("  clarity  "));
    assert_eq!(row.emotions, Some(vec!["anxious".to_string(), "hopeful".to_string()]));
    assert_eq!(row.progress, "");
    assert_eq!(row.question, "Should I switch jobs?");
    assert_eq!(row.user_id, U1);
    assert_eq!(row.created_at, 1_700_000_000_000_000);
}

#[test]
fn row_from_a_draft_takes_the_identifier_given() {
    let draft = DecisionMutation.create_decision(&logged_in(U2), bare_input("Q"), key()).unwrap();
    let row = DecisionRow::from_draft(draft, "A".to_string(), RECORD_ID, -5);
    assert_eq!(row.id, RECORD_ID);
    assert_eq!(row.user_id, U2);
    assert_eq!(row.answer.as_deref(), Some("A"));
    assert_eq!(row.created_at, -5);
    assert_eq!(row.category, None);
}

#[test]
fn listing_needs_a_login() {
    assert_eq!(DecisionQuery.decisions(&RequestContext::anonymous()), Err(ErrorKind::Unauthenticated));
    assert_eq!(DecisionQuery.decisions(&logged_in(U1)), Ok(user(U1)));
    assert_eq!(DecisionQuery.decisions(&RequestContext::new(Some(root(U2)))), Ok(root(U2)));
}

#[test]
fn listing_shows_own_rows_in_order() {
    let rows = vec![row(1, U1), row(2, U2), row(3, U1), row(4, U2), row(5, U1)];
    let shown = DecisionQuery.decisions_found(&user(U1), &rows);
    let ids: Vec<&str> = shown.iter().map(|d| d.id.as_str()).collect();
    assert_eq!(
        ids,
        vec![
            "00000000-0000-0000-0000-000000000001",
            "00000000-0000-0000-0000-000000000003",
            "00000000-0000-0000-0000-000000000005"
        ]
    );
    assert!(shown.iter().all(|d| d.user_id == "550e8400-e29b-41d4-a716-446655440000"));
    assert!(DecisionQuery.decisions_found(&user(7), &rows).is_empty());
    assert!(DecisionQuery.decisions_found(&user(U1), &Vec::new()).is_empty());
}

#[test]
fn listing_shows_a_superuser_every_row() {
    let rows = vec![row(1, U1), row(2, U2), row(3, U1)];
    assert_eq!(DecisionQuery.decisions_found(&root(7), &rows).len(), 3);
}

#[test]
fn reading_needs_a_login_and_then_a_uuid() {
    let anonymous = RequestContext::anonymous();
    assert_eq!(DecisionQuery.decision_by_id(&anonymous, RECORD), Err(ErrorKind::Unauthenticated));
    assert_eq!(DecisionQuery.decision_by_id(&anonymous, "nonsense"), Err(ErrorKind::Unauthenticated));
    assert_eq!(DecisionQuery.decision_by_id(&logged_in(U1), "nonsense"), Err(ErrorKind::InvalidId));
    assert_eq!(
        DecisionQuery.decision_by_id(&logged_in(U1), RECORD),
        Ok(Lookup { viewer: user(U1), record: RECORD_ID })
    );
}

#[test]
fn reading_is_for_the_owner_or_a_superuser() {
    let found = row(RECORD_ID, U1);
    let shown = DecisionQuery.decision_found(&user(U1), Some(&found)).unwrap().unwrap();
    assert_eq!(shown.id, RECORD);
    assert_eq!(shown.question, "Should I?");
    assert_eq!(
        DecisionQuery.decision_found(&user(U2), Some(&found)).err(),
        Some(ErrorKind::Forbidden)
    );
    assert!(DecisionQuery.decision_found(&root(U2), Some(&found)).unwrap().is_some());
    assert!(DecisionQuery.decision_found(&user(U2), None).unwrap().is_none());
}

#[test]
fn deleting_needs_a_login_and_then_a_uuid() {
    let anonymous = RequestContext::anonymous();
    assert_eq!(DecisionMutation.delete_decision(&anonymous, RECORD), Err(ErrorKind::Unauthenticated));
    assert_eq!(DecisionMutation.delete_decision(&anonymous, ""), Err(ErrorKind::Unauthenticated));
    assert_eq!(DecisionMutation.delete_decision(&logged_in(U1), ""), Err(ErrorKind::InvalidId));
    assert_eq!(
        DecisionMutation.delete_decision(&logged_in(U1), RECORD),
        Ok(Lookup { viewer: user(U1), record: RECORD_ID })
    );
}

#[test]
fn deleting_is_for_the_owner_or_a_superuser() {
    let found = row(RECORD_ID, U1);
    assert_eq!(DecisionMutation.deletion_granted(&user(U1), Some(&found)), Ok(Some(RECORD_ID)));
    assert_eq!(DecisionMutation.deletion_granted(&user(U2), Some(&found)), Err(ErrorKind::Forbidden));
    assert_eq!(DecisionMutation.deletion_granted(&root(U2), Some(&found)), Ok(Some(RECORD_ID)));
    assert_eq!(DecisionMutation.deletion_granted(&user(U2), None), Ok(None));
}

#[test]
fn updating_needs_a_login_and_then_a_uuid() {
    let anonymous = RequestContext::anonymous();
    assert_eq!(DecisionMutation.update_decision(&anonymous, RECORD), Err(ErrorKind::Unauthenticated));
    assert_eq!(DecisionMutation.update_decision(&logged_in(U1), "x"), Err(ErrorKind::InvalidId));
    assert_eq!(
        DecisionMutation.update_decision(&logged_in(U1), RECORD),
        Ok(Lookup { viewer: user(U1), record: RECORD_ID })
    );
}

#[test]
fn updating_is_for_the_owner_or_a_superuser() {
    let found = row(RECORD_ID, U1);
    let input = || UpdateDecisionInput { progress: "halfway".to_string() };
    assert_eq!(
        DecisionMutation.update_granted(&user(U1), Some(&found), input()),
        Ok(Some((RECORD_ID, "halfway".to_string())))
    );
    assert_eq!(
        DecisionMutation.update_granted(&user(U2), Some(&found), input()),
        Err(ErrorKind::Forbidden)
    );
    assert_eq!(
        DecisionMutation.update_granted(&root(U2), Some(&found), input()),
        Ok(Some((RECORD_ID, "halfway".to_string())))
    );
    assert_eq!(DecisionMutation.update_granted(&user(U1), None, input()), Ok(None));
}

#[test]
fn request_that_fails_the_guard_names_nothing_to_do() {
    let anonymous = RequestContext::anonymous();
    assert!(DecisionQuery.decisions(&anonymous).is_err());
    assert!(DecisionQuery.decision_by_id(&anonymous, RECORD).is_err());
    assert!(DecisionMutation.create_decision(&anonymous, full_input(), key()).is_err());
    assert!(DecisionMutation.delete_decision(&anonymous, RECORD).is_err());
    assert!(DecisionMutation.update_decision(&anonymous, RECORD).is_err());
}
