use decision_api::{Decision, DecisionPage, DecisionRow, User, UserRow};

fn row() -> DecisionRow {
    DecisionRow {
        id: 0x550e8400_e29b_41d4_a716_446655440000,
        answer: Some("Yes.".to_string()),
        category: None,
        desired_outcome: Some("calm".to_string()),
        emotions: Some(vec!["anxious".to_string(), "hopeful".to_string()]),
        progress: "started".to_string(),
        question: "Should I?".to_string(),
        user_id: 1,
        created_at: 1_700_000_000_123_456,
    }
}

#[test]
fn decision_shows_its_row() {
    let decision = Decision::from_row(&row());
    assert_eq!(decision.id, "550e8400-e29b-41d4-a716-446655440000");
    assert_eq!(decision.answer.as_deref(), Some("Yes."));
    assert_eq!(decision.category, None);
    assert_eq!(decision.desired_outcome.as_deref(), Some("calm"));
    assert_eq!(decision.emotions, Some(vec!["anxious".to_string(), "hopeful".to_string()]));
    assert_eq!(decision.progress, "started");
    assert_eq!(decision.question, "Should I?");
    assert_eq!(decision.user_id, "00000000-0000-0000-0000-000000000001");
    assert_eq!(decision.created_at, 1_700_000_000_123_456);
}

#[test]
fn decision_without_optional_fields_shows_none() {
    let bare = DecisionRow {
        id: 2,
        answer: None,
        category: None,
        desired_outcome: None,
        emotions: None,
        progress: String::new(),
        question: String::new(),
        user_id: 3,
        created_at: -1,
    };
    let decision = Decision::from_row(&bare);
    assert_eq!(decision.answer, None);
    assert_eq!(decision.emotions, None);
    assert_eq!(decision.created_at, -1);
    assert_eq!(decision.progress, "");
}

#[test]
fn user_shows_its_row() {
    let row = UserRow {
        id: 0xa1a2a3a4_b1b2_c1c2_d1d2_d3d4d5d6d7d8,
        email: "a@b.c".to_string(),
        password: "$2b$12$hash".to_string(),
        is_superuser: true,
        created_at: 5,
    };
    let user = User::from_row(&row);
    assert_eq!(user.id, "a1a2a3a4-b1b2-c1c2-d1d2-d3d4d5d6d7d8");
    assert_eq!(user.email, "a@b.c");
    assert_eq!(user.password, "$2b$12$hash");
    assert!(user.is_superuser);
    assert_eq!(user.created_at, 5);
}

#[test]
fn page_counts_its_decisions() {
    let page = DecisionPage::new(vec![Decision::from_row(&row()), Decision::from_row(&row())]);
    assert_eq!(page.total, 2);
    assert_eq!(page.decisions.len(), 2);
    assert_eq!(DecisionPage::new(Vec::new()).total, 0);
}
