//! Decisions: what a client sends to record one, and what the store and the
//! API hold of one.

use vstd::prelude::*;

use crate::ident::{hyphenated, id_text};
use crate::text::{opt_text, opt_texts, texts};

verus! {

/// What a client sends to record a decision.
#[derive(Clone, Debug)]
pub struct DecisionInput {
    pub category: Option<String>,
    pub desired_outcome: Option<String>,
    pub emotions: Option<Vec<String>>,
    pub question: String,
}

/// What a client sends to report progress on a decision.
#[derive(Clone, Debug)]
pub struct UpdateDecisionInput {
    pub progress: String,
}

/// A decision as the API shows it.
#[derive(Clone, Debug)]
pub struct Decision {
    pub id: String,
    pub answer: Option<String>,
    pub category: Option<String>,
    pub desired_outcome: Option<String>,
    pub emotions: Option<Vec<String>>,
    pub progress: String,
    pub question: String,
    pub user_id: String,
    /// Microseconds since the Unix epoch.
    pub created_at: i64,
}

/// A list of decisions with its length.
#[derive(Clone, Debug)]
pub struct DecisionPage {
    pub total: i64,
    pub decisions: Vec<Decision>,
}

/// A decision as the store holds it.
#[derive(Clone, Debug)]
pub struct DecisionRow {
    pub id: u128,
    pub answer: Option<String>,
    pub category: Option<String>,
    pub desired_outcome: Option<String>,
    pub emotions: Option<Vec<String>>,
    pub progress: String,
    pub question: String,
    /// The user who recorded the decision, and owns it.
    pub user_id: u128,
    /// Microseconds since the Unix epoch.
    pub created_at: i64,
}

/// Copies an optional string.
pub fn copy_opt_text(value: &Option<String>) -> (copy: Option<String>)
    ensures
        opt_text(copy) == opt_text(*value),
{
    match value {
        Some(text) => Some(text.clone()),
        None => None,
    }
}

/// Copies a list of strings.
pub fn copy_texts(items: &Vec<String>) -> (copy: Vec<String>)
    ensures
        texts(copy@) == texts(items@),
{
    let mut copy: Vec<String> = Vec::new();
    let mut done: usize = 0;
    while done < items.len()
        invariant
            done <= items.len(),
            copy@.len() == done,
            forall|i: int| 0 <= i < done ==> (#[trigger] copy@[i])@ == items@[i]@,
        decreases items.len() - done,
    {
        copy.push(items[done].clone());
        done += 1;
    }
    assert(texts(copy@) =~= texts(items@));
    copy
}

/// Copies an optional list of strings.
pub fn copy_opt_texts(value: &Option<Vec<String>>) -> (copy: Option<Vec<String>>)
    ensures
        opt_texts(copy) == opt_texts(*value),
{
    match value {
        Some(items) => Some(copy_texts(items)),
        None => None,
    }
}

impl Decision {
    /// Whether this is how the API shows `row`: the two identifiers
    /// hyphenated, the rest unchanged.
    pub open spec fn shows(&self, row: &DecisionRow) -> bool {
        &&& self.id@ == hyphenated(row.id)
        &&& opt_text(self.answer) == opt_text(row.answer)
        &&& opt_text(self.category) == opt_text(row.category)
        &&& opt_text(self.desired_outcome) == opt_text(row.desired_outcome)
        &&& opt_texts(self.emotions) == opt_texts(row.emotions)
        &&& self.progress@ == row.progress@
        &&& self.question@ == row.question@
        &&& self.user_id@ == hyphenated(row.user_id)
        &&& self.created_at == row.created_at
    }

    /// The decision as the API shows it.
    pub fn from_row(row: &DecisionRow) -> (decision: Decision)
        ensures
            decision.shows(row),
    {
        Decision {
            id: id_text(row.id),
            answer: copy_opt_text(&row.answer),
            category: copy_opt_text(&row.category),
            desired_outcome: copy_opt_text(&row.desired_outcome),
            emotions: copy_opt_texts(&row.emotions),
            progress: row.progress.clone(),
            question: row.question.clone(),
            user_id: id_text(row.user_id),
            created_at: row.created_at,
        }
    }
}

impl DecisionPage {
    /// A page of all the decisions given, with their number.
    pub fn new(decisions: Vec<Decision>) -> (page: DecisionPage)
        requires
            decisions@.len() <= i64::MAX,
        ensures
            page.total == decisions@.len(),
            page.decisions == decisions,
    {
        DecisionPage { total: decisions.len() as i64, decisions }
    }
}

} // verus!
