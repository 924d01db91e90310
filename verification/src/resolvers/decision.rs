//! Recording, listing, reading, updating and deleting decisions.
//!
//! Every operation first asks the guard who the caller is, and only then
//! says what to fetch or to send. What comes back is held against the
//! caller's rights before anything is shown or changed.

use vstd::prelude::*;
use vstd::string::*;

use crate::error::ErrorKind;
use crate::guard::{
    access, authenticated, may_access, require_authenticated, require_owner_or_superuser,
    RequestContext,
};
use crate::ident::{fresh_id, id_reading, parse_id, parsed_uuid};
use crate::models::decision::{Decision, DecisionInput, DecisionRow, UpdateDecisionInput};
use crate::models::token::AuthUser;
use crate::text::{join, joined, opt_text, opt_texts, texts, trim, trimmed};

verus! {

/// The queries on decisions.
#[derive(Clone, Copy, Debug, Default)]
pub struct DecisionQuery;

/// The changes to decisions.
#[derive(Clone, Copy, Debug, Default)]
pub struct DecisionMutation;

/// A record to fetch on behalf of a viewer, who must then be held against
/// the record's owner.
#[derive(Clone, Copy, Debug, PartialEq, Eq, Structural)]
pub struct Lookup {
    pub viewer: AuthUser,
    pub record: u128,
}

/// What an operation on one record says of a context and of what the
/// record's identifier parses to: a caller who is not logged in is refused
/// first, then an identifier that is no UUID.
pub open spec fn lookup_plan(context: Option<AuthUser>, parsed: Option<u128>) -> Result<
    Lookup,
    ErrorKind,
> {
    match authenticated(context) {
        Ok(viewer) => match id_reading(parsed) {
            Ok(record) => Ok(Lookup { viewer, record }),
            Err(kind) => Err(kind),
        },
        Err(kind) => Err(kind),
    }
}

/// Begins an operation on one record: names the record to fetch and the
/// viewer to hold against it.
fn plan_lookup(ctx: &RequestContext, id: &str) -> (outcome: Result<Lookup, ErrorKind>)
    ensures
        outcome == lookup_plan(ctx@, parsed_uuid(id@)),
{
    match require_authenticated(ctx) {
        Ok(viewer) => match parse_id(id) {
            Ok(record) => Ok(Lookup { viewer, record }),
            Err(kind) => Err(kind),
        },
        Err(kind) => Err(kind),
    }
}

/// A decision that is ready to be put to the completion service: who asks,
/// what was entered, and the prompt to send.
#[derive(Clone)]
pub struct Draft {
    pub owner: u128,
    pub category: Option<String>,
    pub desired_outcome: Option<String>,
    pub emotions: Option<Vec<String>>,
    /// The question, without the white space around it.
    pub question: String,
    pub prompt: String,
    /// The key under which the completion service is called.
    pub api_key: String,
}

/// The line of the prompt that names the category.
pub open spec fn category_line(category: Seq<char>) -> Seq<char> {
    "Category: "@ + category + "."@
}

/// The line of the prompt that lists the emotions.
pub open spec fn emotions_line(emotions: Seq<Seq<char>>) -> Seq<char> {
    "Current emotional state: "@ + joined(emotions, ", "@) + "."@
}

/// The line of the prompt that states the desired outcome.
pub open spec fn outcome_line(outcome: Seq<char>) -> Seq<char> {
    "What I hope to feel or achieve: "@ + trimmed(outcome) + "."@
}

/// The lines of context: one for each of category, emotions and desired
/// outcome that was entered, in this order.
pub open spec fn context_lines(
    category: Option<Seq<char>>,
    emotions: Option<Seq<Seq<char>>>,
    outcome: Option<Seq<char>>,
) -> Seq<Seq<char>> {
    let first: Seq<Seq<char>> = match category {
        Some(text) => seq![category_line(text)],
        None => seq![],
    };
    let second: Seq<Seq<char>> = match emotions {
        Some(items) => seq![emotions_line(items)],
        None => seq![],
    };
    let third: Seq<Seq<char>> = match outcome {
        Some(text) => seq![outcome_line(text)],
        None => seq![],
    };
    first + second + third
}

/// The context as it stands in the prompt: the lines, each ended by a line
/// feed, or nothing where there is no line.
pub open spec fn context_text(lines: Seq<Seq<char>>) -> Seq<char> {
    if lines.len() == 0 {
        Seq::empty()
    } else {
        joined(lines, "\n"@) + "\n"@
    }
}

/// The prompt for a question that was entered with some context.
pub open spec fn prompt_text(
    category: Option<Seq<char>>,
    emotions: Option<Seq<Seq<char>>>,
    outcome: Option<Seq<char>>,
    question: Seq<char>,
) -> Seq<char> {
    context_text(context_lines(category, emotions, outcome))
        + "Provide a one paragraph answer to this question:\n"@ + trimmed(question)
}

/// The rows of a list that a viewer may see, in their order.
pub open spec fn visible_to(viewer: AuthUser, rows: Seq<DecisionRow>) -> Seq<DecisionRow>
    decreases rows.len(),
{
    if rows.len() == 0 {
        Seq::empty()
    } else if may_access(viewer, rows.last().user_id) {
        visible_to(viewer, rows.drop_last()).push(rows.last())
    } else {
        visible_to(viewer, rows.drop_last())
    }
}

/// Whether a list of decisions shows a list of rows, one for one.
pub open spec fn show_all(decisions: Seq<Decision>, rows: Seq<DecisionRow>) -> bool {
    &&& decisions.len() == rows.len()
    &&& forall|i: int| 0 <= i < rows.len() ==> (#[trigger] decisions[i]).shows(&rows[i])
}

/// One line of the prompt: a label, a text and a full stop.
fn labelled(label: &str, body: &str) -> (line: String)
    ensures
        line@ == label@ + body@ + "."@,
{
    let mut line = String::from_str(label);
    line.append(body);
    line.append(".");
    line
}

/// Writes the prompt for a question and the context entered with it.
pub fn build_prompt(input: &DecisionInput) -> (prompt: String)
    ensures
        prompt@ == prompt_text(
            opt_text(input.category),
            opt_texts(input.emotions),
            opt_text(input.desired_outcome),
            input.question@,
        ),
{
    let mut lines: Vec<String> = Vec::new();
    if let Some(category) = &input.category {
        lines.push(labelled("Category: ", category.as_str()));
    }
    if let Some(emotions) = &input.emotions {
        let list = join(emotions, ", ");
        lines.push(labelled("Current emotional state: ", list.as_str()));
    }
    if let Some(outcome) = &input.desired_outcome {
        lines.push(labelled("What I hope to feel or achieve: ", trim(outcome.as_str())));
    }
    assert(texts(lines@) =~= context_lines(
        opt_text(input.category),
        opt_texts(input.emotions),
        opt_text(input.desired_outcome),
    ));
    let mut prompt = String::new();
    if lines.len() > 0 {
        prompt = join(&lines, "\n");
        prompt.append("\n");
    }
    prompt.append("Provide a one paragraph answer to this question:\n");
    prompt.append(trim(input.question.as_str()));
    prompt
}

impl Draft {
    /// Whether the draft is the one that `create_decision` makes of an input
    /// for an owner under a key.
    pub open spec fn drafts(&self, owner: u128, input: &DecisionInput, api_key: Seq<char>) -> bool {
        &&& self.owner == owner
        &&& opt_text(self.category) == opt_text(input.category)
        &&& opt_text(self.desired_outcome) == opt_text(input.desired_outcome)
        &&& opt_texts(self.emotions) == opt_texts(input.emotions)
        &&& self.question@ == trimmed(input.question@)
        &&& self.prompt@ == prompt_text(
            opt_text(input.category),
            opt_texts(input.emotions),
            opt_text(input.desired_outcome),
            input.question@,
        )
        &&& self.api_key@ == api_key
    }
}

impl DecisionRow {
    /// Whether the row is the one stored for a draft, an answer, an
    /// identifier and an instant.
    pub open spec fn records(&self, draft: &Draft, answer: Seq<char>, id: u128, now: i64) -> bool {
        &&& self.id == id
        &&& opt_text(self.answer) == Some(answer)
        &&& opt_text(self.category) == opt_text(draft.category)
        &&& opt_text(self.desired_outcome) == opt_text(draft.desired_outcome)
        &&& opt_texts(self.emotions) == opt_texts(draft.emotions)
        &&& self.progress@ == Seq::<char>::empty()
        &&& self.question@ == draft.question@
        &&& self.user_id == draft.owner
        &&& self.created_at == now
    }

    /// The row to store for a draft that was answered.
    pub fn from_draft(draft: Draft, answer: String, id: u128, now: i64) -> (row: DecisionRow)
        ensures
            row.records(&draft, answer@, id, now),
    {
        DecisionRow {
            id,
            answer: Some(answer),
            category: draft.category,
            desired_outcome: draft.desired_outcome,
            emotions: draft.emotions,
            progress: String::new(),
            question: draft.question,
            user_id: draft.owner,
            created_at: now,
        }
    }
}

impl DecisionQuery {
    /// Begins the listing of the caller's decisions: names the viewer whose
    /// decisions to fetch, or refuses a caller who is not logged in.
    pub fn decisions(&self, ctx: &RequestContext) -> (outcome: Result<AuthUser, ErrorKind>)
        ensures
            outcome == authenticated(ctx@),
    {
        require_authenticated(ctx)
    }

    /// Ends the listing: shows of the rows fetched those that the viewer may
    /// see, in their order.
    pub fn decisions_found(&self, viewer: &AuthUser, rows: &Vec<DecisionRow>) -> (decisions: Vec<
        Decision,
    >)
        ensures
            show_all(decisions@, visible_to(*viewer, rows@)),
    {
        let mut decisions: Vec<Decision> = Vec::new();
        let mut done: usize = 0;
        while done < rows.len()
            invariant
                done <= rows.len(),
                show_all(decisions@, visible_to(*viewer, rows@.take(done as int))),
            decreases rows.len() - done,
        {
            proof {
                assert(rows@.take(done + 1).drop_last() =~= rows@.take(done as int));
                assert(rows@.take(done + 1).last() == rows@[done as int]);
            }
            let row = &rows[done];
            if require_owner_or_superuser(viewer, row.user_id).is_ok() {
                decisions.push(Decision::from_row(row));
            }
            done += 1;
        }
        proof {
            assert(rows@.take(done as int) =~= rows@);
        }
        decisions
    }

    /// Begins the reading of one decision: names the record to fetch, or
    /// refuses a caller who is not logged in, or an identifier that is no
    /// UUID, in this order.
    pub fn decision_by_id(&self, ctx: &RequestContext, id: &str) -> (outcome: Result<
        Lookup,
        ErrorKind,
    >)
        ensures
            outcome == lookup_plan(ctx@, parsed_uuid(id@)),
    {
        plan_lookup(ctx, id)
    }

    /// Ends the reading: shows the decision fetched to its owner or a
    /// superuser, refuses it to anybody else, and shows nothing where there is
    /// none.
    pub fn decision_found(&self, viewer: &AuthUser, row: Option<&DecisionRow>) -> (outcome:
        Result<Option<Decision>, ErrorKind>)
        ensures
            match row {
                None => outcome matches Ok(None),
                Some(found) => match access(*viewer, found.user_id) {
                    Ok(_) => outcome matches Ok(Some(decision)) && decision.shows(found),
                    Err(kind) => outcome matches Err(refusal) && refusal == kind,
                },
            },
    {
        match row {
            None => Ok(None),
            Some(found) => match require_owner_or_superuser(viewer, found.user_id) {
                Ok(_) => Ok(Some(Decision::from_row(found))),
                Err(kind) => Err(kind),
            },
        }
    }
}

impl DecisionMutation {
    /// Which failure, if any, keeps a decision from being drafted. A caller
    /// who is not logged in is refused first, then an empty question, then a
    /// service without its key.
    pub open spec fn creation_refusal(
        context: Option<AuthUser>,
        question: Seq<char>,
        api_key: Option<Seq<char>>,
    ) -> Option<ErrorKind> {
        if context is None {
            Some(ErrorKind::Unauthenticated)
        } else if trimmed(question).len() == 0 {
            Some(ErrorKind::EmptyQuestion)
        } else if api_key is None {
            Some(ErrorKind::MissingApiKey)
        } else {
            None
        }
    }

    /// Whether `outcome` is what `create_decision` returns: the refusal where
    /// there is one, and otherwise the draft for the caller.
    pub open spec fn drafted(
        context: Option<AuthUser>,
        input: &DecisionInput,
        api_key: Option<Seq<char>>,
        outcome: Result<Draft, ErrorKind>,
    ) -> bool {
        match DecisionMutation::creation_refusal(context, input.question@, api_key) {
            Some(kind) => outcome matches Err(refusal) && refusal == kind,
            None => outcome matches Ok(draft) && draft.drafts(context->0.id, input, api_key->0),
        }
    }

    /// What the guard says of a change to a record that was fetched: the
    /// record's identifier where there is one and the caller may change it,
    /// nothing to do where there is none.
    pub open spec fn change_grant(viewer: AuthUser, target: Option<(u128, u128)>) -> Result<
        Option<u128>,
        ErrorKind,
    > {
        match target {
            None => Ok(None),
            Some((id, owner)) => match access(viewer, owner) {
                Ok(_) => Ok(Some(id)),
                Err(kind) => Err(kind),
            },
        }
    }

    /// Begins the recording of a decision: drafts it with the prompt to send
    /// to the completion service, or refuses. Nothing is sent and nothing is
    /// stored for a request that is refused.
    pub fn create_decision(
        &self,
        ctx: &RequestContext,
        input: DecisionInput,
        api_key: Option<String>,
    ) -> (outcome: Result<Draft, ErrorKind>)
        ensures
            DecisionMutation::drafted(ctx@, &input, opt_text(api_key), outcome),
    {
        let identity = match require_authenticated(ctx) {
            Ok(identity) => identity,
            Err(kind) => {
                return Err(kind);
            },
        };
        let prompt = build_prompt(&input);
        let question = String::from_str(trim(input.question.as_str()));
        if question.as_str().unicode_len() == 0 {
            return Err(ErrorKind::EmptyQuestion);
        }
        let api_key = match api_key {
            Some(key) => key,
            None => {
                return Err(ErrorKind::MissingApiKey);
            },
        };
        Ok(
            Draft {
                owner: identity.id,
                category: input.category,
                desired_outcome: input.desired_outcome,
                emotions: input.emotions,
                question,
                prompt,
                api_key,
            },
        )
    }

    /// Ends the recording: the row to store for a draft and its answer,
    /// under a new identifier.
    pub fn decision_answered(&self, draft: Draft, answer: String, now: i64) -> (row: DecisionRow)
        ensures
            row.records(&draft, answer@, row.id, now),
    {
        DecisionRow::from_draft(draft, answer, fresh_id(), now)
    }

    /// Begins the deletion of a decision: names the record to fetch, or
    /// refuses a caller who is not logged in, or an identifier that is no
    /// UUID, in this order.
    pub fn delete_decision(&self, ctx: &RequestContext, id: &str) -> (outcome: Result<
        Lookup,
        ErrorKind,
    >)
        ensures
            outcome == lookup_plan(ctx@, parsed_uuid(id@)),
    {
        plan_lookup(ctx, id)
    }

    /// Ends the deletion: says which record to delete, if the one fetched is
    /// the caller's own or the caller is a superuser. Where no record was
    /// found there is nothing to delete, which is no failure.
    pub fn deletion_granted(&self, viewer: &AuthUser, row: Option<&DecisionRow>) -> (outcome:
        Result<Option<u128>, ErrorKind>)
        ensures
            outcome == DecisionMutation::change_grant(
                *viewer,
                match row {
                    Some(found) => Some((found.id, found.user_id)),
                    None => None,
                },
            ),
    {
        match row {
            None => Ok(None),
            Some(found) => match require_owner_or_superuser(viewer, found.user_id) {
                Ok(_) => Ok(Some(found.id)),
                Err(kind) => Err(kind),
            },
        }
    }

    /// Begins the update of a decision, as `delete_decision` begins a
    /// deletion.
    pub fn update_decision(&self, ctx: &RequestContext, id: &str) -> (outcome: Result<
        Lookup,
        ErrorKind,
    >)
        ensures
            outcome == lookup_plan(ctx@, parsed_uuid(id@)),
    {
        plan_lookup(ctx, id)
    }

    /// Ends the update: the progress to store and the record to store it
    /// on, if the one fetched is the caller's own or the caller is a
    /// superuser. Where no record was found there is nothing to update.
    pub fn update_granted(
        &self,
        viewer: &AuthUser,
        row: Option<&DecisionRow>,
        input: UpdateDecisionInput,
    ) -> (outcome: Result<Option<(u128, String)>, ErrorKind>)
        ensures
            match DecisionMutation::change_grant(
                *viewer,
                match row {
                    Some(found) => Some((found.id, found.user_id)),
                    None => None,
                },
            ) {
                Ok(Some(id)) => outcome matches Ok(Some(change)) && change.0 == id && change.1@
                    == input.progress@,
                Ok(None) => outcome matches Ok(None),
                Err(kind) => outcome matches Err(refusal) && refusal == kind,
            },
    {
        match row {
            None => Ok(None),
            Some(found) => match require_owner_or_superuser(viewer, found.user_id) {
                Ok(_) => Ok(Some((found.id, input.progress))),
                Err(kind) => Err(kind),
            },
        }
    }
}

/// A request without an identity gets no further than the guard. Whatever
/// else it carries, every operation on decisions answers `Unauthenticated`:
/// no viewer is named to list for, no record is named to be fetched, changed
/// or deleted, and no prompt is drafted to be sent.
pub proof fn lemma_unauthenticated_request_does_nothing(
    parsed: Option<u128>,
    question: Seq<char>,
    api_key: Option<Seq<char>>,
)
    ensures
        authenticated(None) == Err::<AuthUser, ErrorKind>(ErrorKind::Unauthenticated),
        lookup_plan(None, parsed) == Err::<Lookup, ErrorKind>(ErrorKind::Unauthenticated),
        DecisionMutation::creation_refusal(None, question, api_key) == Some(
            ErrorKind::Unauthenticated,
        ),
{
}

/// Every row that a listing shows is the viewer's own, unless the viewer is
/// a superuser, who is shown every row.
pub proof fn lemma_listing_is_scoped(viewer: AuthUser, rows: Seq<DecisionRow>)
    ensures
        forall|i: int|
            0 <= i < visible_to(viewer, rows).len() ==> may_access(
                viewer,
                (#[trigger] visible_to(viewer, rows)[i]).user_id,
            ),
        viewer.is_superuser ==> visible_to(viewer, rows) == rows,
        visible_to(viewer, rows).len() <= rows.len(),
    decreases rows.len(),
{
    if rows.len() > 0 {
        lemma_listing_is_scoped(viewer, rows.drop_last());
        if viewer.is_superuser {
            assert(visible_to(viewer, rows) =~= rows);
        }
    }
}

/// A record of another user is never handed to a viewer who is no
/// superuser: not to be read, not to be updated, not to be deleted.
pub proof fn lemma_foreign_record_is_refused(viewer: AuthUser, id: u128, owner: u128)
    requires
        !viewer.is_superuser,
        viewer.id != owner,
    ensures
        access(viewer, owner) == Err::<(), ErrorKind>(ErrorKind::Forbidden),
        DecisionMutation::change_grant(viewer, Some((id, owner))) == Err::<
            Option<u128>,
            ErrorKind,
        >(ErrorKind::Forbidden),
{
}

} // verus!
