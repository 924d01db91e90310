//! The two roots of the API: every query and every change enters here, and
//! is handed to the operation that decides it.

use vstd::prelude::*;

use crate::error::ErrorKind;
use crate::guard::{authenticated, RequestContext};
use crate::ident::parsed_uuid;
use crate::models::decision::DecisionInput;
use crate::models::token::AuthUser;
use crate::models::user::{LoginInput, RegisterInput, UserRow};
use crate::resolvers::auth::{AuthMutation, TOKEN_LIFETIME};
use crate::resolvers::decision::{
    lookup_plan, DecisionMutation, DecisionQuery, Draft, Lookup,
};
use crate::text::opt_text;

verus! {

/// The root of the queries.
#[derive(Clone, Copy, Debug, Default)]
pub struct QueryRoot;

/// The root of the changes.
#[derive(Clone, Copy, Debug, Default)]
pub struct MutationRoot;

impl QueryRoot {
    /// Begins the listing of the caller's decisions.
    pub fn decisions(&self, ctx: &RequestContext) -> (outcome: Result<AuthUser, ErrorKind>)
        ensures
            outcome == authenticated(ctx@),
    {
        DecisionQuery.decisions(ctx)
    }

    /// Begins the reading of one decision.
    pub fn decision_by_id(&self, ctx: &RequestContext, id: &str) -> (outcome: Result<
        Lookup,
        ErrorKind,
    >)
        ensures
            outcome == lookup_plan(ctx@, parsed_uuid(id@)),
    {
        DecisionQuery.decision_by_id(ctx, id)
    }
}

impl MutationRoot {
    /// Begins the recording of a decision.
    pub fn create_decision(
        &self,
        ctx: &RequestContext,
        input: DecisionInput,
        api_key: Option<String>,
    ) -> (outcome: Result<Draft, ErrorKind>)
        ensures
            DecisionMutation::drafted(ctx@, &input, opt_text(api_key), outcome),
    {
        DecisionMutation.create_decision(ctx, input, api_key)
    }

    /// Begins the deletion of a decision.
    pub fn delete_decision(&self, ctx: &RequestContext, id: &str) -> (outcome: Result<
        Lookup,
        ErrorKind,
    >)
        ensures
            outcome == lookup_plan(ctx@, parsed_uuid(id@)),
    {
        DecisionMutation.delete_decision(ctx, id)
    }

    /// Begins the update of a decision.
    pub fn update_decision(&self, ctx: &RequestContext, id: &str) -> (outcome: Result<
        Lookup,
        ErrorKind,
    >)
        ensures
            outcome == lookup_plan(ctx@, parsed_uuid(id@)),
    {
        DecisionMutation.update_decision(ctx, id)
    }

    /// Logs a user in.
    pub fn login(
        &self,
        user: Option<&UserRow>,
        input: &LoginInput,
        secret: &[u8],
        now: u64,
    ) -> (outcome: Result<String, ErrorKind>)
        requires
            now + TOKEN_LIFETIME <= u64::MAX,
        ensures
            AuthMutation::logged_in(user, input, secret@, now, outcome),
    {
        AuthMutation.login(user, input, secret, now)
    }

    /// Opens an account.
    pub fn register_user(&self, input: RegisterInput, now: i64) -> (outcome: Result<
        UserRow,
        ErrorKind,
    >)
        ensures
            AuthMutation::registration(&input, now, outcome),
    {
        AuthMutation.register_user(input, now)
    }
}

} // verus!
