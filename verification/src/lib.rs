//! Authentication and authorization core of a decision-journal API.
//!
//! A request carries a bearer token. The token is verified and read into
//! [`Claims`], the claims become the request's [`AuthUser`], and every
//! operation asks the guard before it touches a record.

pub mod codec;
pub mod completion;
pub mod config;
pub mod error;
pub mod guard;
pub mod ident;
pub mod middleware;
pub mod models;
pub mod password;
pub mod resolvers;
pub mod schema;
pub mod text;

pub use error::{ErrorKind, Rejection};
pub use guard::{
    require_authenticated, require_owner_or_superuser, require_superuser, RequestContext,
};
pub use models::decision::{Decision, DecisionInput, DecisionPage, DecisionRow, UpdateDecisionInput};
pub use models::token::{AuthUser, Claims};
pub use models::user::{LoginInput, RegisterInput, User, UserRow};
pub use resolvers::auth::AuthMutation;
pub use resolvers::decision::{DecisionMutation, DecisionQuery, Draft, Lookup};
pub use schema::{MutationRoot, QueryRoot};
