//! The operations of the API, each as the decisions it makes between two
//! visits to the store or to the completion service.

pub mod auth;
pub mod decision;
