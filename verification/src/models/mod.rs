//! The data that travels through the API.

pub mod decision;
pub mod token;
pub mod user;
