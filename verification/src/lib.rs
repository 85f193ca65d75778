//! Decision logic of an identity provider front end: password policy, request
//! validation, invitation-based account provisioning and the resolution of
//! login, consent and logout challenges issued by an authorization server.
//!
//! The flows are written as transition functions: the caller performs the
//! action a transition asks for (a store query, a call to the authorization
//! server) and feeds the outcome back as the next event. An event that does
//! not answer the pending action changes nothing.

pub mod api;
pub mod authorization;
pub mod config;
pub mod errors;
pub mod hashing;
pub mod identifiers;
pub mod models;
pub mod urls;
pub mod validations;
pub mod views;
