//! The flows behind the endpoints that the authorization server sends browsers to.

pub mod consent;
