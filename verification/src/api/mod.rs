//! The flows behind the JSON endpoints.

pub mod consent;
pub mod invitation;
pub mod login;
pub mod logout;
pub mod public;
