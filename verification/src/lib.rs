//! A to-do list service core: the list of items with its rules, the decisions
//! each request takes, and the HTML fragments sent back for partial page updates.

pub mod clock;
pub mod escape;
pub mod ident;
pub mod templates;
pub mod todo;
pub mod laws;
pub mod store;
pub mod response;
pub mod service;
