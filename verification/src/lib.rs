//! A single piece of text kept under one fixed key: the rules for reading,
//! writing and deleting it, the statements that carry them out, the
//! reference semantics of the table that holds it, and the decisions of the
//! page that shows it.

pub mod ident;
pub mod laws;
pub mod page;
pub mod service;
pub mod statement;
pub mod store;
pub mod text;
