//! The statements sent to the database, as values.

use vstd::prelude::*;

verus! {

/// Creates the table of records unless it is there already.
pub const CREATE_TABLE_CQL: &'static str =
    "CREATE TABLE IF NOT EXISTS prototype.data (id uuid PRIMARY KEY, content text, created_at timestamp)";

/// Fetches the content stored under a key.
pub const SELECT_CQL: &'static str = "SELECT content FROM prototype.data WHERE id = ? LIMIT 1";

/// Stores a content under a key, with the database's own time, in place of
/// whatever was stored there.
pub const UPSERT_CQL: &'static str =
    "INSERT INTO prototype.data (id, content, created_at) VALUES (?, ?, toTimestamp(now()))";

/// Removes whatever is stored under a key.
pub const DELETE_CQL: &'static str = "DELETE FROM prototype.data WHERE id = ?";

/// One statement against the table of records. Each is carried out as a
/// whole or not at all. All but `CreateTable` act on the one record.
#[derive(Debug, PartialEq, Eq)]
pub enum Statement {
    CreateTable,
    Select,
    Upsert { content: String },
    Delete,
}

/// A statement as a mathematical value.
pub enum StatementView {
    CreateTable,
    Select,
    Upsert { content: Seq<char> },
    Delete,
}

impl View for Statement {
    type V = StatementView;

    open spec fn view(&self) -> StatementView {
        match self {
            Statement::CreateTable => StatementView::CreateTable,
            Statement::Select => StatementView::Select,
            Statement::Upsert { content } => StatementView::Upsert { content: content@ },
            Statement::Delete => StatementView::Delete,
        }
    }
}

impl StatementView {
    /// The text of the statement, with `?` for each value bound to it.
    pub open spec fn cql(self) -> Seq<char> {
        match self {
            StatementView::CreateTable => CREATE_TABLE_CQL@,
            StatementView::Select => SELECT_CQL@,
            StatementView::Upsert { .. } => UPSERT_CQL@,
            StatementView::Delete => DELETE_CQL@,
        }
    }

    /// Whether the record's key is the first value bound to the statement.
    pub open spec fn binds_key(self) -> bool {
        !(self is CreateTable)
    }

    /// The content bound to the statement after the key, if there is one.
    pub open spec fn bound_content(self) -> Option<Seq<char>> {
        match self {
            StatementView::Upsert { content } => Some(content),
            _ => None,
        }
    }

    /// Whether the statement can change what is stored.
    pub open spec fn writes(self) -> bool {
        !(self is Select)
    }
}

impl Statement {
    /// The text of the statement.
    pub fn cql(&self) -> (text: &'static str)
        ensures
            text@ == self@.cql(),
    {
        match self {
            Statement::CreateTable => CREATE_TABLE_CQL,
            Statement::Select => SELECT_CQL,
            Statement::Upsert { .. } => UPSERT_CQL,
            Statement::Delete => DELETE_CQL,
        }
    }

    /// Whether the record's key is to be bound as the statement's first value.
    pub fn binds_key(&self) -> (b: bool)
        ensures
            b == self@.binds_key(),
    {
        match self {
            Statement::CreateTable => false,
            _ => true,
        }
    }

    /// The content to be bound after the key, if the statement takes one.
    pub fn bound_content(&self) -> (content: Option<&str>)
        ensures
            content is Some == self@.bound_content() is Some,
            content is Some ==> content->0@ == self@.bound_content()->0,
    {
        match self {
            Statement::Upsert { content } => Some(content.as_str()),
            _ => None,
        }
    }
}

} // verus!
