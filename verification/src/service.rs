//! The three operations on the one record, each as two steps around the
//! database: the statement to send, and the reply made from what came back.

use vstd::prelude::*;
use vstd::string::*;
use crate::statement::{Statement, StatementView};
use crate::text::{blank, is_blank};

verus! {

/// What a read answers when no record is stored.
pub const EMPTY_DATABASE: &'static str = "Database is empty";

/// The message of a write that was refused for want of content.
pub const EMPTY_CONTENT: &'static str = "Empty";

/// Put before the database's own words when the query of a read failed.
pub const READ_FAILED: &'static str = "ScyllaDB error: ";

/// Put before the database's own words when the row of a read had no text.
pub const DECODE_FAILED: &'static str = "Type error: ";

/// Put before the database's own words when a write failed.
pub const WRITE_FAILED: &'static str = "Write error: ";

/// Put before the database's own words when a delete failed.
pub const DELETE_FAILED: &'static str = "Delete error: ";

/// Why an operation failed.
#[derive(Debug, PartialEq, Eq)]
pub enum ServiceError {
    /// The content offered to a write was blank. Nothing was sent.
    Empty,
    /// The database failed; `message` says on which operation and how.
    Database { message: String },
}

/// A `ServiceError` as a mathematical value.
pub enum ServiceErrorView {
    Empty,
    Database { message: Seq<char> },
}

impl View for ServiceError {
    type V = ServiceErrorView;

    open spec fn view(&self) -> ServiceErrorView {
        match self {
            ServiceError::Empty => ServiceErrorView::Empty,
            ServiceError::Database { message } => ServiceErrorView::Database { message: message@ },
        }
    }
}

impl ServiceErrorView {
    /// The words in which the error is told to the caller.
    pub open spec fn message(self) -> Seq<char> {
        match self {
            ServiceErrorView::Empty => EMPTY_CONTENT@,
            ServiceErrorView::Database { message } => message,
        }
    }
}

impl ServiceError {
    /// The words in which the error is told to the caller.
    pub fn message(&self) -> (text: String)
        ensures
            text@ == self@.message(),
    {
        match self {
            ServiceError::Empty => EMPTY_CONTENT.to_owned(),
            ServiceError::Database { message } => message.clone(),
        }
    }
}

/// What came back from the database for the statement of a read.
#[derive(Debug, PartialEq, Eq)]
pub enum Fetched {
    /// A row was found, and `content` is its text.
    Row { content: String },
    /// No row is stored under the key.
    NoRow,
    /// The query failed; `reason` holds the database's words.
    QueryFailed { reason: String },
    /// A row came back that could not be read as one text.
    DecodeFailed { reason: String },
}

/// A `Fetched` as a mathematical value.
pub enum FetchedView {
    Row { content: Seq<char> },
    NoRow,
    QueryFailed { reason: Seq<char> },
    DecodeFailed { reason: Seq<char> },
}

impl View for Fetched {
    type V = FetchedView;

    open spec fn view(&self) -> FetchedView {
        match self {
            Fetched::Row { content } => FetchedView::Row { content: content@ },
            Fetched::NoRow => FetchedView::NoRow,
            Fetched::QueryFailed { reason } => FetchedView::QueryFailed { reason: reason@ },
            Fetched::DecodeFailed { reason } => FetchedView::DecodeFailed { reason: reason@ },
        }
    }
}

/// The reply of an operation that answers with a text, as a mathematical value.
pub open spec fn text_reply(reply: Result<String, ServiceError>) -> Result<
    Seq<char>,
    ServiceErrorView,
> {
    match reply {
        Ok(text) => Ok(text@),
        Err(error) => Err(error@),
    }
}

/// The reply of an operation that answers with nothing, as a mathematical value.
pub open spec fn unit_reply(reply: Result<(), ServiceError>) -> Result<(), ServiceErrorView> {
    match reply {
        Ok(()) => Ok(()),
        Err(error) => Err(error@),
    }
}

/// What the database said of a statement that fetches nothing: `None` when
/// it was carried out, else the database's words.
pub open spec fn failure(outcome: Result<(), String>) -> Option<Seq<char>> {
    match outcome {
        Ok(()) => None,
        Err(reason) => Some(reason@),
    }
}

/// The error for a failure of the database: the words of the operation,
/// then the database's own.
pub open spec fn database_error(prefix: Seq<char>, reason: Seq<char>) -> ServiceErrorView {
    ServiceErrorView::Database { message: prefix + reason }
}

/// The reply of a read: the stored text; the fixed answer `EMPTY_DATABASE`
/// where nothing is stored; an error where the database failed.
pub open spec fn read_reply(fetched: FetchedView) -> Result<Seq<char>, ServiceErrorView> {
    match fetched {
        FetchedView::Row { content } => Ok(content),
        FetchedView::NoRow => Ok(EMPTY_DATABASE@),
        FetchedView::QueryFailed { reason } => Err(database_error(READ_FAILED@, reason)),
        FetchedView::DecodeFailed { reason } => Err(database_error(DECODE_FAILED@, reason)),
    }
}

/// The statement of a write, or the refusal of blank content.
pub open spec fn write_request(content: Seq<char>) -> Result<StatementView, ServiceErrorView> {
    if is_blank(content) {
        Err(ServiceErrorView::Empty)
    } else {
        Ok(StatementView::Upsert { content })
    }
}

/// The reply of a write whose statement was sent: the content as written,
/// or an error where the database failed.
pub open spec fn write_reply(content: Seq<char>, failed: Option<Seq<char>>) -> Result<
    Seq<char>,
    ServiceErrorView,
> {
    match failed {
        None => Ok(content),
        Some(reason) => Err(database_error(WRITE_FAILED@, reason)),
    }
}

/// The reply of a delete: nothing, or an error where the database failed.
pub open spec fn delete_reply(failed: Option<Seq<char>>) -> Result<(), ServiceErrorView> {
    match failed {
        None => Ok(()),
        Some(reason) => Err(database_error(DELETE_FAILED@, reason)),
    }
}

/// Builds the error for a failure of the database.
fn database_failure(prefix: &str, reason: &str) -> (error: ServiceError)
    ensures
        error@ == database_error(prefix@, reason@),
{
    ServiceError::Database { message: prefix.to_owned().concat(reason) }
}

/// The statement that a read sends.
pub fn read_statement() -> (statement: Statement)
    ensures
        statement@ == StatementView::Select,
{
    Statement::Select
}

/// The reply of a read, from what the database gave for its statement.
pub fn read_result(fetched: Fetched) -> (reply: Result<String, ServiceError>)
    ensures
        text_reply(reply) == read_reply(fetched@),
{
    match fetched {
        Fetched::Row { content } => Ok(content),
        Fetched::NoRow => Ok(EMPTY_DATABASE.to_owned()),
        Fetched::QueryFailed { reason } => Err(database_failure(READ_FAILED, reason.as_str())),
        Fetched::DecodeFailed { reason } => Err(database_failure(DECODE_FAILED, reason.as_str())),
    }
}

/// The statement that a write of `content` sends. Blank content is refused
/// with `ServiceError::Empty`, and then nothing is to be sent.
pub fn write_statement(content: &str) -> (request: Result<Statement, ServiceError>)
    ensures
        match request {
            Ok(statement) => write_request(content@) == Ok::<StatementView, ServiceErrorView>(
                statement@,
            ),
            Err(error) => write_request(content@) == Err::<StatementView, ServiceErrorView>(
                error@,
            ),
        },
{
    if blank(content) {
        Err(ServiceError::Empty)
    } else {
        Ok(Statement::Upsert { content: content.to_owned() })
    }
}

/// The reply of a write of `content`, from what the database said of its
/// statement.
pub fn write_result(content: String, outcome: Result<(), String>) -> (reply: Result<
    String,
    ServiceError,
>)
    ensures
        text_reply(reply) == write_reply(content@, failure(outcome)),
{
    match outcome {
        Ok(()) => Ok(content),
        Err(reason) => Err(database_failure(WRITE_FAILED, reason.as_str())),
    }
}

/// The statement that a delete sends, whether or not a record is stored.
pub fn delete_statement() -> (statement: Statement)
    ensures
        statement@ == StatementView::Delete,
{
    Statement::Delete
}

/// The reply of a delete, from what the database said of its statement.
pub fn delete_result(outcome: Result<(), String>) -> (reply: Result<(), ServiceError>)
    ensures
        unit_reply(reply) == delete_reply(failure(outcome)),
{
    match outcome {
        Ok(()) => Ok(()),
        Err(reason) => Err(database_failure(DELETE_FAILED, reason.as_str())),
    }
}

} // verus!
