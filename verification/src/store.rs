//! What the statements mean: the table of the one record held in memory,
//! and the three operations carried out against it from end to end.

use vstd::prelude::*;
use crate::service::{
    delete_reply, delete_result, delete_statement, read_reply, read_result, read_statement,
    text_reply, unit_reply, write_reply, write_request, write_result, write_statement, Fetched,
    FetchedView, ServiceError, ServiceErrorView,
};
use crate::statement::{Statement, StatementView};

verus! {

/// The table of records, as far as the one key goes: the content stored
/// under it, if any. There is never more than one row for the key.
#[derive(Debug, PartialEq, Eq)]
pub struct Table {
    pub row: Option<String>,
}

/// A `Table` as a mathematical value.
pub struct TableView {
    pub row: Option<Seq<char>>,
}

impl View for Table {
    type V = TableView;

    open spec fn view(&self) -> TableView {
        TableView {
            row: match self.row {
                Some(content) => Some(content@),
                None => None,
            },
        }
    }
}

impl TableView {
    /// The table once `statement` was carried out against it. Creating the
    /// table where it exists changes nothing; a write replaces what was
    /// stored; a delete leaves no row, whether or not there was one.
    pub open spec fn after(self, statement: StatementView) -> TableView {
        match statement {
            StatementView::CreateTable => self,
            StatementView::Select => self,
            StatementView::Upsert { content } => TableView { row: Some(content) },
            StatementView::Delete => TableView { row: None },
        }
    }

    /// What `statement` fetches from the table: the stored content for a
    /// select, nothing for the others.
    pub open spec fn fetched(self, statement: StatementView) -> Option<Seq<char>> {
        match statement {
            StatementView::Select => self.row,
            _ => None,
        }
    }

    /// What a select hands to the read that sent it.
    pub open spec fn selected(self) -> FetchedView {
        match self.row {
            Some(content) => FetchedView::Row { content },
            None => FetchedView::NoRow,
        }
    }

    /// The reply of a read against the table.
    pub open spec fn read(self) -> Result<Seq<char>, ServiceErrorView> {
        read_reply(self.selected())
    }

    /// The table after a write of `content`, and the write's reply.
    pub open spec fn write(self, content: Seq<char>) -> (TableView, Result<
        Seq<char>,
        ServiceErrorView,
    >) {
        match write_request(content) {
            Ok(statement) => (self.after(statement), write_reply(content, None)),
            Err(error) => (self, Err(error)),
        }
    }

    /// The table after a delete, and the delete's reply.
    pub open spec fn delete(self) -> (TableView, Result<(), ServiceErrorView>) {
        (self.after(StatementView::Delete), delete_reply(None))
    }
}

impl Table {
    /// A table without a row.
    pub fn new() -> (table: Table)
        ensures
            table@.row is None,
    {
        Table { row: None }
    }

    /// What `statement` fetches from the table, which it leaves as it is.
    pub fn fetch(&self, statement: &Statement) -> (fetched: Option<String>)
        ensures
            match fetched {
                Some(content) => self@.fetched(statement@) == Some(content@),
                None => self@.fetched(statement@) is None,
            },
    {
        match statement {
            Statement::Select => self.row.clone(),
            _ => None,
        }
    }

    /// Carries out `statement` and hands back what it fetched.
    pub fn execute(&mut self, statement: &Statement) -> (fetched: Option<String>)
        ensures
            final(self)@ == old(self)@.after(statement@),
            match fetched {
                Some(content) => old(self)@.fetched(statement@) == Some(content@),
                None => old(self)@.fetched(statement@) is None,
            },
    {
        let fetched = self.fetch(statement);
        match statement {
            Statement::CreateTable => {},
            Statement::Select => {},
            Statement::Upsert { content } => {
                self.row = Some(content.clone());
            },
            Statement::Delete => {
                self.row = None;
            },
        }
        fetched
    }
}

/// A database: the table of records, once it was created.
#[derive(Debug, PartialEq, Eq)]
pub struct Database {
    pub table: Option<Table>,
}

impl View for Database {
    type V = Option<TableView>;

    open spec fn view(&self) -> Option<TableView> {
        match self.table {
            Some(table) => Some(table@),
            None => None,
        }
    }
}

/// The database once the schema was initialised: a table that exists is
/// left as it is, rows included; one that does not is created without rows.
pub open spec fn initialized(database: Option<TableView>) -> Option<TableView> {
    match database {
        Some(table) => Some(table.after(StatementView::CreateTable)),
        None => Some(TableView { row: None }),
    }
}

impl Database {
    /// A database in which the table was not created yet.
    pub fn new() -> (database: Database)
        ensures
            database@ is None,
    {
        Database { table: None }
    }
}

/// Makes sure that the table exists. Run on every start: it never fails on
/// a table that is there already, and leaves that table unchanged.
pub fn initialize_schema(database: &mut Database)
    ensures
        final(database)@ == initialized(old(database)@),
{
    match &mut database.table {
        Some(table) => {
            table.execute(&Statement::CreateTable);
        },
        None => {
            database.table = Some(Table::new());
        },
    }
}

/// Reads the record: the stored content, or `EMPTY_DATABASE` where nothing
/// is stored.
pub fn get_content(table: &Table) -> (reply: Result<String, ServiceError>)
    ensures
        text_reply(reply) == table@.read(),
{
    let statement = read_statement();
    let fetched = match table.fetch(&statement) {
        Some(content) => Fetched::Row { content },
        None => Fetched::NoRow,
    };
    read_result(fetched)
}

/// Writes `content` in place of whatever was stored and answers with it.
/// Blank content is refused, and the table is then left as it was.
pub fn save_content(table: &mut Table, content: String) -> (reply: Result<String, ServiceError>)
    ensures
        (final(table)@, text_reply(reply)) == old(table)@.write(content@),
{
    match write_statement(content.as_str()) {
        Ok(statement) => {
            table.execute(&statement);
            write_result(content, Ok(()))
        },
        Err(error) => Err(error),
    }
}

/// Deletes the record. Succeeds whether or not there was one.
pub fn delete_content(table: &mut Table) -> (reply: Result<(), ServiceError>)
    ensures
        (final(table)@, unit_reply(reply)) == old(table)@.delete(),
{
    let statement = delete_statement();
    table.execute(&statement);
    delete_result(Ok(()))
}

} // verus!
