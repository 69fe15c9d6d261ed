//! What holds of the operations taken together, whatever is stored.

use vstd::prelude::*;
use crate::service::{ServiceErrorView, EMPTY_DATABASE};
use crate::store::{initialized, TableView};
use crate::text::{all_white_space, is_blank, lemma_blank_is_all_white_space};

verus! {

/// A write succeeds exactly when its content is not blank, and then answers
/// with the content as it was given.
pub proof fn write_succeeds_unless_blank(table: TableView, content: Seq<char>)
    ensures
        table.write(content).1 is Ok <==> !is_blank(content),
        !is_blank(content) ==> table.write(content).1 == Ok::<Seq<char>, ServiceErrorView>(
            content,
        ),
{
}

/// After a write that succeeded, a read answers with exactly the content
/// that was written, whatever was stored before.
pub proof fn read_after_write(table: TableView, content: Seq<char>)
    requires
        table.write(content).1 is Ok,
    ensures
        table.write(content).0.read() == Ok::<Seq<char>, ServiceErrorView>(content),
{
}

/// A write of blank content, and so of any content that is white space
/// alone, fails with `Empty` and leaves the table as it was, so that a read
/// answers as it did before.
pub proof fn blank_write_changes_nothing(table: TableView, content: Seq<char>)
    requires
        is_blank(content) || all_white_space(content),
    ensures
        table.write(content).1 == Err::<Seq<char>, ServiceErrorView>(ServiceErrorView::Empty),
        table.write(content).0 == table,
        table.write(content).0.read() == table.read(),
{
    lemma_blank_is_all_white_space(content);
}

/// After a delete, a read answers `EMPTY_DATABASE`, whatever was stored
/// before.
pub proof fn read_after_delete(table: TableView)
    ensures
        table.delete().1 is Ok,
        table.delete().0.read() == Ok::<Seq<char>, ServiceErrorView>(EMPTY_DATABASE@),
{
}

/// A delete where nothing is stored succeeds and changes nothing.
pub proof fn delete_of_nothing(table: TableView)
    requires
        table.row is None,
    ensures
        table.delete().1 is Ok,
        table.delete().0 == table,
{
}

/// A read where nothing is stored answers `EMPTY_DATABASE` and is no error.
pub proof fn read_of_nothing(table: TableView)
    requires
        table.row is None,
    ensures
        table.read() == Ok::<Seq<char>, ServiceErrorView>(EMPTY_DATABASE@),
{
}

/// Initialising the schema a second time changes nothing: the table that the
/// first run made or found is there after the second, with the same rows.
/// A table that was there before the first run is unchanged by it too.
pub proof fn schema_initialization_is_idempotent(database: Option<TableView>)
    ensures
        initialized(database) is Some,
        initialized(initialized(database)) == initialized(database),
        database is Some ==> initialized(database) == database,
{
}

} // verus!
