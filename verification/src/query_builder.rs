//! The parts of the record queries that do not come from templates: conflict clauses,
//! returned columns, deletes and file-column reads, and when written files must be cleaned
//! up.
use vstd::prelude::*;

use crate::text::{lemma_views_push, views};
use crate::validate::ConflictResolutionStrategy;

verus! {

/// The `OR ...` clause of an insert for a conflict strategy; none by default.
pub open spec fn conflict_clause_text(c: Option<ConflictResolutionStrategy>) -> Seq<char> {
    match c {
        Some(ConflictResolutionStrategy::Abort) => "OR ABORT"@,
        Some(ConflictResolutionStrategy::Rollback) => "OR ROLLBACK"@,
        Some(ConflictResolutionStrategy::Fail) => "OR FAIL"@,
        Some(ConflictResolutionStrategy::Ignore) => "OR IGNORE"@,
        Some(ConflictResolutionStrategy::Replace) => "OR REPLACE"@,
        _ => ""@,
    }
}

/// The conflict clause of each strategy: `OR ABORT`, `OR ROLLBACK`, `OR FAIL`,
/// `OR IGNORE` and `OR REPLACE`; none for an undefined or missing one.
pub proof fn lemma_conflict_clauses()
    ensures
        conflict_clause_text(Some(ConflictResolutionStrategy::Abort)) == "OR ABORT"@,
        conflict_clause_text(Some(ConflictResolutionStrategy::Rollback)) == "OR ROLLBACK"@,
        conflict_clause_text(Some(ConflictResolutionStrategy::Fail)) == "OR FAIL"@,
        conflict_clause_text(Some(ConflictResolutionStrategy::Ignore)) == "OR IGNORE"@,
        conflict_clause_text(Some(ConflictResolutionStrategy::Replace)) == "OR REPLACE"@,
        conflict_clause_text(Some(ConflictResolutionStrategy::Undefined)).len() == 0,
        conflict_clause_text(None).len() == 0,
{
    reveal_strlit("");
}

pub fn conflict_clause(c: Option<ConflictResolutionStrategy>) -> (r: &'static str)
    ensures
        r@ == conflict_clause_text(c),
{
    match c {
        Some(ConflictResolutionStrategy::Abort) => "OR ABORT",
        Some(ConflictResolutionStrategy::Rollback) => "OR ROLLBACK",
        Some(ConflictResolutionStrategy::Fail) => "OR FAIL",
        Some(ConflictResolutionStrategy::Ignore) => "OR IGNORE",
        Some(ConflictResolutionStrategy::Replace) => "OR REPLACE",
        _ => "",
    }
}

/// The columns an insert returns: the row id, then the given column.
pub fn returning_columns(return_column_name: Option<&str>) -> (r: Vec<String>)
    ensures
        views(r@) == match return_column_name {
            Some(c) => seq!["_rowid_"@, c@],
            None => seq!["_rowid_"@],
        },
{
    let mut r: Vec<String> = Vec::new();
    let rowid = String::from_str("_rowid_");
    proof {
        lemma_views_push(r@, rowid);
    }
    r.push(rowid);
    match return_column_name {
        Some(c) => {
            let col = String::from_str(c);
            proof {
                lemma_views_push(r@, col);
            }
            r.push(col);
        },
        None => {},
    }
    r
}

/// Whether an update has nothing to write: it sets at most the record key, which must
/// then come first.
pub fn update_is_noop(column_names: &Vec<String>, pk_column: &str) -> (r: bool)
    requires
        column_names@.len() == 1 ==> column_names@[0]@ == pk_column@,
    ensures
        r == (column_names@.len() < 2),
{
    column_names.len() < 2
}

/// The delete of a record by its key, returning its row id.
pub open spec fn delete_query_text(table: Seq<char>, pk: Seq<char>) -> Seq<char> {
    "DELETE FROM \""@ + table + "\" WHERE \""@ + pk + "\" = $1 RETURNING _rowid_"@
}

pub fn delete_record_query(table_name: &str, pk_column: &str) -> (r: String)
    ensures
        r@ == delete_query_text(table_name@, pk_column@),
{
    let mut q = String::from_str("DELETE FROM \"");
    q.append(table_name);
    q.append("\" WHERE \"");
    q.append(pk_column);
    q.append("\" = $1 RETURNING _rowid_");
    q
}

/// The read of one file column of a record by its key.
pub open spec fn file_column_query_text(column: Seq<char>, table: Seq<char>, pk: Seq<char>) -> Seq<char> {
    "SELECT \""@ + column + "\" FROM \""@ + table + "\" WHERE \""@ + pk + "\" = $1"@
}

pub fn file_column_query(column_name: &str, table_name: &str, pk_column: &str) -> (r: String)
    ensures
        r@ == file_column_query_text(column_name@, table_name@, pk_column@),
{
    let mut q = String::from_str("SELECT \"");
    q.append(column_name);
    q.append("\" FROM \"");
    q.append(table_name);
    q.append("\" WHERE \"");
    q.append(pk_column);
    q.append("\" = $1");
    q
}

/// Whether the files of replaced records must be deleted after an insert: when inserts
/// replace on conflict and the table has file columns.
pub fn replaced_files_need_cleanup(c: Option<ConflictResolutionStrategy>, has_file_columns: bool) -> (r: bool)
    ensures
        r == (c == Some(ConflictResolutionStrategy::Replace) && has_file_columns),
{
    match c {
        Some(ConflictResolutionStrategy::Replace) => has_file_columns,
        _ => false,
    }
}

} // verus!
