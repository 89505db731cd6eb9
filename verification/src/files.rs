//! The files that a record request wrote to the object store, which of them are
//! deleted again when the request does not commit, and which pending deletions of
//! uploaded files are tried again after a round of deleting.
use vstd::prelude::*;

verus! {

/// Files written ahead of a database write: unless released after the write succeeded,
/// they are deleted again when the manager is dropped.
#[derive(Debug)]
pub struct FileManager {
    cleanup: Vec<String>,
}

impl FileManager {
    /// The object paths deleted when the manager is dropped now.
    pub closed spec fn pending(&self) -> Seq<Seq<char>> {
        self.cleanup@.map_values(|p: String| p@)
    }

    /// A manager for no files.
    pub fn empty() -> (r: FileManager)
        ensures
            r.pending() == Seq::<Seq<char>>::empty(),
    {
        let r = FileManager { cleanup: Vec::new() };
        proof {
            assert(r.pending() =~= Seq::<Seq<char>>::empty());
        }
        r
    }

    /// A manager for the files written to `paths`, in the order they were written.
    pub fn written(paths: Vec<String>) -> (r: FileManager)
        ensures
            r.pending() == paths@.map_values(|p: String| p@),
    {
        FileManager { cleanup: paths }
    }

    /// Keeps the written files: the database write that refers to them succeeded.
    pub fn release(&mut self)
        ensures
            final(self).pending() == Seq::<Seq<char>>::empty(),
    {
        self.cleanup = Vec::new();
        proof {
            assert(self.pending() =~= Seq::<Seq<char>>::empty());
        }
    }

    /// The object paths to delete as the manager goes away.
    pub fn into_cleanup(self) -> (r: Vec<String>)
        ensures
            r@.map_values(|p: String| p@) == self.pending(),
    {
        self.cleanup
    }
}


/// How many failed attempts a pending deletion gets before it is abandoned.
pub const ATTEMPTS_LIMIT: i64 = 10;

/// A pending deletion of the files of one column of one record, as it is stored.
#[derive(Debug, PartialEq, Eq)]
pub struct FileDeletion {
    pub id: i64,
    pub deleted: i64,
    pub attempts: i64,
    pub errors: Option<String>,
    pub table_name: String,
    pub record_rowid: i64,
    pub column_name: String,
    pub json: String,
}

pub ghost struct FileDeletionV {
    pub id: i64,
    pub deleted: i64,
    pub attempts: i64,
    pub errors: Option<Seq<char>>,
    pub table_name: Seq<char>,
    pub record_rowid: i64,
    pub column_name: Seq<char>,
    pub json: Seq<char>,
}

impl View for FileDeletion {
    type V = FileDeletionV;

    open spec fn view(&self) -> FileDeletionV {
        FileDeletionV {
            id: self.id,
            deleted: self.deleted,
            attempts: self.attempts,
            errors: match self.errors {
                Some(e) => Some(e@),
                None => None,
            },
            table_name: self.table_name@,
            record_rowid: self.record_rowid,
            column_name: self.column_name@,
            json: self.json@,
        }
    }
}

/// What deleting one file from the object store came to.
#[derive(Debug, PartialEq, Eq)]
pub enum DeleteOutcome {
    Deleted,
    /// The file is not there: nothing is left to delete.
    NotFound,
    /// The path is not valid: no later attempt can do better.
    InvalidPath,
    /// Any other failure, with its message.
    Failed(String),
}

/// The deletion to store again after deleting one of its files came to `outcome`: only a
/// failure other than a missing file or an invalid path, and only while the attempts are
/// under the limit; it counts one attempt more and keeps the failure's message.
pub open spec fn retry_after(row: FileDeletionV, outcome: DeleteOutcome) -> Option<FileDeletionV> {
    match outcome {
        DeleteOutcome::Failed(msg) => if row.attempts < ATTEMPTS_LIMIT {
            Some(
                FileDeletionV {
                    id: row.id,
                    deleted: row.deleted,
                    attempts: (row.attempts + 1) as i64,
                    errors: Some(msg@),
                    table_name: row.table_name,
                    record_rowid: row.record_rowid,
                    column_name: row.column_name,
                    json: row.json,
                },
            )
        } else {
            None
        },
        _ => None,
    }
}

/// The deletions to store again for one pending deletion whose files came to `outs`, one
/// per failed file, in order.
pub open spec fn row_retries(row: FileDeletionV, outs: Seq<DeleteOutcome>) -> Seq<FileDeletionV>
    decreases outs.len(),
{
    if outs.len() == 0 {
        Seq::empty()
    } else {
        let prev = row_retries(row, outs.drop_last());
        match retry_after(row, outs.last()) {
            Some(r) => prev.push(r),
            None => prev,
        }
    }
}

/// The deletions to store again after a round over `rows`, whose files came to `outs`
/// (row by row), in order.
pub open spec fn retries(rows: Seq<FileDeletionV>, outs: Seq<Seq<DeleteOutcome>>) -> Seq<FileDeletionV>
    decreases rows.len(),
{
    if rows.len() == 0 || outs.len() == 0 {
        Seq::empty()
    } else {
        retries(rows.drop_last(), outs.drop_last()) + row_retries(rows.last(), outs.last())
    }
}

pub open spec fn views(s: Seq<FileDeletion>) -> Seq<FileDeletionV> {
    s.map_values(|d: FileDeletion| d@)
}

fn retried(row: &FileDeletion, msg: &String) -> (r: FileDeletion)
    requires
        row.attempts < ATTEMPTS_LIMIT,
    ensures
        Some(r@) == retry_after(row@, DeleteOutcome::Failed(*msg)),
{
    FileDeletion {
        id: row.id,
        deleted: row.deleted,
        attempts: row.attempts + 1,
        errors: Some(msg.clone()),
        table_name: row.table_name.clone(),
        record_rowid: row.record_rowid,
        column_name: row.column_name.clone(),
        json: row.json.clone(),
    }
}

/// After a round of deleting the files of each of `pending` from the object store, where
/// `outcomes[i]` holds what deleting each file of `pending[i]` came to, the deletions to
/// store again and try later.
pub fn deletions_to_retry(pending: &Vec<FileDeletion>, outcomes: &Vec<Vec<DeleteOutcome>>) -> (r: Vec<
    FileDeletion,
>)
    requires
        pending.len() == outcomes.len(),
    ensures
        views(r@) == retries(views(pending@), outcomes@.map_values(|o: Vec<DeleteOutcome>| o@)),
{
    let ghost outs = outcomes@.map_values(|o: Vec<DeleteOutcome>| o@);
    let mut out: Vec<FileDeletion> = Vec::new();
    let mut i: usize = 0;
    proof {
        assert(views(pending@).take(0) =~= Seq::<FileDeletionV>::empty());
        assert(views(out@) =~= Seq::<FileDeletionV>::empty());
    }
    while i < pending.len()
        invariant
            pending.len() == outcomes.len(),
            i <= pending.len(),
            outs == outcomes@.map_values(|o: Vec<DeleteOutcome>| o@),
            views(out@) == retries(views(pending@).take(i as int), outs.take(i as int)),
        decreases pending.len() - i,
    {
        let row = &pending[i];
        let files = &outcomes[i];
        let ghost before = views(out@);
        let mut j: usize = 0;
        proof {
            assert(files@.take(0) =~= Seq::<DeleteOutcome>::empty());
            assert(before + row_retries(row@, files@.take(0)) =~= before);
        }
        while j < files.len()
            invariant
                j <= files@.len(),
                views(out@) == before + row_retries(row@, files@.take(j as int)),
            decreases files.len() - j,
        {
            proof {
                assert(files@.take(j + 1).drop_last() =~= files@.take(j as int));
                assert(files@.take(j + 1).last() == files@[j as int]);
            }
            if let DeleteOutcome::Failed(msg) = &files[j] {
                if row.attempts < ATTEMPTS_LIMIT {
                    let ghost mid = out@;
                    let d = retried(row, msg);
                    out.push(d);
                    proof {
                        assert(views(out@) =~= views(mid).push(d@));
                    }
                }
            }
            j += 1;
        }
        proof {
            assert(files@.take(j as int) =~= files@);
            let rows = views(pending@).take(i + 1);
            let os = outs.take(i + 1);
            assert(rows.drop_last() =~= views(pending@).take(i as int));
            assert(os.drop_last() =~= outs.take(i as int));
            assert(rows.last() == row@);
            assert(os.last() == files@);
        }
        i += 1;
    }
    proof {
        assert(views(pending@).take(i as int) =~= views(pending@));
        assert(outs.take(i as int) =~= outs);
    }
    out
}

} // verus!
