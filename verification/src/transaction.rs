//! The log of a recorded schema transaction and the migration script made from it.
use vstd::prelude::*;

use crate::text::{join, lemma_views_push, seq_join, views};

verus! {

/// Whether a recorded statement was run as a query or executed.
#[derive(Clone, Copy, Debug, PartialEq, Eq)]
pub enum QueryType {
    Query,
    Execute,
}

/// The statements of a rolled-back schema transaction, with their parameters expanded.
#[derive(Clone, Debug, PartialEq)]
pub struct TransactionLog {
    log: Vec<(QueryType, String)>,
}

/// The text that `sqlformat::format`, without parameters, gives for `sql` when indenting
/// by `indent` spaces, upper-casing keywords when `uppercase` holds, and leaving
/// `lines_between` line breaks between statements.
pub uninterp spec fn formatted_sql(sql: Seq<char>, indent: u8, uppercase: bool, lines_between: u8) -> Seq<char>;

/// `sqlformat::format` with no parameters and the given indentation, keyword case and
/// spacing between statements; other options at their defaults.
#[verifier::external_body]
fn format_sql(sql: &str, indent: u8, uppercase: bool, lines_between: u8) -> (r: String)
    ensures
        r@ == formatted_sql(sql@, indent, uppercase, lines_between),
{
    sqlformat::format(
        sql,
        &sqlformat::QueryParams::None,
        &sqlformat::FormatOptions {
            indent: sqlformat::Indent::Spaces(indent),
            uppercase: Some(uppercase),
            lines_between_queries: lines_between,
            ignore_case_convert: None,
            ..Default::default()
        },
    )
}

/// A statement as a line of a script: empty statements are left out, the others end in `;`.
pub open spec fn script_line(stmt: Seq<char>) -> Option<Seq<char>> {
    if stmt.len() == 0 {
        None
    } else if stmt.last() == ';' {
        Some(stmt)
    } else {
        Some(stmt.push(';'))
    }
}

/// The lines of a script made of the statements, in order.
pub open spec fn script_lines(stmts: Seq<(QueryType, String)>) -> Seq<Seq<char>>
    decreases stmts.len(),
{
    if stmts.len() == 0 {
        seq![]
    } else {
        let init = script_lines(stmts.drop_last());
        match script_line(stmts.last().1@) {
            Some(l) => init.push(l),
            None => init,
        }
    }
}

/// The statements as one script, a statement per line.
pub open spec fn script_of(stmts: Seq<(QueryType, String)>) -> Seq<char> {
    seq_join(script_lines(stmts), seq!['\n'])
}

/// Indentation, in spaces, of migration scripts.
pub const MIGRATION_INDENT: u8 = 4;

/// Line breaks between the statements of migration scripts.
pub const MIGRATION_LINES_BETWEEN: u8 = 2;

impl View for TransactionLog {
    type V = Seq<(QueryType, String)>;

    closed spec fn view(&self) -> Seq<(QueryType, String)> {
        self.log@
    }
}

impl TransactionLog {
    /// The log of a rolled-back transaction: none when no statement was recorded.
    pub fn from_recorded(log: Vec<(QueryType, String)>) -> (r: Option<TransactionLog>)
        ensures
            log@.len() == 0 ==> r is None,
            log@.len() > 0 ==> (r matches Some(t) && t@ == log@),
    {
        if log.len() == 0 {
            None
        } else {
            Some(TransactionLog { log })
        }
    }

    /// The recorded statements in order.
    pub fn entries(&self) -> (r: &Vec<(QueryType, String)>)
        ensures
            r@ == self@,
    {
        &self.log
    }

    /// The recorded statements as one script: empty statements are left out, the others
    /// end in `;`, one per line.
    pub fn sql_script(&self) -> (r: String)
        ensures
            r@ == script_of(self@),
    {
        let mut lines: Vec<String> = Vec::new();
        let mut i: usize = 0;
        proof {
            assert(self.log@.take(0) =~= Seq::<(QueryType, String)>::empty());
            assert(views(lines@) =~= Seq::<Seq<char>>::empty());
        }
        while i < self.log.len()
            invariant
                i <= self.log@.len(),
                views(lines@) == script_lines(self.log@.take(i as int)),
            decreases self.log.len() - i,
        {
            let stmt = self.log[i].1.as_str();
            proof {
                assert(self.log@.take(i + 1).drop_last() =~= self.log@.take(i as int));
                assert(self.log@.take(i + 1).last() == self.log@[i as int]);
            }
            let n = stmt.unicode_len();
            if n > 0 {
                let mut line = String::from_str(stmt);
                if stmt.get_char(n - 1) != ';' {
                    crate::text::push_char(&mut line, ';');
                }
                proof {
                    lemma_views_push(lines@, line);
                }
                lines.push(line);
            }
            i += 1;
        }
        proof {
            assert(self.log@.take(i as int) =~= self.log@);
        }
        let r = join(&lines, "\n");
        proof {
            assert("\n"@ =~= seq!['\n']) by {
                reveal_strlit("\n");
            }
        }
        r
    }

    /// The migration made of the log: its script formatted with four-space indentation,
    /// upper-case keywords and a blank line between statements.
    pub fn migration_sql(&self) -> (r: String)
        ensures
            r@ == formatted_sql(script_of(self@), MIGRATION_INDENT, true, MIGRATION_LINES_BETWEEN),
    {
        let script = self.sql_script();
        format_sql(script.as_str(), MIGRATION_INDENT, true, MIGRATION_LINES_BETWEEN)
    }
}

} // verus!
