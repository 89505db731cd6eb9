//! Naming of recorded schema migrations: each gets a version from the clock, debounced so
//! that versions never repeat.
use vstd::prelude::*;

use crate::list_records::{i64_text, signed_decimal};

verus! {

/// The version of the next migration: the clock's seconds, or one past the previous
/// version when the clock has not moved past it.
pub open spec fn next_version(prev: i64, now: i64) -> int {
    if now > prev {
        now as int
    } else {
        prev + 1
    }
}

/// Picks the version of a new migration given the previous one and the clock.
pub fn next_migration_version(prev: i64, now: i64) -> (r: i64)
    requires
        prev < i64::MAX,
    ensures
        r == next_version(prev, now),
        r > prev,
        r >= now,
{
    if now > prev {
        now
    } else {
        prev + 1
    }
}

/// Versions handed out one after the other strictly increase, whatever the clock says.
pub proof fn lemma_versions_increase(prev: i64, now0: i64, now1: i64)
    requires
        prev < i64::MAX - 1,
        next_version(prev, now0) < i64::MAX,
    ensures
        next_version(prev, now0) > prev,
        next_version(next_version(prev, now0) as i64, now1) > next_version(prev, now0),
{
}

/// The file name of a migration: `U<version>__<suffix>.sql`.
pub open spec fn migration_file_name(version: i64, suffix: Seq<char>) -> Seq<char> {
    "U"@ + signed_decimal(version) + "__"@ + suffix + ".sql"@
}

/// The file name of the migration with the given version and suffix.
pub fn migration_filename(version: i64, suffix: &str) -> (r: String)
    ensures
        r@ == migration_file_name(version, suffix@),
{
    let mut name = String::from_str("U");
    name.append(i64_text(version).as_str());
    name.append("__");
    name.append(suffix);
    name.append(".sql");
    name
}

} // verus!
