//! `DROP INDEX CONCURRENTLY`, found by its text. PostgreSQL accepts the
//! statement; the SQL parser does not.

use crate::pattern::{is_match, pattern_matches};
use vstd::prelude::*;

verus! {

/// `DROP INDEX CONCURRENTLY`, in any letter case, the words separated by
/// white space.
pub const DROP_INDEX_CONCURRENTLY_PATTERN: &'static str = "(?i)DROP\\s+INDEX\\s+CONCURRENTLY";

/// Whether `sql` holds a `DROP INDEX CONCURRENTLY`.
pub fn contains_drop_index_concurrently(sql: &str) -> (r: bool)
    ensures
        r == pattern_matches(DROP_INDEX_CONCURRENTLY_PATTERN@, sql@),
{
    is_match(DROP_INDEX_CONCURRENTLY_PATTERN, sql)
}

} // verus!
