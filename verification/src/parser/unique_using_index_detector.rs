//! `ALTER TABLE ... ADD CONSTRAINT ... UNIQUE USING INDEX ...`, found by its
//! text. PostgreSQL accepts the statement; the SQL parser does not.

use crate::pattern::{is_match, pattern_matches};
use vstd::prelude::*;

verus! {

/// `ALTER TABLE <table> ADD CONSTRAINT <name> UNIQUE USING INDEX <index>`, in
/// any letter case, the words separated by white space.
pub const UNIQUE_USING_INDEX_PATTERN: &'static str =
    "(?i)ALTER\\s+TABLE\\s+\\S+\\s+ADD\\s+CONSTRAINT\\s+\\S+\\s+UNIQUE\\s+USING\\s+INDEX\\s+\\S+";

/// Whether `sql` holds a constraint that is added `UNIQUE USING INDEX`.
pub fn contains_unique_using_index(sql: &str) -> (r: bool)
    ensures
        r == pattern_matches(UNIQUE_USING_INDEX_PATTERN@, sql@),
{
    is_match(UNIQUE_USING_INDEX_PATTERN, sql)
}

} // verus!
