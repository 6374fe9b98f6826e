//! `ALTER TABLE ... ADD CONSTRAINT ... PRIMARY KEY USING INDEX ...`, found by
//! its text. PostgreSQL accepts the statement; the SQL parser does not.

use crate::pattern::{is_match, pattern_matches};
use vstd::prelude::*;

verus! {

/// `ALTER TABLE <table> ADD CONSTRAINT <name> PRIMARY KEY USING INDEX
/// <index>`, in any letter case, the words separated by white space.
pub const PRIMARY_KEY_USING_INDEX_PATTERN: &'static str =
    "(?i)ALTER\\s+TABLE\\s+\\S+\\s+ADD\\s+CONSTRAINT\\s+\\S+\\s+PRIMARY\\s+KEY\\s+USING\\s+INDEX\\s+\\S+";

/// Whether `sql` holds a constraint that is added `PRIMARY KEY USING INDEX`.
pub fn contains_primary_key_using_index(sql: &str) -> (r: bool)
    ensures
        r == pattern_matches(PRIMARY_KEY_USING_INDEX_PATTERN@, sql@),
{
    is_match(PRIMARY_KEY_USING_INDEX_PATTERN, sql)
}

} // verus!
