//! The statement text of the two writes.
//!
//! The writer issues exactly two statements per cycle, each a single atomic
//! statement, never wrapped in a shared transaction: the reserve insert and
//! the fill update. The rates table's name is configuration, so the text is
//! built around it here, with the values themselves always bound as the
//! placeholders `$1` and `$2`, never spliced into the text.

use vstd::prelude::*;
use vstd::string::*;

verus! {

/// The reserve statement for `table`: inserts `(timestamp, base)` as
/// `($1, $2)` with the pairs column left unset, returning the generated id.
pub fn insert_statement(table: &str) -> (s: String)
    ensures
        s@ == "INSERT INTO "@ + table@ + " (timestamp, base) VALUES ($1, $2) RETURNING id;"@,
{
    let mut s = String::from_str("INSERT INTO ");
    s.append(table);
    s.append(" (timestamp, base) VALUES ($1, $2) RETURNING id;");
    s
}

/// The fill statement for `table`: sets the pairs column to `$1` on the row
/// whose id is `$2`.
pub fn update_statement(table: &str) -> (s: String)
    ensures
        s@ == "UPDATE "@ + table@ + " SET pairs = $1 WHERE id = $2"@,
{
    let mut s = String::from_str("UPDATE ");
    s.append(table);
    s.append(" SET pairs = $1 WHERE id = $2");
    s
}

} // verus!
