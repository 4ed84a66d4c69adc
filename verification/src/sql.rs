//! The text of the statements, as sequences of characters.
//!
//! Schema, table and field names, column lists and ordering clauses are
//! copied into the text as they are. Only values travel as parameters, so
//! every name handed to this library must come from trusted code.

use vstd::prelude::*;

verus! {

/// `"<schema>".<table>`: the one table a statement works on.
pub open spec fn relation(schema: Seq<char>, table: Seq<char>) -> Seq<char> {
    "\""@ + schema + "\"."@ + table
}

/// `SELECT <fields> FROM "<schema>".<table>`
pub open spec fn select_from(fields: Seq<char>, schema: Seq<char>, table: Seq<char>) -> Seq<char> {
    "SELECT "@ + fields + " FROM "@ + relation(schema, table)
}

/// `DELETE FROM "<schema>".<table>`
pub open spec fn delete_from(schema: Seq<char>, table: Seq<char>) -> Seq<char> {
    "DELETE FROM "@ + relation(schema, table)
}

/// ` WHERE <field> = $1`
pub open spec fn where_1(field: Seq<char>) -> Seq<char> {
    " WHERE "@ + field + " = $1"@
}

/// ` WHERE <first> = $1 AND <second> = $2`
pub open spec fn where_2(first: Seq<char>, second: Seq<char>) -> Seq<char> {
    where_1(first) + " AND "@ + second + " = $2"@
}

/// ` WHERE <first> = $1 AND <second> = $2 AND <third> = $3`
pub open spec fn where_3(first: Seq<char>, second: Seq<char>, third: Seq<char>) -> Seq<char> {
    where_2(first, second) + " AND "@ + third + " = $3"@
}

/// ` ORDER BY <order_by>` where an ordering is given, nothing where none is.
pub open spec fn order_clause(order_by: Option<Seq<char>>) -> Seq<char> {
    match order_by {
        Some(order_by) => " ORDER BY "@ + order_by,
        None => Seq::empty(),
    }
}

/// ` LIMIT 1`
pub open spec fn limit_one() -> Seq<char> {
    " LIMIT 1"@
}

} // verus!
