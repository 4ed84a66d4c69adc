//! What an operation asks of the client.

use vstd::prelude::*;

verus! {

/// The capability of the client that a statement is meant for.
#[derive(Debug, Clone, Copy, PartialEq, Eq, Structural)]
pub enum ClientCall {
    /// Run the statement and hand back every row, in the store's order.
    Query,
    /// Run the statement and hand back one row, or none.
    QueryOptional,
    /// Run the statement and hand back the number of rows it affected.
    Execute,
}

/// A statement ready to be sent: its text, the number of values to bind to
/// the placeholders `$1`, `$2`, ... in that text, and the call to make.
#[derive(Debug, Clone, PartialEq, Eq)]
pub struct Statement {
    pub sql: String,
    pub params: usize,
    pub call: ClientCall,
}

/// The mathematical content of a [`Statement`].
pub ghost struct StatementView {
    pub sql: Seq<char>,
    pub params: nat,
    pub call: ClientCall,
}

impl View for Statement {
    type V = StatementView;

    open spec fn view(&self) -> StatementView {
        StatementView { sql: self.sql@, params: self.params as nat, call: self.call }
    }
}

/// A statement whose rows are all wanted.
pub open spec fn all_rows(sql: Seq<char>, params: nat) -> StatementView {
    StatementView { sql, params, call: ClientCall::Query }
}

/// A statement of which one row is wanted, if there is any.
pub open spec fn one_row(sql: Seq<char>, params: nat) -> StatementView {
    StatementView { sql, params, call: ClientCall::QueryOptional }
}

/// A statement that writes, and of which the affected-row count is wanted.
pub open spec fn affected(sql: Seq<char>, params: nat) -> StatementView {
    StatementView { sql, params, call: ClientCall::Execute }
}

} // verus!
