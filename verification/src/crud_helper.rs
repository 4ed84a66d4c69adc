//! The helper: which statement each operation sends, and what each
//! operation makes of the reply.

use std::fmt::Display;
use vstd::prelude::*;
use vstd::string::*;
use crate::crudy_error::{is_no_data, CrudyError};
use crate::identifier::{parse_uuid, parsed_uuid};
use crate::sql::{
    delete_from, limit_one, order_clause, select_from, where_1, where_2, where_3,
};
use crate::statement::{affected, all_rows, one_row, ClientCall, Statement};

verus! {

/// Builds the statements of the CRUD operations for the tables of one schema.
#[derive(Debug, Clone)]
pub struct CrudHelper {
    pub schema: String,
}

impl View for CrudHelper {
    type V = Seq<char>;

    /// The schema's name.
    open spec fn view(&self) -> Seq<char> {
        self.schema@
    }
}

/// The characters of an ordering, where one is given.
pub open spec fn ordering(order_by: Option<&str>) -> Option<Seq<char>> {
    match order_by {
        Some(order_by) => Some(order_by@),
        None => None,
    }
}

/// `from_row` can make `items` of `rows`, one of each and in their order.
pub open spec fn maps_to<R, T, F: Fn(R) -> Result<T, tokio_pg_mapper::Error>>(
    from_row: F,
    rows: Seq<R>,
    items: Seq<T>,
) -> bool {
    &&& items.len() == rows.len()
    &&& forall|i: int|
        #![trigger rows[i]]
        #![trigger items[i]]
        0 <= i < rows.len() ==> call_ensures(from_row, (rows[i],), Ok(items[i]))
}

/// `from_row` can make an entity of each row before `rows[at]` and then
/// refuse `rows[at]` with `error`.
pub open spec fn fails_at<R, T, F: Fn(R) -> Result<T, tokio_pg_mapper::Error>>(
    from_row: F,
    rows: Seq<R>,
    at: int,
    error: tokio_pg_mapper::Error,
) -> bool {
    &&& 0 <= at < rows.len()
    &&& exists|items: Seq<T>| #[trigger] maps_to(from_row, rows.take(at), items)
    &&& call_ensures(from_row, (rows[at],), Err(error))
}

impl CrudHelper {
    /// A helper for the schema `public`.
    pub fn new() -> (helper: Self)
        ensures
            helper@ == "public"@,
    {
        CrudHelper { schema: String::from_str("public") }
    }

    /// A helper for the schema of the given name, which is taken as it is.
    pub fn with_schema(schema: &str) -> (helper: Self)
        ensures
            helper@ == schema@,
    {
        CrudHelper { schema: String::from_str(schema) }
    }

    /// Every row of the table, in the order in which the store hands them out.
    pub fn get_all(&self, table: &str) -> (statement: Statement)
        ensures
            statement@ == all_rows(select_from("*"@, self@, table@), 0),
    {
        Statement { sql: self.select("*", table), params: 0, call: ClientCall::Query }
    }

    /// Every row of the table, ordered as `order_by` says.
    pub fn get_all_ordered(&self, table: &str, order_by: &str) -> (statement: Statement)
        ensures
            statement@ == all_rows(
                select_from("*"@, self@, table@) + order_clause(Some(order_by@)),
                0,
            ),
    {
        let mut sql = self.select("*", table);
        Self::order(&mut sql, Some(order_by));
        Statement { sql, params: 0, call: ClientCall::Query }
    }

    /// The first row that the store hands out for the table, if it has any.
    pub fn get_first(&self, table: &str) -> (statement: Statement)
        ensures
            statement@ == one_row(select_from("*"@, self@, table@) + limit_one(), 0),
    {
        let mut sql = self.select("*", table);
        sql.append(" LIMIT 1");
        Statement { sql, params: 0, call: ClientCall::QueryOptional }
    }

    /// Every row whose `by_field` equals the one bound value.
    pub fn get_many_by(&self, table: &str, by_field: &str, order_by: Option<&str>) -> (statement:
        Statement)
        ensures
            statement@ == all_rows(
                select_from("*"@, self@, table@) + where_1(by_field@) + order_clause(
                    ordering(order_by),
                ),
                1,
            ),
    {
        self.query_by(table, "*", by_field, order_by)
    }

    /// Every row whose two fields equal the two bound values, in that order.
    pub fn get_many_by_2(
        &self,
        table: &str,
        by_field_1: &str,
        by_field_2: &str,
        order_by: Option<&str>,
    ) -> (statement: Statement)
        ensures
            statement@ == all_rows(
                select_from("*"@, self@, table@) + where_2(by_field_1@, by_field_2@)
                    + order_clause(ordering(order_by)),
                2,
            ),
    {
        self.query_by_2(table, "*", by_field_1, by_field_2, order_by)
    }

    /// The row whose `id` equals the one bound value.
    pub fn get(&self, table: &str) -> (statement: Statement)
        ensures
            statement@ == one_row(select_from("*"@, self@, table@) + where_1("id"@), 1),
    {
        self.get_by(table, "id")
    }

    /// The columns `fields` of the row whose `id` equals the one bound value.
    pub fn get_specific_fields(&self, table: &str, fields: &str) -> (statement: Statement)
        ensures
            statement@ == one_row(select_from(fields@, self@, table@) + where_1("id"@), 1),
    {
        self.get_specific_fields_by(table, fields, "id")
    }

    /// The row whose `field` equals the one bound value.
    pub fn get_by(&self, table: &str, field: &str) -> (statement: Statement)
        ensures
            statement@ == one_row(select_from("*"@, self@, table@) + where_1(field@), 1),
    {
        self.query_opt_by(table, "*", field)
    }

    /// The row whose two fields equal the two bound values, in that order.
    pub fn get_by_2(&self, table: &str, field_1: &str, field_2: &str) -> (statement: Statement)
        ensures
            statement@ == one_row(
                select_from("*"@, self@, table@) + where_2(field_1@, field_2@),
                2,
            ),
    {
        self.query_opt_by_2(table, "*", field_1, field_2)
    }

    /// The row whose three fields equal the three bound values, in that order.
    pub fn get_by_3(&self, table: &str, field_1: &str, field_2: &str, field_3: &str) -> (statement:
        Statement)
        ensures
            statement@ == one_row(
                select_from("*"@, self@, table@) + where_3(field_1@, field_2@, field_3@),
                3,
            ),
    {
        self.query_opt_by_3(table, "*", field_1, field_2, field_3)
    }

    /// The columns `fields` of the row whose `field` equals the one bound value.
    pub fn get_specific_fields_by(&self, table: &str, fields: &str, field: &str) -> (statement:
        Statement)
        ensures
            statement@ == one_row(select_from(fields@, self@, table@) + where_1(field@), 1),
    {
        self.query_opt_by(table, fields, field)
    }

    /// Removes the row whose `id` equals the one bound value.
    pub fn delete(&self, table: &str) -> (statement: Statement)
        ensures
            statement@ == affected(delete_from(self@, table@) + where_1("id"@), 1),
    {
        let mut sql = String::from_str("DELETE FROM ");
        self.relation(&mut sql, table);
        Self::filter(&mut sql, "id");
        assert(sql@ =~= delete_from(self@, table@) + where_1("id"@));
        Statement { sql, params: 1, call: ClientCall::Execute }
    }

    /// The row whose `id` equals the UUID that `id` spells, together with that
    /// UUID as a number, which is the one value to bind. Text that spells no
    /// UUID is refused, and then there is no statement to send.
    pub fn get_by_str_id(&self, table: &str, id: &str) -> (planned: Result<
        (Statement, u128),
        CrudyError,
    >)
        ensures
            match planned {
                Ok((statement, key)) => {
                    &&& parsed_uuid(id@) == Some(key)
                    &&& statement@ == one_row(
                        select_from("*"@, self@, table@) + where_1("id"@),
                        1,
                    )
                },
                Err(error) => parsed_uuid(id@) is None && error is ParseUuidError,
            },
    {
        self.get_by_parsed_id(table, parse_uuid(id))
    }

    /// What [`CrudHelper::get_by_str_id`] does once the text has been read:
    /// the statement for the UUID that was read, or the failure to read one.
    pub fn get_by_parsed_id(&self, table: &str, parsed: Result<u128, uuid::Error>) -> (planned:
        Result<(Statement, u128), CrudyError>)
        ensures
            match parsed {
                Ok(key) => {
                    &&& planned matches Ok((statement, bound))
                    &&& bound == key
                    &&& statement@ == one_row(
                        select_from("*"@, self@, table@) + where_1("id"@),
                        1,
                    )
                },
                Err(error) => planned matches Err(CrudyError::ParseUuidError(refusal))
                    && refusal == error,
            },
    {
        match parsed {
            Ok(key) => Ok((self.get_by(table, "id"), key)),
            Err(error) => Err(CrudyError::from(error)),
        }
    }

    /// The entity that [`CrudHelper::get`] found, or the error that says for
    /// which table and which `id` it found none. A failure is handed on.
    pub fn get_one<T, I>(&self, table: &str, id: &I, found: Result<Option<T>, CrudyError>) -> (one:
        Result<T, CrudyError>) where I: Display + ?Sized
        ensures
            match found {
                Ok(Some(item)) => one == Ok::<T, CrudyError>(item),
                Ok(None) => one matches Err(error) && is_no_data(error, table@, id),
                Err(error) => one == Err::<T, CrudyError>(error),
            },
    {
        match found {
            Ok(Some(item)) => Ok(item),
            Ok(None) => Err(CrudyError::new_no_data_error(table, id)),
            Err(error) => Err(error),
        }
    }

    /// The entities that `from_row` makes of the rows that the client handed
    /// out for a [`ClientCall::Query`], in the client's order. A failure of
    /// the client is handed on, and one row that `from_row` refuses fails
    /// the whole reply. No rows are no failure.
    pub fn query<R, T, F>(&self, fetched: Result<Vec<R>, tokio_postgres::Error>, from_row: F) -> (found:
        Result<Vec<T>, CrudyError>) where F: Fn(R) -> Result<T, tokio_pg_mapper::Error>
        requires
            fetched matches Ok(rows) ==> forall|i: int|
                0 <= i < rows@.len() ==> call_requires(from_row, (#[trigger] rows@[i],)),
        ensures
            match fetched {
                Ok(rows) => match found {
                    Ok(items) => maps_to(from_row, rows@, items@),
                    Err(CrudyError::PostgresMapperError(error)) => exists|at: int|
                        fails_at(from_row, rows@, at, error),
                    Err(_) => false,
                },
                Err(error) => found matches Err(CrudyError::PostgresError(failure))
                    && failure == error,
            },
            fetched matches Ok(rows) && rows@.len() == 0 ==> (found matches Ok(items)
                && items@.len() == 0),
    {
        match fetched {
            Ok(rows) => match Self::map_rows(rows, from_row) {
                Ok(items) => Ok(items),
                Err(error) => {
                    let found: Result<Vec<T>, CrudyError> = Err(CrudyError::from(error));
                    assert(found matches Err(CrudyError::PostgresMapperError(refusal)) && refusal
                        == error);
                    found
                },
            },
            Err(error) => Err(CrudyError::from(error)),
        }
    }

    /// The entity that `from_row` makes of the row that the client handed
    /// out for a [`ClientCall::QueryOptional`], or `None` where it handed
    /// out none, which is no failure. A failure of the client is handed on.
    pub fn query_opt<R, T, F>(
        &self,
        fetched: Result<Option<R>, tokio_postgres::Error>,
        from_row: F,
    ) -> (found: Result<Option<T>, CrudyError>) where
        F: Fn(R) -> Result<T, tokio_pg_mapper::Error>,

        requires
            fetched matches Ok(Some(row)) ==> call_requires(from_row, (row,)),
        ensures
            match fetched {
                Ok(Some(row)) => match found {
                    Ok(Some(item)) => call_ensures(from_row, (row,), Ok(item)),
                    Err(CrudyError::PostgresMapperError(error)) => call_ensures(
                        from_row,
                        (row,),
                        Err(error),
                    ),
                    _ => false,
                },
                Ok(None) => found matches Ok(None),
                Err(error) => found matches Err(CrudyError::PostgresError(failure))
                    && failure == error,
            },
    {
        match fetched {
            Ok(Some(row)) => match from_row(row) {
                Ok(item) => Ok(Some(item)),
                Err(error) => Err(CrudyError::from(error)),
            },
            Ok(None) => Ok(None),
            Err(error) => Err(CrudyError::from(error)),
        }
    }

    /// The number of rows that a [`ClientCall::Execute`] affected, as the
    /// client counted them. None affected is no failure. A failure of the
    /// client is handed on.
    pub fn execute(&self, outcome: Result<u64, tokio_postgres::Error>) -> (count: Result<
        u64,
        CrudyError,
    >)
        ensures
            match outcome {
                Ok(affected) => count == Ok::<u64, CrudyError>(affected),
                Err(error) => count matches Err(CrudyError::PostgresError(failure))
                    && failure == error,
            },
    {
        match outcome {
            Ok(count) => Ok(count),
            Err(error) => Err(CrudyError::from(error)),
        }
    }

    /// What follows a write that had to change the row of one `id`: the
    /// statement that fetches that row again, where the write changed a row.
    /// A write that changed none is a failure, and a failure of the client
    /// is handed on.
    pub fn execute_for_id(&self, table: &str, written: Result<u64, tokio_postgres::Error>) -> (next:
        Result<Statement, CrudyError>)
        ensures
            match written {
                Ok(count) => if count == 0 {
                    next matches Err(CrudyError::NoRowsAffected)
                } else {
                    next matches Ok(statement) && statement@ == one_row(
                        select_from("*"@, self@, table@) + where_1("id"@),
                        1,
                    )
                },
                Err(error) => next matches Err(CrudyError::PostgresError(failure))
                    && failure == error,
            },
    {
        match written {
            Ok(count) => if count == 0 {
                Err(CrudyError::NoRowsAffected)
            } else {
                Ok(self.get(table))
            },
            Err(error) => Err(CrudyError::from(error)),
        }
    }

    /// Maps each row to an entity, in order, and stops at the first row that
    /// `from_row` refuses.
    pub fn map_rows<R, T, F>(rows: Vec<R>, from_row: F) -> (mapped: Result<
        Vec<T>,
        tokio_pg_mapper::Error,
    >) where F: Fn(R) -> Result<T, tokio_pg_mapper::Error>
        requires
            forall|i: int| 0 <= i < rows@.len() ==> call_requires(from_row, (#[trigger] rows@[i],)),
        ensures
            match mapped {
                Ok(items) => maps_to(from_row, rows@, items@),
                Err(error) => exists|at: int| fails_at(from_row, rows@, at, error),
            },
            rows@.len() == 0 ==> (mapped matches Ok(items) && items@.len() == 0),
    {
        let ghost all = rows@;
        let mut items: Vec<T> = Vec::new();
        for row in it: rows.into_iter()
            invariant
                it.seq() == all,
                all == rows@,
                forall|i: int| 0 <= i < all.len() ==> call_requires(from_row, (#[trigger] all[i],)),
                maps_to(from_row, all.take(it.index() as int), items@),
        {
            let ghost at = it.index() as int;
            let ghost before = items@;
            assert(row == all[at]);
            match from_row(row) {
                Ok(item) => {
                    items.push(item);
                    assert(maps_to(from_row, all.take(at + 1), items@)) by {
                        assert forall|i: int| 0 <= i < at + 1 implies call_ensures(
                            from_row,
                            (#[trigger] all.take(at + 1)[i],),
                            Ok(items@[i]),
                        ) by {
                            if i < at {
                                assert(all.take(at)[i] == all[i]);
                                assert(items@[i] == before[i]);
                            }
                        }
                    }
                },
                Err(error) => {
                    assert(fails_at(from_row, all, at, error));
                    let mapped: Result<Vec<T>, tokio_pg_mapper::Error> = Err(error);
                    assert(mapped matches Err(refusal) && refusal == error);
                    return mapped;
                },
            }
        }
        assert(all.take(all.len() as int) =~= all);
        Ok(items)
    }

    fn query_opt_by(&self, table: &str, fields: &str, by_field: &str) -> (statement: Statement)
        ensures
            statement@ == one_row(select_from(fields@, self@, table@) + where_1(by_field@), 1),
    {
        let mut sql = self.select(fields, table);
        Self::filter(&mut sql, by_field);
        Statement { sql, params: 1, call: ClientCall::QueryOptional }
    }

    fn query_opt_by_2(&self, table: &str, fields: &str, by_field_1: &str, by_field_2: &str) -> (statement:
        Statement)
        ensures
            statement@ == one_row(
                select_from(fields@, self@, table@) + where_2(by_field_1@, by_field_2@),
                2,
            ),
    {
        let mut sql = self.select(fields, table);
        Self::filter_2(&mut sql, by_field_1, by_field_2);
        Statement { sql, params: 2, call: ClientCall::QueryOptional }
    }

    fn query_opt_by_3(
        &self,
        table: &str,
        fields: &str,
        by_field_1: &str,
        by_field_2: &str,
        by_field_3: &str,
    ) -> (statement: Statement)
        ensures
            statement@ == one_row(
                select_from(fields@, self@, table@) + where_3(
                    by_field_1@,
                    by_field_2@,
                    by_field_3@,
                ),
                3,
            ),
    {
        let mut sql = self.select(fields, table);
        Self::filter_3(&mut sql, by_field_1, by_field_2, by_field_3);
        Statement { sql, params: 3, call: ClientCall::QueryOptional }
    }

    fn query_by(&self, table: &str, fields: &str, by_field: &str, order_by: Option<&str>) -> (statement:
        Statement)
        ensures
            statement@ == all_rows(
                select_from(fields@, self@, table@) + where_1(by_field@) + order_clause(
                    ordering(order_by),
                ),
                1,
            ),
    {
        let mut sql = self.select(fields, table);
        Self::filter(&mut sql, by_field);
        Self::order(&mut sql, order_by);
        Statement { sql, params: 1, call: ClientCall::Query }
    }

    fn query_by_2(
        &self,
        table: &str,
        fields: &str,
        by_field_1: &str,
        by_field_2: &str,
        order_by: Option<&str>,
    ) -> (statement: Statement)
        ensures
            statement@ == all_rows(
                select_from(fields@, self@, table@) + where_2(by_field_1@, by_field_2@)
                    + order_clause(ordering(order_by)),
                2,
            ),
    {
        let mut sql = self.select(fields, table);
        Self::filter_2(&mut sql, by_field_1, by_field_2);
        Self::order(&mut sql, order_by);
        Statement { sql, params: 2, call: ClientCall::Query }
    }

    /// Appends `"<schema>".<table>`.
    fn relation(&self, sql: &mut String, table: &str)
        ensures
            final(sql)@ == old(sql)@ + crate::sql::relation(self@, table@),
    {
        sql.append("\"");
        sql.append(self.schema.as_str());
        sql.append("\".");
        sql.append(table);
        assert(sql@ =~= old(sql)@ + crate::sql::relation(self@, table@));
    }

    /// `SELECT <fields> FROM "<schema>".<table>`
    fn select(&self, fields: &str, table: &str) -> (sql: String)
        ensures
            sql@ == select_from(fields@, self@, table@),
    {
        let mut sql = String::from_str("SELECT ");
        sql.append(fields);
        sql.append(" FROM ");
        self.relation(&mut sql, table);
        assert(sql@ =~= select_from(fields@, self@, table@));
        sql
    }

    /// Appends ` WHERE <field> = $1`.
    fn filter(sql: &mut String, field: &str)
        ensures
            final(sql)@ == old(sql)@ + where_1(field@),
    {
        sql.append(" WHERE ");
        sql.append(field);
        sql.append(" = $1");
        assert(sql@ =~= old(sql)@ + where_1(field@));
    }

    /// Appends ` WHERE <first> = $1 AND <second> = $2`.
    fn filter_2(sql: &mut String, first: &str, second: &str)
        ensures
            final(sql)@ == old(sql)@ + where_2(first@, second@),
    {
        Self::filter(sql, first);
        sql.append(" AND ");
        sql.append(second);
        sql.append(" = $2");
        assert(sql@ =~= old(sql)@ + where_2(first@, second@));
    }

    /// Appends ` WHERE <first> = $1 AND <second> = $2 AND <third> = $3`.
    fn filter_3(sql: &mut String, first: &str, second: &str, third: &str)
        ensures
            final(sql)@ == old(sql)@ + where_3(first@, second@, third@),
    {
        Self::filter_2(sql, first, second);
        sql.append(" AND ");
        sql.append(third);
        sql.append(" = $3");
        assert(sql@ =~= old(sql)@ + where_3(first@, second@, third@));
    }

    /// Appends ` ORDER BY <order_by>` where an ordering is given.
    fn order(sql: &mut String, order_by: Option<&str>)
        ensures
            final(sql)@ == old(sql)@ + order_clause(ordering(order_by)),
    {
        if let Some(order_by) = order_by {
            sql.append(" ORDER BY ");
            sql.append(order_by);
        }
        assert(sql@ =~= old(sql)@ + order_clause(ordering(order_by)));
    }
}

impl Default for CrudHelper {
    fn default() -> (helper: Self)
        ensures
            helper@ == "public"@,
    {
        Self::new()
    }
}

} // verus!
