//! The error taxonomy shared by every operation.

use std::fmt::Display;
use vstd::prelude::*;
use vstd::string::*;

verus! {

/// A failure that the database driver reports. Nothing is known of its
/// content: it is carried to the caller as it came.
#[verifier::external_type_specification]
#[verifier::external_body]
pub struct ExDriverError(tokio_postgres::Error);

/// A failure to turn a row into an entity. Nothing is known of its content:
/// it is carried to the caller as it came.
#[verifier::external_type_specification]
#[verifier::external_body]
pub struct ExMapperError(tokio_pg_mapper::Error);

/// A failure to read a UUID from text. Nothing is known of its content: it
/// is carried to the caller as it came.
#[verifier::external_type_specification]
#[verifier::external_body]
pub struct ExUuidError(uuid::Error);

/// Why an operation failed.
#[derive(Debug)]
pub enum CrudyError {
    /// The client failed: connectivity, syntax, a violated constraint.
    PostgresError(tokio_postgres::Error),
    /// A fetched row does not have the shape of the entity.
    PostgresMapperError(tokio_pg_mapper::Error),
    /// An identifier given as text is no UUID.
    ParseUuidError(uuid::Error),
    /// A row that had to be there was not found. Holds the table's name and
    /// the identifiers that were looked for.
    NoDataError(String),
    /// A write that had to change a row changed none.
    NoRowsAffected,
    /// An operation that needs an identifier was given none.
    MissingIdError,
}

/// `<reference> - <id>`: what a [`CrudyError::NoDataError`] holds for one
/// identifier.
pub open spec fn no_data_context(reference: Seq<char>, id: Seq<char>) -> Seq<char> {
    reference + " - "@ + id
}

/// `<reference> - <id1> <id2>`: what a [`CrudyError::NoDataError`] holds for
/// two identifiers.
pub open spec fn no_data_context_2(reference: Seq<char>, id1: Seq<char>, id2: Seq<char>) -> Seq<
    char,
> {
    reference + " - "@ + id1 + " "@ + id2
}

/// `text` is what `value` looks like when displayed.
pub open spec fn displays<S: Display + ?Sized>(value: &S, text: Seq<char>) -> bool {
    exists|shown: String| #[trigger] to_string_from_display_ensures::<S>(value, shown) && shown@ == text
}

/// `error` says that no data was found under `reference` for `id`.
pub open spec fn is_no_data<S: Display + ?Sized>(error: CrudyError, reference: Seq<char>, id: &S) -> bool {
    match error {
        CrudyError::NoDataError(message) => exists|text: Seq<char>|
            displays(id, text) && message@ == #[trigger] no_data_context(reference, text),
        _ => false,
    }
}

/// `error` says that no data was found under `reference` for `id1` and `id2`.
pub open spec fn is_no_data_2<S: Display + ?Sized>(
    error: CrudyError,
    reference: Seq<char>,
    id1: &S,
    id2: &S,
) -> bool {
    match error {
        CrudyError::NoDataError(message) => exists|first: Seq<char>, second: Seq<char>|
            displays(id1, first) && displays(id2, second) && message@ == #[trigger] no_data_context_2(
                reference,
                first,
                second,
            ),
        _ => false,
    }
}

/// An error that says that no data was found for an identifier that is
/// text holds the reference and the identifier as they are, with ` - `
/// between them.
pub proof fn lemma_no_data_of_text(error: CrudyError, reference: Seq<char>, id: &str)
    requires
        is_no_data(error, reference, id),
    ensures
        error matches CrudyError::NoDataError(message) && message@ == no_data_context(
            reference,
            id@,
        ),
{
    broadcast use to_string_from_display_ensures_for_str;

}

impl CrudyError {
    /// The error for a row that was looked for under `id` and not found.
    pub fn new_no_data_error<S>(reference: &str, id: &S) -> (error: Self) where S: Display + ?Sized
        ensures
            is_no_data(error, reference@, id),
    {
        let shown = id.to_string();
        let mut message = String::from_str(reference);
        message.append(" - ");
        message.append(shown.as_str());
        assert(displays(id, shown@));
        assert(message@ =~= no_data_context(reference@, shown@));
        CrudyError::NoDataError(message)
    }

    /// The error for a row that was looked for under two identifiers and not
    /// found.
    pub fn new_no_data_error_2<S>(reference: &str, id1: &S, id2: &S) -> (error: Self) where
        S: Display + ?Sized,

        ensures
            is_no_data_2(error, reference@, id1, id2),
    {
        let first = id1.to_string();
        let second = id2.to_string();
        let mut message = String::from_str(reference);
        message.append(" - ");
        message.append(first.as_str());
        message.append(" ");
        message.append(second.as_str());
        assert(displays(id1, first@));
        assert(displays(id2, second@));
        assert(message@ =~= no_data_context_2(reference@, first@, second@));
        CrudyError::NoDataError(message)
    }

    /// The error in words.
    pub fn to_string(&self) -> (text: String)
        ensures
            match *self {
                CrudyError::PostgresError(error) => displays(&error, text@),
                CrudyError::PostgresMapperError(error) => displays(&error, text@),
                CrudyError::ParseUuidError(error) => displays(&error, text@),
                CrudyError::NoDataError(context) => text@ == "No data found for "@ + context@,
                CrudyError::NoRowsAffected => text@ == "Number of rows affected is zero"@,
                CrudyError::MissingIdError => text@ == "Missing id"@,
            },
    {
        match self {
            CrudyError::PostgresError(error) => error.to_string(),
            CrudyError::PostgresMapperError(error) => error.to_string(),
            CrudyError::ParseUuidError(error) => error.to_string(),
            CrudyError::NoDataError(context) => String::from_str("No data found for ").concat(
                context.as_str(),
            ),
            CrudyError::NoRowsAffected => String::from_str("Number of rows affected is zero"),
            CrudyError::MissingIdError => String::from_str("Missing id"),
        }
    }
}

impl From<tokio_postgres::Error> for CrudyError {
    fn from(error: tokio_postgres::Error) -> (wrapped: Self) {
        CrudyError::PostgresError(error)
    }
}

impl vstd::std_specs::convert::FromSpecImpl<tokio_postgres::Error> for CrudyError {
    open spec fn obeys_from_spec() -> bool {
        true
    }

    open spec fn from_spec(error: tokio_postgres::Error) -> Self {
        CrudyError::PostgresError(error)
    }
}

impl From<tokio_pg_mapper::Error> for CrudyError {
    fn from(error: tokio_pg_mapper::Error) -> (wrapped: Self) {
        CrudyError::PostgresMapperError(error)
    }
}

impl vstd::std_specs::convert::FromSpecImpl<tokio_pg_mapper::Error> for CrudyError {
    open spec fn obeys_from_spec() -> bool {
        true
    }

    open spec fn from_spec(error: tokio_pg_mapper::Error) -> Self {
        CrudyError::PostgresMapperError(error)
    }
}

impl From<uuid::Error> for CrudyError {
    fn from(error: uuid::Error) -> (wrapped: Self) {
        CrudyError::ParseUuidError(error)
    }
}

impl vstd::std_specs::convert::FromSpecImpl<uuid::Error> for CrudyError {
    open spec fn obeys_from_spec() -> bool {
        true
    }

    open spec fn from_spec(error: uuid::Error) -> Self {
        CrudyError::ParseUuidError(error)
    }
}

} // verus!
