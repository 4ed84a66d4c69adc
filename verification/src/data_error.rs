//! The error taxonomy under the name that data-access code knows it by.

use vstd::prelude::*;
use crate::crudy_error::CrudyError;

verus! {

/// The one error taxonomy of this library.
pub type PostgresDataError = CrudyError;

} // verus!
