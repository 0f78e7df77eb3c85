//! From what a store returned to what an operation reports.

use crate::errors::{AppError, Missing, Stage};
use crate::store::{Entry, StoreFault};
use vstd::prelude::*;

verus! {

/// What a lookup by key reports: the row, that it is missing, or that the
/// ledger could not be read.
pub open spec fn read_outcome<R>(found: Result<Option<R>, StoreFault>, missing: Missing) -> Result<
    R,
    AppError,
> {
    match found {
        Ok(Some(row)) => Ok(row),
        Ok(None) => Err(AppError::NotFound(missing)),
        Err(_) => Err(AppError::StorageError(Stage::LedgerRead)),
    }
}

/// Reports a lookup by key.
pub fn report_read<R>(found: Result<Option<R>, StoreFault>, missing: Missing) -> (outcome: Result<
    R,
    AppError,
>)
    ensures
        outcome == read_outcome(found, missing),
{
    match found {
        Ok(Some(row)) => Ok(row),
        Ok(None) => Err(AppError::NotFound(missing)),
        Err(_) => Err(AppError::StorageError(Stage::LedgerRead)),
    }
}

/// Reports a listing: `None` where nothing was found, else the rows as they
/// came.
pub fn report_list<R>(rows: Vec<R>) -> (listed: Option<Vec<R>>)
    ensures
        rows@.len() == 0 ==> listed is None,
        rows@.len() > 0 ==> listed == Some(rows),
{
    if rows.len() == 0 {
        None
    } else {
        Some(rows)
    }
}

/// Reports the oldest row of a listing, if it has one.
pub fn report_first<R: Entry>(rows: &Vec<R>) -> (first: Option<R>)
    ensures
        rows@.len() == 0 ==> first is None,
        rows@.len() > 0 ==> first == Some(rows@[0]),
{
    if rows.len() == 0 {
        None
    } else {
        Some(rows[0].duplicate())
    }
}

} // verus!
