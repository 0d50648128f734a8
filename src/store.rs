use vstd::prelude::*;
use crate::error::AppError;

verus! {

/// Outcome of fetching a record by key: a record that could not be had, for
/// whatever reason, is reported as not found.
pub fn get_record<T>(found: Option<T>) -> (r: Result<T, AppError>)
    ensures
        match found {
            Some(v) => r == Ok::<T, AppError>(v),
            None => r == Err::<T, AppError>(AppError::NotFound),
        },
{
    match found {
        Some(v) => Ok(v),
        None => Err(AppError::NotFound),
    }
}

/// Outcome of creating or replacing a record: a failed write is an internal error.
pub fn write_record(succeeded: bool) -> (r: Result<(), AppError>)
    ensures
        succeeded ==> r is Ok,
        !succeeded ==> r == Err::<(), AppError>(AppError::InternalServerError),
{
    if succeeded {
        Ok(())
    } else {
        Err(AppError::InternalServerError)
    }
}

} // verus!
