use vstd::prelude::*;

verus! {

/// The error kinds that handlers surface to clients.
#[derive(Debug, Clone, Copy, PartialEq, Eq, Structural)]
pub enum AppError {
    BadRequest,
    Conflict,
    InternalServerError,
    NotFound,
    NotAuthorized,
}

/// HTTP status code that stands for each error kind.
pub open spec fn status_of(e: AppError) -> u16 {
    match e {
        AppError::BadRequest => 400,
        AppError::Conflict => 409,
        AppError::InternalServerError => 500,
        AppError::NotFound => 404,
        AppError::NotAuthorized => 401,
    }
}

impl AppError {
    /// The HTTP status code with which this error is answered.
    pub fn status_code(&self) -> (r: u16)
        ensures
            r == status_of(*self),
    {
        match self {
            AppError::BadRequest => 400,
            AppError::Conflict => 409,
            AppError::InternalServerError => 500,
            AppError::NotFound => 404,
            AppError::NotAuthorized => 401,
        }
    }

    /// Human-readable description of the error kind.
    pub fn message(&self) -> (r: &'static str)
        ensures
            r@ == match *self {
                AppError::Conflict => "conflict"@,
                AppError::NotFound => "not found"@,
                AppError::BadRequest => "bad request"@,
                AppError::NotAuthorized => "not authorized"@,
                AppError::InternalServerError => "internal server error"@,
            },
    {
        match self {
            AppError::Conflict => "conflict",
            AppError::NotFound => "not found",
            AppError::BadRequest => "bad request",
            AppError::NotAuthorized => "not authorized",
            AppError::InternalServerError => "internal server error",
        }
    }
}

} // verus!
