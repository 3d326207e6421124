//! The errors that the controllers answer with, each with its HTTP status code.

use vstd::prelude::*;

verus! {

/// An error in the controller.
#[derive(PartialEq, Eq, Structural, Clone, Copy, Debug)]
pub enum Error {
    /// 404 Not Found
    NotFound,
    /// 409 Conflict
    Conflict,
    /// 500 Internal Server Error
    Internal,
}

/// What the controller reads of an error of the database driver: whether the database
/// itself refused the statement, or something else went wrong.
#[derive(PartialEq, Eq, Structural, Clone, Copy, Debug)]
pub enum SqlErrorKind {
    /// the database refused the statement, for example for a broken constraint
    Database,
    /// any other error of the driver
    Other,
}

impl Error {
    pub open spec fn spec_status_code(self) -> u16 {
        match self {
            Error::NotFound => 404,
            Error::Conflict => 409,
            Error::Internal => 500,
        }
    }

    /// The HTTP status code of the error.
    pub fn status_code(self) -> (r: u16)
        ensures
            r == self.spec_status_code(),
    {
        match self {
            Self::NotFound => 404,
            Self::Conflict => 409,
            Self::Internal => 500,
        }
    }

    /// The error of a failed database statement: a conflict when the database refused it,
    /// else an internal error.
    pub fn from_sql_error(kind: SqlErrorKind) -> (r: Error)
        ensures
            r == (match kind {
                SqlErrorKind::Database => Error::Conflict,
                SqlErrorKind::Other => Error::Internal,
            }),
    {
        match kind {
            SqlErrorKind::Database => Self::Conflict,
            SqlErrorKind::Other => Self::Internal,
        }
    }
}

/// An error during authentication.
#[derive(PartialEq, Eq, Structural, Clone, Copy, Debug)]
pub enum AuthError {
    /// 401 Unauthorized: the identity of the user is unknown
    Unauthenticated,
    /// 403 Forbidden: the identity of the user is known, and not allowed
    Unauthorized,
}

impl AuthError {
    pub open spec fn spec_status_code(self) -> u16 {
        match self {
            AuthError::Unauthenticated => 401,
            AuthError::Unauthorized => 403,
        }
    }

    /// The HTTP status code of the error.
    pub fn status_code(self) -> (r: u16)
        ensures
            r == self.spec_status_code(),
    {
        match self {
            Self::Unauthenticated => 401,
            Self::Unauthorized => 403,
        }
    }
}

/// An error in the controller: the request could not be processed, with what was wrong
/// with it, or another error.
#[derive(Debug)]
pub enum ModelError<UnprocessableEntity> {
    /// 422 Unprocessable Entity
    UnprocessableEntity(UnprocessableEntity),
    Other(Error),
}

impl<UnprocessableEntity> ModelError<UnprocessableEntity> {
    pub open spec fn spec_status_code(&self) -> u16 {
        match self {
            ModelError::UnprocessableEntity(_) => 422,
            ModelError::Other(e) => e.spec_status_code(),
        }
    }

    /// The HTTP status code of the error.
    pub fn status_code(&self) -> (r: u16)
        ensures
            r == self.spec_status_code(),
    {
        match self {
            Self::UnprocessableEntity(_) => 422,
            Self::Other(e) => e.status_code(),
        }
    }

    /// Another error of the controller.
    pub fn from(other: Error) -> (r: ModelError<UnprocessableEntity>)
        ensures
            r matches ModelError::Other(e) && e == other,
    {
        Self::Other(other)
    }
}

impl ModelError<()> {
    /// The error of a request that could not be processed, without details.
    pub fn from_unit(value: ()) -> (r: ModelError<()>)
        ensures
            r is UnprocessableEntity,
    {
        Self::UnprocessableEntity(value)
    }
}

} // verus!
