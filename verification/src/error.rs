//! The errors of the service and how they are reported.

use vstd::prelude::*;

verus! {

/// The reasons for which a request to create a post or an upload is
/// refused, one flag for each.
#[derive(Clone, Copy, Debug, PartialEq, Eq, Structural, Hash)]
pub struct ValidationErrors {
    /// The declared size is zero.
    pub size_is_zero: bool,
    /// The declared size is above the configured maximum, or above what the
    /// ledger can store.
    pub size_too_large: bool,
    /// The extension has more than 32 characters.
    pub extension_too_long: bool,
    /// The extension is empty or holds a character that is neither an ASCII
    /// letter, an ASCII digit nor an underscore.
    pub extension_invalid_chars: bool,
    /// The title of a post is empty.
    pub title_is_blank: bool,
    /// The title of a post has more than 500 characters.
    pub title_too_long: bool,
    /// The minimal age of the readers of a post is not between 0 and 21.
    pub min_age_out_of_range: bool,
}

impl ValidationErrors {
    /// Whether no flag is set.
    pub open spec fn spec_is_empty(self) -> bool {
        !self.size_is_zero && !self.size_too_large && !self.extension_too_long
            && !self.extension_invalid_chars && !self.title_is_blank && !self.title_too_long
            && !self.min_age_out_of_range
    }

    /// Whether no flag is set.
    #[verifier::when_used_as_spec(spec_is_empty)]
    pub fn is_empty(self) -> (empty: bool)
        ensures
            empty == self.spec_is_empty(),
    {
        !self.size_is_zero && !self.size_too_large && !self.extension_too_long
            && !self.extension_invalid_chars && !self.title_is_blank && !self.title_too_long
            && !self.min_age_out_of_range
    }
}

/// What can go wrong while a request is served.
#[derive(Debug, PartialEq, Eq)]
pub enum Error {
    Misc(String),
    Sqlx(String),
    PasswordHash(String),
    PoolNotFound,
    Rocket(String),
    AccessDenied,
    DoesNotExist,
    InvalidPagination,
    PageDoesNotExist,
    IO(String),
    ValidationErrors(ValidationErrors),
    InvalidUploadState,
    InvalidContentRange,
    Unknown,
}

/// The classes into which the errors fall.
#[derive(Clone, Copy, Debug, PartialEq, Eq, Structural, Hash)]
pub enum ErrorKind {
    NotFound,
    AccessDenied,
    StateConflict,
    InvalidInput,
    StorageIO,
    Persistence,
    Internal,
}

/// The class of each error.
pub open spec fn error_kind(error: Error) -> ErrorKind {
    match error {
        Error::Misc(_) => ErrorKind::Internal,
        Error::Sqlx(_) => ErrorKind::Persistence,
        Error::PasswordHash(_) => ErrorKind::Internal,
        Error::PoolNotFound => ErrorKind::Persistence,
        Error::Rocket(_) => ErrorKind::Internal,
        Error::AccessDenied => ErrorKind::AccessDenied,
        Error::DoesNotExist => ErrorKind::NotFound,
        Error::InvalidPagination => ErrorKind::InvalidInput,
        Error::PageDoesNotExist => ErrorKind::NotFound,
        Error::IO(_) => ErrorKind::StorageIO,
        Error::ValidationErrors(_) => ErrorKind::InvalidInput,
        Error::InvalidUploadState => ErrorKind::StateConflict,
        Error::InvalidContentRange => ErrorKind::InvalidInput,
        Error::Unknown => ErrorKind::Internal,
    }
}

/// The HTTP status with which each error is answered.
pub open spec fn error_status_code(error: Error) -> u16 {
    match error {
        Error::AccessDenied => 403,
        Error::DoesNotExist => 404,
        Error::InvalidPagination => 422,
        Error::PageDoesNotExist => 404,
        Error::ValidationErrors(_) => 422,
        Error::InvalidUploadState => 409,
        Error::InvalidContentRange => 400,
        _ => 500,
    }
}

/// The sentence that describes each error.
pub open spec fn error_message(error: Error) -> Seq<char> {
    match error {
        Error::Misc(_) => "Misc error"@,
        Error::Sqlx(_) => "DB error"@,
        Error::PasswordHash(_) => "Password hash error"@,
        Error::PoolNotFound => "DB error"@,
        Error::Rocket(_) => "Rocket error"@,
        Error::AccessDenied => "Access denied"@,
        Error::DoesNotExist => "Object does not exist"@,
        Error::InvalidPagination => "Invalid pagination param"@,
        Error::PageDoesNotExist => "Page does not exist"@,
        Error::IO(_) => "IO error"@,
        Error::ValidationErrors(_) => "Validation errors"@,
        Error::InvalidUploadState => "Invalid upload state"@,
        Error::InvalidContentRange => "Invalid content range"@,
        Error::Unknown => "Unknown error"@,
    }
}

impl Error {
    /// The class of the error.
    pub fn kind(&self) -> (kind: ErrorKind)
        ensures
            kind == error_kind(*self),
    {
        match self {
            Error::Misc(_) => ErrorKind::Internal,
            Error::Sqlx(_) => ErrorKind::Persistence,
            Error::PasswordHash(_) => ErrorKind::Internal,
            Error::PoolNotFound => ErrorKind::Persistence,
            Error::Rocket(_) => ErrorKind::Internal,
            Error::AccessDenied => ErrorKind::AccessDenied,
            Error::DoesNotExist => ErrorKind::NotFound,
            Error::InvalidPagination => ErrorKind::InvalidInput,
            Error::PageDoesNotExist => ErrorKind::NotFound,
            Error::IO(_) => ErrorKind::StorageIO,
            Error::ValidationErrors(_) => ErrorKind::InvalidInput,
            Error::InvalidUploadState => ErrorKind::StateConflict,
            Error::InvalidContentRange => ErrorKind::InvalidInput,
            Error::Unknown => ErrorKind::Internal,
        }
    }

    /// The HTTP status with which the error is answered.
    pub fn status_code(&self) -> (code: u16)
        ensures
            code == error_status_code(*self),
    {
        match self {
            Error::AccessDenied => 403,
            Error::DoesNotExist => 404,
            Error::InvalidPagination => 422,
            Error::PageDoesNotExist => 404,
            Error::ValidationErrors(_) => 422,
            Error::InvalidUploadState => 409,
            Error::InvalidContentRange => 400,
            _ => 500,
        }
    }

    /// Whether the error is the server's fault, and so worth a line in its
    /// log.
    pub fn is_internal(&self) -> (internal: bool)
        ensures
            internal == (error_status_code(*self) == 500),
    {
        self.status_code() / 100 == 5
    }

    /// The sentence that describes the error.
    pub fn message(&self) -> (text: &'static str)
        ensures
            text@ == error_message(*self),
    {
        match self {
            Error::Misc(_) => "Misc error",
            Error::Sqlx(_) => "DB error",
            Error::PasswordHash(_) => "Password hash error",
            Error::PoolNotFound => "DB error",
            Error::Rocket(_) => "Rocket error",
            Error::AccessDenied => "Access denied",
            Error::DoesNotExist => "Object does not exist",
            Error::InvalidPagination => "Invalid pagination param",
            Error::PageDoesNotExist => "Page does not exist",
            Error::IO(_) => "IO error",
            Error::ValidationErrors(_) => "Validation errors",
            Error::InvalidUploadState => "Invalid upload state",
            Error::InvalidContentRange => "Invalid content range",
            Error::Unknown => "Unknown error",
        }
    }
}

/// An error as it is reported to the client: without what only the
/// server should know.
#[derive(Clone, Copy, Debug, PartialEq, Eq, Structural)]
pub enum ErrorResponse {
    Misc,
    Sqlx,
    PasswordHash,
    PoolNotFound,
    Rocket,
    AccessDenied,
    DoesNotExist,
    InvalidPagination,
    PageDoesNotExist,
    IO,
    ValidationErrors(ValidationErrors),
    InvalidUploadState,
    InvalidContentRange,
    Unknown,
}

impl From<Error> for ErrorResponse {
    fn from(value: Error) -> (response: Self) {
        match value {
            Error::Misc(_) => ErrorResponse::Misc,
            Error::Sqlx(_) => ErrorResponse::Sqlx,
            Error::PasswordHash(_) => ErrorResponse::PasswordHash,
            Error::PoolNotFound => ErrorResponse::PoolNotFound,
            Error::Rocket(_) => ErrorResponse::Rocket,
            Error::AccessDenied => ErrorResponse::AccessDenied,
            Error::DoesNotExist => ErrorResponse::DoesNotExist,
            Error::InvalidPagination => ErrorResponse::InvalidPagination,
            Error::PageDoesNotExist => ErrorResponse::PageDoesNotExist,
            Error::IO(_) => ErrorResponse::IO,
            Error::ValidationErrors(errors) => ErrorResponse::ValidationErrors(errors),
            Error::InvalidUploadState => ErrorResponse::InvalidUploadState,
            Error::InvalidContentRange => ErrorResponse::InvalidContentRange,
            Error::Unknown => ErrorResponse::Unknown,
        }
    }
}

impl vstd::std_specs::convert::FromSpecImpl<Error> for ErrorResponse {
    open spec fn obeys_from_spec() -> bool {
        true
    }

    /// The error without its message.
    open spec fn from_spec(value: Error) -> Self {
        match value {
            Error::Misc(_) => ErrorResponse::Misc,
            Error::Sqlx(_) => ErrorResponse::Sqlx,
            Error::PasswordHash(_) => ErrorResponse::PasswordHash,
            Error::PoolNotFound => ErrorResponse::PoolNotFound,
            Error::Rocket(_) => ErrorResponse::Rocket,
            Error::AccessDenied => ErrorResponse::AccessDenied,
            Error::DoesNotExist => ErrorResponse::DoesNotExist,
            Error::InvalidPagination => ErrorResponse::InvalidPagination,
            Error::PageDoesNotExist => ErrorResponse::PageDoesNotExist,
            Error::IO(_) => ErrorResponse::IO,
            Error::ValidationErrors(errors) => ErrorResponse::ValidationErrors(errors),
            Error::InvalidUploadState => ErrorResponse::InvalidUploadState,
            Error::InvalidContentRange => ErrorResponse::InvalidContentRange,
            Error::Unknown => ErrorResponse::Unknown,
        }
    }
}

impl Clone for Error {
    fn clone(&self) -> (copy: Self)
        ensures
            copy == *self,
    {
        match self {
            Error::Misc(text) => Error::Misc(text.clone()),
            Error::Sqlx(text) => Error::Sqlx(text.clone()),
            Error::PasswordHash(text) => Error::PasswordHash(text.clone()),
            Error::PoolNotFound => Error::PoolNotFound,
            Error::Rocket(text) => Error::Rocket(text.clone()),
            Error::AccessDenied => Error::AccessDenied,
            Error::DoesNotExist => Error::DoesNotExist,
            Error::InvalidPagination => Error::InvalidPagination,
            Error::PageDoesNotExist => Error::PageDoesNotExist,
            Error::IO(text) => Error::IO(text.clone()),
            Error::ValidationErrors(reasons) => Error::ValidationErrors(*reasons),
            Error::InvalidUploadState => Error::InvalidUploadState,
            Error::InvalidContentRange => Error::InvalidContentRange,
            Error::Unknown => Error::Unknown,
        }
    }
}

} // verus!
