//! The application's error type.
use vstd::prelude::*;
use rusqlite::Error as SqliteError;
use std::io::Error as IoError;
use dotenvy::Error as DotenvError;
use crate::sqlite::sqlite_error_text;

verus! {

/// Errors of the application.
#[derive(Debug)]
#[allow(inconsistent_fields)]
pub enum Error {
    /// A failure described by a message, with the error that caused it, if
    /// any.
    Whatever { message: String, source: Option<ErrorSource> },
    /// Input or output failed.
    Io { source: IoError },
    /// The database schema could not be brought up to date.
    DatabaseMigration {},
    /// A query against the database failed.
    DatabaseQuery { source: SqliteError },
    /// The environment could not be loaded.
    EnvironmentVariables { source: DotenvError },
}

/// `std::io::Error`, held opaque.
#[verifier::external_type_specification]
#[verifier::external_body]
pub struct ExIoError(IoError);

/// `dotenvy::Error`, held opaque.
#[verifier::external_type_specification]
#[verifier::external_body]
pub struct ExDotenvError(DotenvError);

/// `ToString::to_string` of a `std::io::Error`, through its `Display` impl.
/// The text is not stated.
#[verifier::external_body]
fn io_error_text(err: &IoError) -> (res: String) {
    err.to_string()
}

/// `ToString::to_string` of a `dotenvy::Error`, through its `Display` impl.
/// The text is not stated.
#[verifier::external_body]
fn dotenv_error_text(err: &DotenvError) -> (res: String) {
    err.to_string()
}

/// The error that caused a `Whatever` failure: an error of SQLite itself, or
/// an error of the application.
#[derive(Debug)]
pub enum ErrorSource {
    Sqlite(SqliteError),
    Inner(Box<Error>),
}

/// The results of the application's fallible operations.
pub type Result<T> = std::result::Result<T, Error>;

/// The HTTP status of every error response: 500, Internal Server Error.
pub const INTERNAL_SERVER_ERROR: u16 = 500;

impl From<SqliteError> for Error {
    fn from(source: SqliteError) -> (res: Error) {
        Error::DatabaseQuery { source }
    }
}

impl vstd::std_specs::convert::FromSpecImpl<SqliteError> for Error {
    open spec fn obeys_from_spec() -> bool {
        true
    }

    open spec fn from_spec(source: SqliteError) -> Error {
        Error::DatabaseQuery { source }
    }
}

impl From<IoError> for Error {
    fn from(source: IoError) -> (res: Error) {
        Error::Io { source }
    }
}

impl vstd::std_specs::convert::FromSpecImpl<IoError> for Error {
    open spec fn obeys_from_spec() -> bool {
        true
    }

    open spec fn from_spec(source: IoError) -> Error {
        Error::Io { source }
    }
}

impl From<DotenvError> for Error {
    fn from(source: DotenvError) -> (res: Error) {
        Error::EnvironmentVariables { source }
    }
}

impl vstd::std_specs::convert::FromSpecImpl<DotenvError> for Error {
    open spec fn obeys_from_spec() -> bool {
        true
    }

    open spec fn from_spec(source: DotenvError) -> Error {
        Error::EnvironmentVariables { source }
    }
}

impl Error {
    /// Whether `text` is the text that describes this error.
    pub open spec fn describes(&self, text: Seq<char>) -> bool {
        match self {
            Error::Whatever { message, .. } => text == message@,
            Error::Io { .. } => exists|detail: Seq<char>| text == "I/O error: "@ + detail,
            Error::DatabaseMigration {} => text == "Database migration error"@,
            Error::DatabaseQuery { .. } => exists|detail: Seq<char>|
                text == "Database query error: "@ + detail,
            Error::EnvironmentVariables { .. } => exists|detail: Seq<char>|
                text == "Environment variables error: "@ + detail,
        }
    }

    /// The text that describes the error: the message of `Whatever`, and a
    /// fixed text for the other variants (followed, where there is a source,
    /// by that error's own text).
    pub fn message(&self) -> (res: String)
        ensures
            self.describes(res@),
    {
        match self {
            Error::Whatever { message, .. } => message.clone(),
            Error::Io { source } => {
                let detail = io_error_text(source);
                "I/O error: ".to_owned().concat(detail.as_str())
            },
            Error::DatabaseMigration {} => "Database migration error".to_owned(),
            Error::EnvironmentVariables { source } => {
                let detail = dotenv_error_text(source);
                "Environment variables error: ".to_owned().concat(detail.as_str())
            },
            Error::DatabaseQuery { source } => {
                let detail = sqlite_error_text(source);
                let res = "Database query error: ".to_owned().concat(detail.as_str());
                res
            },
        }
    }

    /// The response that an error gives to an HTTP request: status 500 and a
    /// body that names the error.
    pub fn into_response(self) -> (res: (u16, String))
        ensures
            res.0 == INTERNAL_SERVER_ERROR,
            exists|text: Seq<char>| self.describes(text) && res.1@ == "Something went wrong: "@ + text,
    {
        let message = self.message();
        (INTERNAL_SERVER_ERROR, "Something went wrong: ".to_owned().concat(message.as_str()))
    }
}

} // verus!
