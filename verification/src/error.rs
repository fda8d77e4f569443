//! The closed set of errors that the library reports, each with enough
//! context to be read on its own.

use vstd::prelude::*;
use vstd::string::StringExecFns;

verus! {

/// Why an operation failed.
#[derive(Debug, PartialEq, Eq)]
pub enum SqlStreamError {
    /// The path does not exist. Holds the path.
    FileNotFound(String),
    /// The extension is neither `csv` nor `json`, in any case. Holds the
    /// extension as it was written, or the whole path where it has none.
    UnsupportedFormat(String),
    /// The reader could not determine a column schema. Holds the cause.
    SchemaInference(String),
    /// The engine could not register the table. Holds the table name and the
    /// cause.
    TableRegistration(String, String),
    /// The session already holds a table of this name. Holds the name.
    DuplicateTable(String),
    /// The engine could not parse, plan or run the statement. Holds the
    /// engine's message, unchanged.
    QueryExecution(String),
    /// The output stream could not be written. Holds the cause.
    RenderFailure(String),
}

/// What an error is in contracts: its kind, with the characters of what it
/// holds.
pub enum ErrorView {
    FileNotFound(Seq<char>),
    UnsupportedFormat(Seq<char>),
    SchemaInference(Seq<char>),
    TableRegistration(Seq<char>, Seq<char>),
    DuplicateTable(Seq<char>),
    QueryExecution(Seq<char>),
    RenderFailure(Seq<char>),
}

impl View for SqlStreamError {
    type V = ErrorView;

    open spec fn view(&self) -> ErrorView {
        match self {
            SqlStreamError::FileNotFound(path) => ErrorView::FileNotFound(path@),
            SqlStreamError::UnsupportedFormat(what) => ErrorView::UnsupportedFormat(what@),
            SqlStreamError::SchemaInference(cause) => ErrorView::SchemaInference(cause@),
            SqlStreamError::TableRegistration(name, cause) => ErrorView::TableRegistration(
                name@,
                cause@,
            ),
            SqlStreamError::DuplicateTable(name) => ErrorView::DuplicateTable(name@),
            SqlStreamError::QueryExecution(message) => ErrorView::QueryExecution(message@),
            SqlStreamError::RenderFailure(cause) => ErrorView::RenderFailure(cause@),
        }
    }
}

/// A result in contracts: the error by its view.
pub open spec fn outcome<T>(result: Result<T, SqlStreamError>) -> Result<T, ErrorView> {
    match result {
        Ok(value) => Ok(value),
        Err(error) => Err(error@),
    }
}

impl ErrorView {
    /// The line that is shown to the user for this error.
    pub open spec fn message(self) -> Seq<char> {
        match self {
            ErrorView::FileNotFound(path) => "File not found: "@ + path,
            ErrorView::UnsupportedFormat(what) => "Unsupported file format: "@ + what
                + ". Supported formats: .csv, .json"@,
            ErrorView::SchemaInference(cause) => "Failed to infer schema from file: "@ + cause,
            ErrorView::TableRegistration(name, cause) => "Failed to register table '"@ + name
                + "': "@ + cause,
            ErrorView::DuplicateTable(name) => "Table '"@ + name + "' is already registered"@,
            ErrorView::QueryExecution(message) => "SQL execution failed: "@ + message,
            ErrorView::RenderFailure(cause) => "Failed to print results: "@ + cause,
        }
    }
}

impl SqlStreamError {
    /// The line that is shown to the user for this error.
    pub fn message(&self) -> (text: String)
        ensures
            text@ == self@.message(),
    {
        match self {
            SqlStreamError::FileNotFound(path) => {
                String::from_str("File not found: ").concat(path.as_str())
            },
            SqlStreamError::UnsupportedFormat(what) => {
                String::from_str("Unsupported file format: ").concat(what.as_str()).concat(
                    ". Supported formats: .csv, .json",
                )
            },
            SqlStreamError::SchemaInference(cause) => {
                String::from_str("Failed to infer schema from file: ").concat(cause.as_str())
            },
            SqlStreamError::TableRegistration(name, cause) => {
                String::from_str("Failed to register table '").concat(name.as_str()).concat(
                    "': ",
                ).concat(cause.as_str())
            },
            SqlStreamError::DuplicateTable(name) => {
                String::from_str("Table '").concat(name.as_str()).concat("' is already registered")
            },
            SqlStreamError::QueryExecution(message) => {
                String::from_str("SQL execution failed: ").concat(message.as_str())
            },
            SqlStreamError::RenderFailure(cause) => {
                String::from_str("Failed to print results: ").concat(cause.as_str())
            },
        }
    }
}

} // verus!
