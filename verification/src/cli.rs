//! The arguments of one run, and what is checked of them before the engine is
//! started.

use crate::format::Format;
use crate::path::{extension, extension_of};
use crate::resolver::{path_exists, resolution};
use vstd::prelude::*;
use vstd::string::StringExecFns;

verus! {

/// The table name under which the file is bound where none is given.
pub const DEFAULT_TABLE_NAME: &'static str = "data";

/// The arguments of one run.
#[derive(Debug, PartialEq, Eq)]
pub struct CliArgs {
    /// Path to the CSV or JSON file to query.
    pub file: String,
    /// SQL statement to execute.
    pub query: String,
    /// Name under which the file is bound in the statement.
    pub table_name: String,
    /// Whether diagnostic logging is raised to debug level.
    pub verbose: bool,
}

/// What the validation of a path yields, given whether it exists: the line
/// that tells the user what is wrong with it, or nothing where it exists and
/// its extension names a format.
pub open spec fn validation(path: Seq<char>, found: bool) -> Result<(), Seq<char>> {
    if !found {
        Err("File not found: "@ + path)
    } else {
        match extension(path) {
            None => Err("File must have an extension (.csv or .json)"@),
            Some(ext) => if Format::named(ext) is Some {
                Ok(())
            } else {
                Err("Unsupported file extension: ."@ + ext + ". Supported: .csv, .json"@)
            },
        }
    }
}

/// A validation result in contracts: the message by its characters.
pub open spec fn verdict(result: Result<(), String>) -> Result<(), Seq<char>> {
    match result {
        Ok(()) => Ok(()),
        Err(message) => Err(message@),
    }
}

impl CliArgs {
    /// Checks the file argument, given whether the file exists.
    pub fn validate_with(&self, found: bool) -> (result: Result<(), String>)
        ensures
            verdict(result) == validation(self.file@, found),
    {
        if !found {
            return Err(String::from_str("File not found: ").concat(self.file.as_str()));
        }
        match extension_of(self.file.as_str()) {
            None => Err(String::from_str("File must have an extension (.csv or .json)")),
            Some(ext) => match Format::from_extension(ext) {
                Some(_) => Ok(()),
                None => Err(
                    String::from_str("Unsupported file extension: .").concat(ext).concat(
                        ". Supported: .csv, .json",
                    ),
                ),
            },
        }
    }

    /// Checks the file argument, asking the file system whether the file
    /// exists.
    pub fn validate(&self) -> (result: Result<(), String>)
        ensures
            verdict(result) == validation(self.file@, true) || verdict(result) == validation(
                self.file@,
                false,
            ),
    {
        self.validate_with(path_exists(self.file.as_str()))
    }

    /// The least severity of the diagnostics that are logged where nothing
    /// else is asked for: `debug` for a verbose run, `info` otherwise.
    pub fn log_level(&self) -> (level: &'static str)
        ensures
            level@ == if self.verbose {
                "debug"@
            } else {
                "info"@
            },
    {
        if self.verbose {
            "debug"
        } else {
            "info"
        }
    }
}

/// Validation accepts a path exactly when the path resolves to a format: what
/// passes the check before the engine is started is not turned away by the
/// resolver afterwards, and the other way round.
pub proof fn law_validation_agrees_with_resolution(path: Seq<char>, found: bool)
    ensures
        validation(path, found) is Ok <==> resolution(path, found) is Ok,
{
}

} // verus!
