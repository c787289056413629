//! The errors that the user can cause and needs to be notified about.
//! Rendering them as human-readable text is presentation and belongs to the
//! surrounding command-line layer.

use crate::config_file::ActionType;
use vstd::prelude::*;

verus! {

/// The possible errors that the user can cause and needs to be notified about.
#[derive(Clone, Debug, PartialEq, Eq)]
pub enum UserError {
    CannotCreateConfigFile { err: String },
    CannotDetermineCurrentDirectory { err: String },
    CannotReadFile { path: String, err: String },
    CannotSplitShellString { source: String, err: String },
    ConfigFileError { err: String },
    ConfigFileInvalidContent { err: String },
    ConfigInvalidGlob { pattern: String, err: String },
    FifoAlreadyExists { path: String },
    FifoCannotCreate { path: String, err: String },
    FifoCannotDelete { path: String, err: String },
    FifoCannotOpen { err: String },
    FifoCannotRead { err: String },
    FilesIsEmpty,
    FileNameNotAvailable,
    InvalidRegex { regex: String, err: String },
    InvalidTrigger { source: String, err: String },
    LineIsNotANumber { line: String },
    LineNotAvailable,
    MissingFilesInPattern,
    MissingFileInTrigger { original: String },
    MissingFileAndLineInTrigger { original: String },
    MissingFilesInTestFile { original: String },
    MissingLineInTrigger { original: String },
    MissingRunInTrigger { original: String },
    NoCommandToRepeat,
    RunCommandNotFound { command: String },
    RunCommandIsEmpty,
    TriggerTooManyCaptures { count: usize, regex: String, line: String },
    TriggerRegexNotFound { regex: String, filename: String, line: usize },
    UnknownActionType { action_type: ActionType },
    UnknownTrigger { source: String },
}

/// a Result that always has a `UserError` as the error
pub type Result<T> = core::result::Result<T, UserError>;

} // verus!
