//! Triggers: parsed, typed descriptions of events reported by the client
//! (editor) over the pipe. The wire format is one JSON5-style object per
//! line; decoding that object shape is done by the surrounding I/O layer,
//! which hands the plain fields over as a `FifoTrigger`. Turning those
//! fields into a typed `Trigger` is verified here.

use crate::errors::UserError;
use crate::text::{seq_ieq, spec_decimal, str_ieq};
use vstd::prelude::*;
use vstd::string::StringExecFns;

verus! {

/// the fields of the trigger object as it comes in through the FIFO
#[derive(Debug, PartialEq, Eq)]
pub struct FifoTriggerData {
    pub command: String,
    pub file: Option<String>,
    pub line: Option<usize>,
    pub run: Option<String>,
}

/// the trigger data as it comes in through the FIFO, with the raw line kept
/// for error messages
#[derive(Debug, PartialEq, Eq)]
pub struct FifoTrigger {
    pub data: FifoTriggerData,
    pub original_line: String,
}

/// a typed event reported by the client
#[derive(Debug, PartialEq, Eq)]
pub enum Trigger {
    TestAll,
    TestFile { file: String },
    TestFileLine { file: String, line: usize },
    CustomCommand { run: String },
    RepeatLastTest,
    Quit,
}

/// the trigger that the given wire fields describe: the command word is
/// matched ignoring ASCII case; a recognized command missing a required
/// field fails naming that field and echoing the original line; an
/// unrecognized command fails with `UnknownTrigger`
pub open spec fn spec_trigger_of(fifo: FifoTrigger) -> Result<Trigger, UserError> {
    let cmd = fifo.data.command@;
    if seq_ieq(cmd, "test-all"@) {
        Ok(Trigger::TestAll)
    } else if seq_ieq(cmd, "repeat-test"@) {
        Ok(Trigger::RepeatLastTest)
    } else if seq_ieq(cmd, "custom-command"@) {
        match fifo.data.run {
            Some(run) => Ok(Trigger::CustomCommand { run }),
            None => Err(UserError::MissingRunInTrigger { original: fifo.original_line }),
        }
    } else if seq_ieq(cmd, "test-file"@) {
        match fifo.data.file {
            Some(file) => Ok(Trigger::TestFile { file }),
            None => Err(UserError::MissingFileInTrigger { original: fifo.original_line }),
        }
    } else if seq_ieq(cmd, "test-file-line"@) {
        match (fifo.data.file, fifo.data.line) {
            (Some(file), Some(line)) => Ok(Trigger::TestFileLine { file, line }),
            (None, Some(_)) => Err(
                UserError::MissingFileInTrigger { original: fifo.original_line },
            ),
            (Some(_), None) => Err(
                UserError::MissingLineInTrigger { original: fifo.original_line },
            ),
            (None, None) => Err(
                UserError::MissingFileAndLineInTrigger { original: fifo.original_line },
            ),
        }
    } else if seq_ieq(cmd, "quit"@) {
        Ok(Trigger::Quit)
    } else {
        Err(UserError::UnknownTrigger { source: fifo.data.command })
    }
}

impl Trigger {
    /// turns decoded wire fields into a typed trigger
    pub fn try_from_fifo(fifo: FifoTrigger) -> (r: Result<Trigger, UserError>)
        ensures
            r == spec_trigger_of(fifo),
    {
        if str_ieq(fifo.data.command.as_str(), "test-all") {
            Ok(Trigger::TestAll)
        } else if str_ieq(fifo.data.command.as_str(), "repeat-test") {
            Ok(Trigger::RepeatLastTest)
        } else if str_ieq(fifo.data.command.as_str(), "custom-command") {
            match fifo.data.run {
                Some(run) => Ok(Trigger::CustomCommand { run }),
                None => Err(UserError::MissingRunInTrigger { original: fifo.original_line }),
            }
        } else if str_ieq(fifo.data.command.as_str(), "test-file") {
            match fifo.data.file {
                Some(file) => Ok(Trigger::TestFile { file }),
                None => Err(UserError::MissingFileInTrigger { original: fifo.original_line }),
            }
        } else if str_ieq(fifo.data.command.as_str(), "test-file-line") {
            match (fifo.data.file, fifo.data.line) {
                (Some(file), Some(line)) => Ok(Trigger::TestFileLine { file, line }),
                (None, Some(_)) => Err(
                    UserError::MissingFileInTrigger { original: fifo.original_line },
                ),
                (Some(_), None) => Err(
                    UserError::MissingLineInTrigger { original: fifo.original_line },
                ),
                (None, None) => Err(
                    UserError::MissingFileAndLineInTrigger { original: fifo.original_line },
                ),
            }
        } else if str_ieq(fifo.data.command.as_str(), "quit") {
            Ok(Trigger::Quit)
        } else {
            Err(UserError::UnknownTrigger { source: fifo.data.command })
        }
    }

    /// the rendered form of a trigger, as used in error messages
    pub open spec fn spec_render(self) -> Seq<char> {
        match self {
            Trigger::TestAll => "test-all"@,
            Trigger::TestFile { file } => "test-file "@ + file@,
            Trigger::TestFileLine { file, line } => "test-file-line "@ + file@ + ":"@
                + spec_decimal(line as int),
            Trigger::CustomCommand { run } => "custom-command "@ + run@,
            Trigger::RepeatLastTest => "repeat-test"@,
            Trigger::Quit => "quit"@,
        }
    }

    /// renders a trigger for error messages
    pub fn render(&self) -> (r: String)
        ensures
            r@ == self.spec_render(),
    {
        let mut out = String::new();
        match self {
            Trigger::TestAll => {
                out.append("test-all");
            },
            Trigger::TestFile { file } => {
                out.append("test-file ");
                out.append(file.as_str());
            },
            Trigger::TestFileLine { file, line } => {
                out.append("test-file-line ");
                out.append(file.as_str());
                out.append(":");
                let digits = crate::text::decimal_string(*line as u64);
                out.append(digits.as_str());
            },
            Trigger::CustomCommand { run } => {
                out.append("custom-command ");
                out.append(run.as_str());
            },
            Trigger::RepeatLastTest => {
                out.append("repeat-test");
            },
            Trigger::Quit => {
                out.append("quit");
            },
        }
        out
    }
}

} // verus!
