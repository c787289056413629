//! The configuration as it is stored in the config file: low-level,
//! unvalidated data. Reading and deserializing the file itself is I/O and
//! happens outside this library; the structures here are the plain values
//! that the deserializer hands over, and the conversions to validated
//! configuration data are verified.

use crate::config::{AfterRun, BeforeRun, Var, VarSource};
use crate::errors::UserError;
use crate::regexes::{regex_valid, Filter};
use vstd::prelude::*;

verus! {

/// the kind of trigger an action responds to
#[derive(Clone, Copy, Debug, PartialEq, Eq)]
pub enum ActionType {
    TestAll,
    TestFile,
    TestFileLine,
}

/// an additional variable that gets derived from the trigger context,
/// exactly as it is stored in the config file
#[derive(Debug, PartialEq, Eq)]
pub struct FileVar {
    /// name of the variable, available as "{{ name }}" later
    pub name: String,
    /// the location in the file
    pub source: VarSource,
    /// how the variable gets computed
    pub filter: String,
}

impl FileVar {
    /// validates the filter regex and produces the domain form of this variable
    pub fn to_domain(self) -> (r: Result<Var, UserError>)
        ensures
            r is Ok <==> regex_valid(self.filter@),
            r matches Ok(v) ==> v.name@ == self.name@ && v.source == self.source
                && v.filter@ == self.filter@,
            r matches Err(e) ==> e matches UserError::InvalidRegex { regex, .. } && regex@
                == self.filter@,
    {
        match Filter::new(self.filter) {
            Ok(filter) => Ok(Var { name: self.name, source: self.source, filter }),
            Err((regex, err)) => Err(UserError::InvalidRegex { regex, err }),
        }
    }
}

/// a particular action, exactly as it is stored in the config file
pub struct FileAction {
    /// the kind of trigger this action responds to
    pub action_type: ActionType,
    /// the files for which this action applies, as a glob expression
    pub files: Option<String>,
    /// the command to run
    pub run: String,
    /// additional variables to use in the "run" string
    pub vars: Option<Vec<FileVar>>,
    /// human-readable description of this action
    pub comment: Option<String>,
}

/// the "beforeRun" options section, exactly as stored in the config file
#[derive(Debug, PartialEq, Eq)]
pub struct FileBeforeRun {
    /// whether to clear the screen before a test run
    pub clear_screen: Option<bool>,
    /// how many newlines to print before a test run
    pub newlines: Option<u8>,
}

/// the domain form of a raw "beforeRun" section: absent values get their
/// defaults
pub open spec fn spec_before_run_of(b: FileBeforeRun) -> BeforeRun {
    BeforeRun {
        clear_screen: match b.clear_screen {
            Some(v) => v,
            None => false,
        },
        newlines: match b.newlines {
            Some(n) => n,
            None => 0u8,
        },
    }
}

impl FileBeforeRun {
    /// fills the missing values with their defaults
    pub fn to_domain(self) -> (r: BeforeRun)
        ensures
            r == spec_before_run_of(self),
    {
        BeforeRun {
            clear_screen: match self.clear_screen {
                Some(b) => b,
                None => false,
            },
            newlines: match self.newlines {
                Some(n) => n,
                None => 0,
            },
        }
    }
}

/// the "afterRun" options section, exactly as stored in the config file
#[derive(Debug, PartialEq, Eq)]
pub struct FileAfterRun {
    /// how many newlines to print after a test run
    pub newlines: Option<u8>,
    /// how many indicator lines (red or green) to print after a test run
    pub indicator_lines: Option<u8>,
    /// whether to print "SUCCESS" or "FAILED" after a test run
    pub print_result: Option<bool>,
}

/// the domain form of a raw "afterRun" section: absent values get their
/// defaults; the result text is printed unless switched off
pub open spec fn spec_after_run_of(a: FileAfterRun) -> AfterRun {
    AfterRun {
        newlines: match a.newlines {
            Some(n) => n,
            None => 0u8,
        },
        indicator_lines: match a.indicator_lines {
            Some(n) => n,
            None => 0u8,
        },
        print_result: match a.print_result {
            Some(v) => v,
            None => true,
        },
    }
}

impl FileAfterRun {
    /// fills the missing values with their defaults
    pub fn to_domain(self) -> (r: AfterRun)
        ensures
            r == spec_after_run_of(self),
    {
        AfterRun {
            newlines: match self.newlines {
                Some(n) => n,
                None => 0,
            },
            indicator_lines: match self.indicator_lines {
                Some(n) => n,
                None => 0,
            },
            print_result: match self.print_result {
                Some(b) => b,
                None => true,
            },
        }
    }
}

/// the options section, exactly as stored in the config file
#[derive(Debug, PartialEq, Eq)]
pub struct FileOptions {
    /// behavior before a test run
    pub before_run: Option<FileBeforeRun>,
    /// behavior after a test run
    pub after_run: Option<FileAfterRun>,
}

/// the domain form of a raw options section: absent sections get their
/// defaults
pub open spec fn spec_options_of(o: FileOptions) -> crate::config::Options {
    crate::config::Options {
        before_run: match o.before_run {
            Some(b) => spec_before_run_of(b),
            None => BeforeRun { clear_screen: false, newlines: 0u8 },
        },
        after_run: match o.after_run {
            Some(a) => spec_after_run_of(a),
            None => AfterRun { newlines: 0u8, indicator_lines: 0u8, print_result: true },
        },
    }
}

/// the whole configuration file
pub struct FileConfiguration {
    /// the tests to run
    pub actions: Vec<FileAction>,
    /// layout and behavior options
    pub options: Option<FileOptions>,
}

} // verus!
