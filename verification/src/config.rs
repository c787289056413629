//! Validated configuration data: the ordered action table, the options, and
//! the conversions from the raw config-file structures.

use crate::config_file::{ActionType, FileAction, FileConfiguration, FileOptions};
use crate::errors::UserError;
use crate::globs::{glob_matches, glob_valid, Glob};
use crate::regexes::{regex_valid, Filter};
use crate::trigger::Trigger;
use vstd::prelude::*;

verus! {

/// where a variable's input value comes from
#[derive(Clone, Copy, Debug, PartialEq, Eq, Structural)]
pub enum VarSource {
    File,
    Line,
    CurrentOrAboveLineContent,
}

/// a named value computed from the trigger context, for substitution into a
/// command template
#[derive(Debug)]
pub struct Var {
    pub name: String,
    pub source: VarSource,
    pub filter: Filter,
}

/// a pattern defined in the config file; decides which triggers an action
/// should handle
#[derive(Debug)]
pub enum Pattern {
    TestAll,
    TestFile { files: Glob },
    TestFileLine { files: Glob },
}

impl Pattern {
    /// whether this pattern accepts the given trigger: the variants must
    /// correspond, and for file-carrying triggers the glob must accept the
    /// file; a trigger's line is never constrained; any variant mismatch is
    /// a non-match, not an error
    pub open spec fn spec_matches(self, trigger: Trigger) -> bool {
        match self {
            Pattern::TestAll => trigger is TestAll,
            Pattern::TestFile { files } => trigger matches Trigger::TestFile { file }
                && glob_matches(files@, file@),
            Pattern::TestFileLine { files } => trigger matches Trigger::TestFileLine {
                file,
                ..
            } && glob_matches(files@, file@),
        }
    }

    /// indicates whether this pattern matches the given trigger received
    /// via the FIFO
    pub fn matches_trigger(&self, trigger: &Trigger) -> (r: bool)
        ensures
            r == self.spec_matches(*trigger),
    {
        match self {
            Pattern::TestAll => matches!(trigger, Trigger::TestAll),
            Pattern::TestFile { files } => {
                if let Trigger::TestFile { file } = trigger {
                    files.matches(file.as_str())
                } else {
                    false
                }
            },
            Pattern::TestFileLine { files } => {
                if let Trigger::TestFileLine { file, line: _ } = trigger {
                    files.matches(file.as_str())
                } else {
                    false
                }
            },
        }
    }
}

/// behavior before a test run
#[derive(Debug, PartialEq, Eq, Structural)]
pub struct BeforeRun {
    pub clear_screen: bool,
    pub newlines: u8,
}

impl Default for BeforeRun {
    /// by default nothing is printed and the screen is kept
    fn default() -> (r: Self)
        ensures
            r.clear_screen == false,
            r.newlines == 0,
    {
        BeforeRun { clear_screen: false, newlines: 0 }
    }
}

/// behavior after a test run
#[derive(Debug, PartialEq, Eq, Structural)]
pub struct AfterRun {
    pub newlines: u8,
    pub indicator_lines: u8,
    pub print_result: bool,
}

impl Default for AfterRun {
    /// by default only the textual result is printed
    fn default() -> (r: Self)
        ensures
            r.newlines == 0,
            r.indicator_lines == 0,
            r.print_result == true,
    {
        AfterRun { newlines: 0, indicator_lines: 0, print_result: true }
    }
}

impl From<crate::config_file::FileBeforeRun> for BeforeRun {
    fn from(value: crate::config_file::FileBeforeRun) -> (r: BeforeRun) {
        value.to_domain()
    }
}

impl vstd::std_specs::convert::FromSpecImpl<crate::config_file::FileBeforeRun> for BeforeRun {
    open spec fn obeys_from_spec() -> bool {
        true
    }

    open spec fn from_spec(v: crate::config_file::FileBeforeRun) -> BeforeRun {
        crate::config_file::spec_before_run_of(v)
    }
}

impl From<crate::config_file::FileAfterRun> for AfterRun {
    fn from(value: crate::config_file::FileAfterRun) -> (r: AfterRun) {
        value.to_domain()
    }
}

impl vstd::std_specs::convert::FromSpecImpl<crate::config_file::FileAfterRun> for AfterRun {
    open spec fn obeys_from_spec() -> bool {
        true
    }

    open spec fn from_spec(v: crate::config_file::FileAfterRun) -> AfterRun {
        crate::config_file::spec_after_run_of(v)
    }
}

/// layout and behavior options
#[derive(Debug, PartialEq, Eq, Structural)]
pub struct Options {
    pub before_run: BeforeRun,
    pub after_run: AfterRun,
}

impl Default for Options {
    fn default() -> (r: Self)
        ensures
            r.before_run == (BeforeRun { clear_screen: false, newlines: 0u8 }),
            r.after_run == (AfterRun { newlines: 0u8, indicator_lines: 0u8, print_result: true }),
    {
        Options {
            before_run: BeforeRun { clear_screen: false, newlines: 0 },
            after_run: AfterRun { newlines: 0, indicator_lines: 0, print_result: true },
        }
    }
}

impl Options {
    /// fills the missing values of a raw options section with their defaults
    pub fn from_file(value: FileOptions) -> (r: Options)
        ensures
            r == crate::config_file::spec_options_of(value),
    {
        let before_run = match value.before_run {
            Some(b) => b.to_domain(),
            None => BeforeRun { clear_screen: false, newlines: 0 },
        };
        let after_run = match value.after_run {
            Some(a) => a.to_domain(),
            None => AfterRun { newlines: 0, indicator_lines: 0, print_result: true },
        };
        Options { before_run, after_run }
    }
}

impl From<FileOptions> for Options {
    fn from(value: FileOptions) -> (r: Options) {
        Options::from_file(value)
    }
}

impl vstd::std_specs::convert::FromSpecImpl<FileOptions> for Options {
    open spec fn obeys_from_spec() -> bool {
        true
    }

    open spec fn from_spec(v: FileOptions) -> Options {
        crate::config_file::spec_options_of(v)
    }
}

/// one configured rule: pattern, command template, variable definitions
#[derive(Debug)]
pub struct Action {
    pub pattern: Pattern,
    pub run: String,
    pub vars: Vec<Var>,
}

/// the variables a raw action declares
pub open spec fn spec_file_vars(value: FileAction) -> Seq<crate::config_file::FileVar> {
    match value.vars {
        Some(v) => v@,
        None => Seq::empty(),
    }
}

/// whether a raw action converts cleanly: a non-empty run template, only
/// valid filter regexes, and — except for "test-all" — a non-empty glob
/// that compiles
pub open spec fn spec_action_ok(value: FileAction) -> bool {
    &&& value.run@.len() > 0
    &&& forall|j: int|
        0 <= j < spec_file_vars(value).len() ==> regex_valid(
            #[trigger] spec_file_vars(value)[j].filter@,
        )
    &&& (value.action_type is TestAll || (value.files matches Some(f) && f@.len() > 0
        && glob_valid(f@)))
}

/// whether a converted variable carries over the raw variable's fields
pub open spec fn spec_var_converts(fv: crate::config_file::FileVar, v: Var) -> bool {
    v.name@ == fv.name@ && v.source == fv.source && v.filter@ == fv.filter@
}

/// whether a converted action is the domain form of the raw action: the
/// same run template, every declared variable carried over in order, and
/// the pattern kind and glob the action type and files field dictate
pub open spec fn spec_action_converts(value: FileAction, action: Action) -> bool {
    &&& action.run@ == value.run@
    &&& action.vars@.len() == spec_file_vars(value).len()
    &&& forall|j: int|
        0 <= j < action.vars@.len() ==> spec_var_converts(
            spec_file_vars(value)[j],
            #[trigger] action.vars@[j],
        )
    &&& match value.action_type {
        ActionType::TestAll => action.pattern is TestAll,
        ActionType::TestFile => action.pattern matches Pattern::TestFile { files }
            && value.files matches Some(f) && files@ == f@,
        ActionType::TestFileLine => action.pattern matches Pattern::TestFileLine { files }
            && value.files matches Some(f) && files@ == f@,
    }
}

impl Action {
    /// validates a raw config-file action: the run template must not be
    /// empty; every variable's filter must be a valid regex; file-matching
    /// actions must carry a non-empty glob that compiles
    #[verifier::loop_isolation(false)]
    pub fn try_from(value: FileAction) -> (r: Result<Action, UserError>)
        ensures
            r is Ok <==> spec_action_ok(value),
            r matches Ok(action) ==> spec_action_converts(value, action),
            (r matches Err(e) && e is RunCommandIsEmpty) <==> value.run@.len() == 0,
            r matches Err(e) ==> (e matches UserError::InvalidRegex { regex, .. } ==> (
            value.run@.len() > 0 && exists|j: int|
                0 <= j < spec_file_vars(value).len() && spec_file_vars(value)[j].filter@ == regex@
                    && !regex_valid(regex@))),
            r matches Err(e) ==> (e is MissingFilesInPattern ==> !(value.action_type is TestAll)
                && value.files is None),
            r matches Err(e) ==> (e is FilesIsEmpty ==> (value.files matches Some(f) && f@.len()
                == 0)),
            r matches Err(e) ==> (e matches UserError::ConfigInvalidGlob { pattern, .. } ==> (
            value.files matches Some(f) && f@ == pattern@ && !glob_valid(f@))),
            r matches Err(e) ==> (e is RunCommandIsEmpty || e matches UserError::InvalidRegex {
                ..
            } || e is MissingFilesInPattern || e is FilesIsEmpty
                || e matches UserError::ConfigInvalidGlob { .. }),
    {
        let ghost v0 = value;
        if value.run.as_str().is_empty() {
            return Err(UserError::RunCommandIsEmpty);
        }
        let ghost fvs = spec_file_vars(v0);
        let mut file_vars: Vec<crate::config_file::FileVar> = match value.vars {
            Some(v) => v,
            None => Vec::new(),
        };
        let mut vars: Vec<Var> = Vec::new();
        while file_vars.len() > 0
            invariant
                fvs == spec_file_vars(v0),
                v0.run@.len() > 0,
                vars@.len() + file_vars@.len() == fvs.len(),
                file_vars@ == fvs.skip(vars@.len() as int),
                forall|j: int|
                    0 <= j < vars@.len() ==> spec_var_converts(fvs[j], #[trigger] vars@[j]),
                forall|j: int| 0 <= j < vars@.len() ==> regex_valid(#[trigger] fvs[j].filter@),
            decreases file_vars@.len(),
        {
            let ghost k = vars@.len() as int;
            let file_var = file_vars.remove(0);
            proof {
                assert(file_var == fvs[k]);
                assert(file_vars@ =~= fvs.skip(k + 1));
            }
            match file_var.to_domain() {
                Ok(var) => {
                    vars.push(var);
                },
                Err(e) => {
                    proof {
                        assert(!spec_action_ok(v0)) by {
                            assert(0 <= k < spec_file_vars(v0).len());
                            assert(spec_file_vars(v0)[k].filter@ == file_var.filter@);
                            assert(!regex_valid(spec_file_vars(v0)[k].filter@));
                        }
                    }
                    return Err(e);
                },
            }
        }
        if matches!(value.action_type, ActionType::TestAll) {
            return Ok(Action { pattern: Pattern::TestAll, run: value.run, vars });
        }
        let files = match value.files {
            Some(files) => files,
            None => {
                return Err(UserError::MissingFilesInPattern);
            },
        };
        if files.as_str().is_empty() {
            return Err(UserError::FilesIsEmpty);
        }
        let pattern = match Glob::new(files) {
            Ok(glob) => glob,
            Err((pattern, err)) => {
                return Err(UserError::ConfigInvalidGlob { pattern, err });
            },
        };
        if matches!(value.action_type, ActionType::TestFile) {
            Ok(Action { pattern: Pattern::TestFile { files: pattern }, run: value.run, vars })
        } else {
            Ok(
                Action {
                    pattern: Pattern::TestFileLine { files: pattern },
                    run: value.run,
                    vars,
                },
            )
        }
    }
}

/// the whole validated configuration: an ordered action table and options
#[derive(Debug)]
pub struct Configuration {
    pub actions: Vec<Action>,
    pub options: Options,
}

impl Default for Configuration {
    /// an empty action table with default options
    fn default() -> (r: Self)
        ensures
            r.actions@.len() == 0,
            r.options == (Options {
                before_run: BeforeRun { clear_screen: false, newlines: 0u8 },
                after_run: AfterRun { newlines: 0u8, indicator_lines: 0u8, print_result: true },
            }),
    {
        Configuration {
            actions: Vec::new(),
            options: Options {
                before_run: BeforeRun { clear_screen: false, newlines: 0 },
                after_run: AfterRun { newlines: 0, indicator_lines: 0, print_result: true },
            },
        }
    }
}

impl Configuration {
    /// validates a raw config file: every action must convert; missing
    /// options are filled with their defaults
    #[verifier::loop_isolation(false)]
    pub fn try_from(value: FileConfiguration) -> (r: Result<Configuration, UserError>)
        ensures
            r is Ok <==> forall|j: int|
                0 <= j < value.actions@.len() ==> spec_action_ok(#[trigger] value.actions@[j]),
            r matches Err(e) ==> (e is RunCommandIsEmpty || e matches UserError::InvalidRegex {
                ..
            } || e is MissingFilesInPattern || e is FilesIsEmpty
                || e matches UserError::ConfigInvalidGlob { .. }),
            r matches Ok(config) ==> {
                &&& config.actions@.len() == value.actions@.len()
                &&& forall|j: int|
                    0 <= j < value.actions@.len() ==> spec_action_converts(
                        value.actions@[j],
                        #[trigger] config.actions@[j],
                    )
                &&& config.options == (match value.options {
                    Some(o) => crate::config_file::spec_options_of(o),
                    None => Options {
                        before_run: BeforeRun { clear_screen: false, newlines: 0u8 },
                        after_run: AfterRun {
                            newlines: 0u8,
                            indicator_lines: 0u8,
                            print_result: true,
                        },
                    },
                })
            },
    {
        let ghost v0 = value;
        let ghost fas = v0.actions@;
        let mut file_actions: Vec<FileAction> = value.actions;
        let mut actions: Vec<Action> = Vec::new();
        while file_actions.len() > 0
            invariant
                fas == v0.actions@,
                actions@.len() + file_actions@.len() == fas.len(),
                file_actions@ == fas.skip(actions@.len() as int),
                forall|j: int| 0 <= j < actions@.len() ==> spec_action_ok(#[trigger] fas[j]),
                forall|j: int|
                    0 <= j < actions@.len() ==> spec_action_converts(
                        fas[j],
                        #[trigger] actions@[j],
                    ),
            decreases file_actions@.len(),
        {
            let file_action = file_actions.remove(0);
            proof {
                assert(file_action == fas[actions@.len() as int]);
                assert(file_actions@ =~= fas.skip(actions@.len() + 1 as int));
            }
            match Action::try_from(file_action) {
                Ok(action) => {
                    actions.push(action);
                },
                Err(e) => {
                    proof {
                        let k = actions@.len() as int;
                        assert(0 <= k < v0.actions@.len());
                        assert(!spec_action_ok(v0.actions@[k]));
                    }
                    return Err(e);
                },
            }
        }
        let options = match value.options {
            Some(o) => Options::from_file(o),
            None => Options {
                before_run: BeforeRun { clear_screen: false, newlines: 0 },
                after_run: AfterRun { newlines: 0, indicator_lines: 0, print_result: true },
            },
        };
        Ok(Configuration { actions, options })
    }
}

} // verus!
