//! Resolving a trigger to a shell command: scan the configured actions in
//! order, take the first whose pattern accepts the trigger, compute its
//! variables, and substitute them into the command template.
//!
//! Computing a variable from file content needs that file's text, and
//! reading files is I/O that lives outside this library. Resolution is
//! therefore a small state machine: it either finishes, or hands back the
//! path it needs; the caller reads the file and resumes with the text.

use crate::config::{Action, Configuration, Var, VarSource};
use crate::errors::UserError;
use crate::regexes::{apply_filter, FilterHit, SpecFilterHit};
use crate::scanner::{scan_lines_upward, scan_up, ScanOutcome, SpecScan};
use crate::template::{spec_substitute, substitute, VarValues};
use crate::text::{decimal_string, decimal_val, is_decimal_seq, parse_u32, spec_decimal,
    spec_split_lines, split_lines};
use crate::trigger::Trigger;
use vstd::prelude::*;
use vstd::string::StringExecFns;

verus! {

/// spec-level rendering of the errors that resolution can produce
pub enum SpecResolveError {
    FileNameNotAvailable,
    LineNotAvailable,
    NoCommandToRepeat,
    LineIsNotANumber { line: Seq<char> },
    TooManyCaptures { count: int, regex: Seq<char>, line: Seq<char> },
    RegexNotFound { regex: Seq<char>, filename: Seq<char>, line: int },
    UnknownTrigger { source: Seq<char> },
}

/// whether a resolution error is the one the spec names
pub open spec fn error_matches(e: UserError, s: SpecResolveError) -> bool {
    match s {
        SpecResolveError::FileNameNotAvailable => e is FileNameNotAvailable,
        SpecResolveError::LineNotAvailable => e is LineNotAvailable,
        SpecResolveError::NoCommandToRepeat => e is NoCommandToRepeat,
        SpecResolveError::LineIsNotANumber { line } => e matches UserError::LineIsNotANumber {
            line: el,
        } && el@ == line,
        SpecResolveError::TooManyCaptures { count, regex, line } => e
            matches UserError::TriggerTooManyCaptures { count: ec, regex: er, line: el } && ec
            as int == count && er@ == regex && el@ == line,
        SpecResolveError::RegexNotFound { regex, filename, line } => e
            matches UserError::TriggerRegexNotFound { regex: er, filename: ef, line: el } && er@
            == regex && ef@ == filename && el as int == line,
        SpecResolveError::UnknownTrigger { source } => e matches UserError::UnknownTrigger {
            source: es,
        } && es@ == source,
    }
}

/// spec-level progress of one resolution
pub enum SpecProgress {
    /// the resolved command
    Done(Seq<char>),
    /// resolution failed; the trigger is treated as a failed run
    Failed(SpecResolveError),
    /// a variable needs the text of the file named in the values; `idx` is
    /// the variable waiting for it and `start` the line to scan up from
    Need {
        run: Seq<char>,
        vars: Seq<Var>,
        idx: int,
        start: int,
        values: Map<Seq<char>, Seq<char>>,
    },
}

/// the values seeded from the trigger before any variable is computed: the
/// trigger's file, and its line rendered in decimal, when it carries them
pub open spec fn seed_values(trigger: Trigger) -> Map<Seq<char>, Seq<char>> {
    match trigger {
        Trigger::TestFile { file } => Map::empty().insert("file"@, file@),
        Trigger::TestFileLine { file, line } => Map::empty().insert("file"@, file@).insert(
            "line"@,
            spec_decimal(line as int),
        ),
        _ => Map::empty(),
    }
}

/// spec-level outcome of computing one variable
pub enum SpecVarStep {
    /// the variable's value
    Value(Seq<char>),
    /// the variable scans file content: its computation needs the text of
    /// the file at `path`, scanned up from line `start`
    Need { path: Seq<char>, start: int },
    /// the variable cannot be computed
    Fail(SpecResolveError),
}

/// what computing one variable from the values accumulated so far yields:
/// a `file` or `line` sourced variable applies its filter to that value
/// (a miss yields the empty string, more than one capture group fails); a
/// content-scanning variable asks for the named file's text, with the line
/// value read as a decimal number
pub open spec fn spec_calculate_var(var: Var, values: Map<Seq<char>, Seq<char>>) -> SpecVarStep {
    match var.source {
        VarSource::File => {
            if !values.contains_key("file"@) {
                SpecVarStep::Fail(SpecResolveError::FileNameNotAvailable)
            } else {
                match apply_filter(var.filter@, values["file"@]) {
                    SpecFilterHit::Miss => SpecVarStep::Value(Seq::empty()),
                    SpecFilterHit::Hit(v) => SpecVarStep::Value(v),
                    SpecFilterHit::TooMany(n) => SpecVarStep::Fail(
                        SpecResolveError::TooManyCaptures {
                            count: n,
                            regex: var.filter@,
                            line: values["file"@],
                        },
                    ),
                }
            }
        },
        VarSource::Line => {
            if !values.contains_key("line"@) {
                SpecVarStep::Fail(SpecResolveError::LineNotAvailable)
            } else {
                match apply_filter(var.filter@, values["line"@]) {
                    SpecFilterHit::Miss => SpecVarStep::Value(Seq::empty()),
                    SpecFilterHit::Hit(v) => SpecVarStep::Value(v),
                    SpecFilterHit::TooMany(n) => SpecVarStep::Fail(
                        SpecResolveError::TooManyCaptures {
                            count: n,
                            regex: var.filter@,
                            line: values["line"@],
                        },
                    ),
                }
            }
        },
        VarSource::CurrentOrAboveLineContent => {
            if !values.contains_key("file"@) {
                SpecVarStep::Fail(SpecResolveError::FileNameNotAvailable)
            } else if !values.contains_key("line"@) {
                SpecVarStep::Fail(SpecResolveError::LineNotAvailable)
            } else if !(is_decimal_seq(values["line"@]) && decimal_val(values["line"@])
                <= u32::MAX) {
                SpecVarStep::Fail(SpecResolveError::LineIsNotANumber { line: values["line"@] })
            } else {
                SpecVarStep::Need {
                    path: values["file"@],
                    start: decimal_val(values["line"@]),
                }
            }
        },
    }
}

/// computes the variables of an action from `idx` on: each variable's value
/// is inserted under its name, so later variables and the template can
/// reference earlier ones; a content-scanning variable suspends resolution
pub open spec fn advance_vars(
    run: Seq<char>,
    vars: Seq<Var>,
    idx: int,
    values: Map<Seq<char>, Seq<char>>,
) -> SpecProgress
    decreases vars.len() - idx when 0 <= idx <= vars.len()
{
    if idx >= vars.len() {
        SpecProgress::Done(spec_substitute(run, values))
    } else {
        match spec_calculate_var(vars[idx], values) {
            SpecVarStep::Value(v) => advance_vars(
                run,
                vars,
                idx + 1,
                values.insert(vars[idx].name@, v),
            ),
            SpecVarStep::Need { path, start } => SpecProgress::Need {
                run,
                vars,
                idx,
                start,
                values,
            },
            SpecVarStep::Fail(e) => SpecProgress::Failed(e),
        }
    }
}

/// resumes a suspended resolution with the text of the requested file: the
/// lines are scanned from one above the starting line toward the first
/// line (a starting line beyond the text scans all of it); the first
/// capture-group match becomes the variable's value, and an exhausted scan
/// is an error naming the filter, the file, and the starting line
pub open spec fn resume_scan(
    run: Seq<char>,
    vars: Seq<Var>,
    idx: int,
    start: int,
    values: Map<Seq<char>, Seq<char>>,
    content: Seq<char>,
) -> SpecProgress
    recommends
        0 <= idx < vars.len(),
        values.contains_key("file"@),
{
    let lines = spec_split_lines(content);
    let eff = if start <= lines.len() {
        start
    } else {
        lines.len() as int
    };
    match scan_up(vars[idx].filter@, lines, eff - 1) {
        SpecScan::NotFound => SpecProgress::Failed(
            SpecResolveError::RegexNotFound {
                regex: vars[idx].filter@,
                filename: values["file"@],
                line: start,
            },
        ),
        SpecScan::Found(v) => advance_vars(run, vars, idx + 1, values.insert(vars[idx].name@, v)),
        SpecScan::TooMany { count, line } => SpecProgress::Failed(
            SpecResolveError::TooManyCaptures { count, regex: vars[idx].filter@, line },
        ),
    }
}

/// the first action whose pattern accepts the trigger, from `i` on
pub open spec fn first_match_from(actions: Seq<Action>, trigger: Trigger, i: int) -> Option<int>
    decreases actions.len() - i when 0 <= i <= actions.len()
{
    if i >= actions.len() {
        None
    } else if actions[i].pattern.spec_matches(trigger) {
        Some(i)
    } else {
        first_match_from(actions, trigger, i + 1)
    }
}

/// the first action whose pattern accepts the trigger
pub open spec fn first_match(actions: Seq<Action>, trigger: Trigger) -> Option<int> {
    first_match_from(actions, trigger, 0)
}

/// Law: action order is match priority. The resolved action is the first
/// whose pattern accepts the trigger — every earlier action rejects it —
/// and when none is found, no action accepts the trigger at all.
pub proof fn lemma_first_match_is_priority(actions: Seq<Action>, trigger: Trigger)
    ensures
        first_match(actions, trigger) matches Some(i) ==> 0 <= i < actions.len()
            && actions[i].pattern.spec_matches(trigger) && forall|j: int|
            0 <= j < i ==> !(#[trigger] actions[j].pattern.spec_matches(trigger)),
        first_match(actions, trigger) is None ==> forall|j: int|
            0 <= j < actions.len() ==> !(#[trigger] actions[j].pattern.spec_matches(trigger)),
{
    lemma_first_match_from(actions, trigger, 0);
}

proof fn lemma_first_match_from(actions: Seq<Action>, trigger: Trigger, i: int)
    requires
        0 <= i <= actions.len(),
    ensures
        first_match_from(actions, trigger, i) matches Some(k) ==> i <= k < actions.len()
            && actions[k].pattern.spec_matches(trigger) && forall|j: int|
            i <= j < k ==> !(#[trigger] actions[j].pattern.spec_matches(trigger)),
        first_match_from(actions, trigger, i) is None ==> forall|j: int|
            i <= j < actions.len() ==> !(#[trigger] actions[j].pattern.spec_matches(trigger)),
    decreases actions.len() - i,
{
    if i < actions.len() && !actions[i].pattern.spec_matches(trigger) {
        lemma_first_match_from(actions, trigger, i + 1);
    }
}

/// the view of the repeat slot
pub open spec fn last_view(last: Option<String>) -> Option<Seq<char>> {
    match last {
        Some(s) => Some(s@),
        None => None,
    }
}

/// what resolving a trigger yields: a repeat request returns the recorded
/// command and fails when none was recorded; a custom command is returned
/// verbatim; every other trigger is matched against the actions in order
/// and the first match's template is filled in; with no match the trigger
/// is unknown
pub open spec fn spec_resolve(
    config: Configuration,
    trigger: Trigger,
    last: Option<Seq<char>>,
) -> SpecProgress {
    if trigger is RepeatLastTest {
        match last {
            Some(c) => SpecProgress::Done(c),
            None => SpecProgress::Failed(SpecResolveError::NoCommandToRepeat),
        }
    } else {
        match trigger {
            Trigger::CustomCommand { run } => SpecProgress::Done(run@),
            _ => match first_match(config.actions@, trigger) {
                None => SpecProgress::Failed(
                    SpecResolveError::UnknownTrigger { source: trigger.spec_render() },
                ),
                Some(i) => advance_vars(
                    config.actions@[i].run@,
                    config.actions@[i].vars@,
                    0,
                    seed_values(trigger),
                ),
            },
        }
    }
}

/// Law: repeat semantics. A repeat request before any recorded command
/// fails with `NoCommandToRepeat`; once a command is recorded, a repeat
/// request resolves to exactly that string, whatever the configuration.
pub proof fn lemma_repeat_semantics(config: Configuration, recorded: Seq<char>)
    ensures
        spec_resolve(config, Trigger::RepeatLastTest, None) == SpecProgress::Failed(
            SpecResolveError::NoCommandToRepeat,
        ),
        spec_resolve(config, Trigger::RepeatLastTest, Some(recorded)) == SpecProgress::Done(
            recorded,
        ),
{
}

/// A suspended resolution: which action and variable wait for file text,
/// the line to scan up from, and the values computed so far.
pub struct ResolveState {
    pub action_idx: usize,
    pub var_idx: usize,
    pub start: usize,
    pub values: VarValues,
}

impl ResolveState {
    /// a suspended resolution always points at a content-scanning variable
    /// of a real action and knows which file to read
    pub open spec fn wf(self, config: Configuration) -> bool {
        &&& self.action_idx < config.actions@.len()
        &&& self.var_idx < config.actions@[self.action_idx as int].vars@.len()
        &&& config.actions@[self.action_idx as int].vars@[self.var_idx as int].source
            is CurrentOrAboveLineContent
        &&& self.values@.contains_key("file"@)
    }
}

/// the progress of one resolution
pub enum ResolveProgress {
    /// the resolved command
    Done(String),
    /// resolution failed; the trigger is treated as a failed run
    Failed(UserError),
    /// the caller must read the file at `path` and resume with its text
    NeedFile { path: String, state: ResolveState },
}

/// whether an exec resolution step took the progress the spec names
pub open spec fn progress_matches(
    r: ResolveProgress,
    s: SpecProgress,
    config: Configuration,
) -> bool {
    match r {
        ResolveProgress::Done(c) => s matches SpecProgress::Done(sc) && c@ == sc,
        ResolveProgress::Failed(e) => s matches SpecProgress::Failed(se) && error_matches(e, se),
        ResolveProgress::NeedFile { path, state } => s matches SpecProgress::Need {
            run,
            vars,
            idx,
            start,
            values,
        } && {
            &&& state.wf(config)
            &&& config.actions@[state.action_idx as int].run@ == run
            &&& config.actions@[state.action_idx as int].vars@ == vars
            &&& state.var_idx as int == idx
            &&& state.start as int == start
            &&& state.values@ == values
            &&& path@ == values["file"@]
        },
    }
}

/// the outcome of computing one variable
pub enum VarCalculation {
    /// the variable's value
    Value(String),
    /// the variable scans file content: the caller must read the file at
    /// `path` and scan its lines up from line `start`
    NeedFileScan { path: String, start: usize },
}

impl Var {
    /// computes this variable's value from the values accumulated so far:
    /// a `file` or `line` sourced variable applies the filter to that value
    /// and fails when the trigger did not provide it; a content-scanning
    /// variable asks for the text of the named file instead
    pub fn calculate_var(&self, values: &VarValues) -> (r: Result<VarCalculation, UserError>)
        ensures
            (match spec_calculate_var(*self, values@) {
                SpecVarStep::Value(v) => r matches Ok(c) && (c matches VarCalculation::Value(s)
                    && s@ == v),
                SpecVarStep::Need { path, start } => r matches Ok(c) && (
                c matches VarCalculation::NeedFileScan { path: p, start: st } && p@ == path && st
                    as int == start),
                SpecVarStep::Fail(e) => r matches Err(err) && error_matches(err, e),
            }),
    {
        match self.source {
            VarSource::File => {
                let text = match values.get("file") {
                    Some(t) => t.clone(),
                    None => {
                        return Err(UserError::FileNameNotAvailable);
                    },
                };
                match self.filter.apply(text.as_str()) {
                    FilterHit::Miss => Ok(VarCalculation::Value(String::new())),
                    FilterHit::Hit(v) => Ok(VarCalculation::Value(v)),
                    FilterHit::TooMany(count) => Err(
                        UserError::TriggerTooManyCaptures {
                            count,
                            regex: self.filter.as_str().to_owned(),
                            line: text,
                        },
                    ),
                }
            },
            VarSource::Line => {
                let text = match values.get("line") {
                    Some(t) => t.clone(),
                    None => {
                        return Err(UserError::LineNotAvailable);
                    },
                };
                match self.filter.apply(text.as_str()) {
                    FilterHit::Miss => Ok(VarCalculation::Value(String::new())),
                    FilterHit::Hit(v) => Ok(VarCalculation::Value(v)),
                    FilterHit::TooMany(count) => Err(
                        UserError::TriggerTooManyCaptures {
                            count,
                            regex: self.filter.as_str().to_owned(),
                            line: text,
                        },
                    ),
                }
            },
            VarSource::CurrentOrAboveLineContent => {
                let path = match values.get("file") {
                    Some(t) => t.clone(),
                    None => {
                        return Err(UserError::FileNameNotAvailable);
                    },
                };
                let line_text = match values.get("line") {
                    Some(t) => t.clone(),
                    None => {
                        return Err(UserError::LineNotAvailable);
                    },
                };
                match parse_u32(line_text.as_str()) {
                    None => Err(UserError::LineIsNotANumber { line: line_text }),
                    Some(start) => Ok(
                        VarCalculation::NeedFileScan { path, start: start as usize },
                    ),
                }
            },
        }
    }
}

impl Configuration {
    /// computes the variables of the chosen action from `start_idx` on and,
    /// when none suspends, fills the command template in
    #[verifier::loop_isolation(false)]
    fn run_vars(&self, action_idx: usize, start_idx: usize, values: VarValues) -> (r:
        ResolveProgress)
        requires
            action_idx < self.actions@.len(),
            start_idx <= self.actions@[action_idx as int].vars@.len(),
        ensures
            progress_matches(
                r,
                advance_vars(
                    self.actions@[action_idx as int].run@,
                    self.actions@[action_idx as int].vars@,
                    start_idx as int,
                    values@,
                ),
                *self,
            ),
    {
        let ghost run0 = self.actions@[action_idx as int].run@;
        let ghost vars0 = self.actions@[action_idx as int].vars@;
        let ghost values0 = values@;
        let action = &self.actions[action_idx];
        let mut values = values;
        let mut idx = start_idx;
        while idx < action.vars.len()
            invariant
                start_idx <= idx <= vars0.len(),
                advance_vars(run0, vars0, start_idx as int, values0) == advance_vars(
                    run0,
                    vars0,
                    idx as int,
                    values@,
                ),
            decreases vars0.len() - idx,
        {
            let var = &action.vars[idx];
            match var.calculate_var(&values) {
                Ok(VarCalculation::Value(v)) => {
                    values.insert(var.name.clone(), v);
                },
                Ok(VarCalculation::NeedFileScan { path, start }) => {
                    return ResolveProgress::NeedFile {
                        path,
                        state: ResolveState { action_idx, var_idx: idx, start, values },
                    };
                },
                Err(e) => {
                    return ResolveProgress::Failed(e);
                },
            }
            idx = idx + 1;
        }
        ResolveProgress::Done(substitute(action.run.as_str(), &values))
    }

    /// resolves a trigger to the command to run: a repeat request returns
    /// the recorded command (failing with `NoCommandToRepeat` when none
    /// is recorded yet), a custom command is returned verbatim, and every
    /// other trigger is matched against the actions in declared order — the
    /// first action whose pattern accepts it wins, its variables are
    /// computed, and its template is filled in; with no matching action the
    /// trigger is unknown. This call never changes the repeat slot: the
    /// caller records the command after a successful run of the full
    /// resolution, so a repeat never repeats a command that failed to
    /// resolve.
    pub fn get_command(&self, trigger: &Trigger, last_command: &Option<String>) -> (r:
        ResolveProgress)
        ensures
            progress_matches(r, spec_resolve(*self, *trigger, last_view(*last_command)), *self),
    {
        if matches!(trigger, Trigger::RepeatLastTest) {
            return match last_command {
                Some(c) => ResolveProgress::Done(c.clone()),
                None => ResolveProgress::Failed(UserError::NoCommandToRepeat),
            };
        }
        if let Trigger::CustomCommand { run } = trigger {
            return ResolveProgress::Done(run.clone());
        }
        let mut i: usize = 0;
        while i < self.actions.len()
            invariant
                i <= self.actions@.len(),
                first_match(self.actions@, *trigger) == first_match_from(
                    self.actions@,
                    *trigger,
                    i as int,
                ),
            decreases self.actions@.len() - i,
        {
            if self.actions[i].pattern.matches_trigger(trigger) {
                let mut values = VarValues::new();
                match trigger {
                    Trigger::TestFile { file } => {
                        values.insert(String::from_str("file"), file.clone());
                    },
                    Trigger::TestFileLine { file, line } => {
                        values.insert(String::from_str("file"), file.clone());
                        values.insert(String::from_str("line"), decimal_string(*line as u64));
                    },
                    _ => {},
                }
                proof {
                    assert(values@ =~= seed_values(*trigger));
                }
                return self.run_vars(i, 0, values);
            }
            i = i + 1;
        }
        ResolveProgress::Failed(UserError::UnknownTrigger { source: trigger.render() })
    }

    /// resumes a suspended resolution with the text of the requested file
    pub fn resolve_continue(&self, state: ResolveState, content: String) -> (r: ResolveProgress)
        requires
            state.wf(*self),
        ensures
            progress_matches(
                r,
                resume_scan(
                    self.actions@[state.action_idx as int].run@,
                    self.actions@[state.action_idx as int].vars@,
                    state.var_idx as int,
                    state.start as int,
                    state.values@,
                    content@,
                ),
                *self,
            ),
    {
        let action = &self.actions[state.action_idx];
        let var = &action.vars[state.var_idx];
        let lines = split_lines(content.as_str());
        let eff: usize = if state.start <= lines.len() {
            state.start
        } else {
            lines.len()
        };
        match scan_lines_upward(&var.filter, &lines, eff) {
            ScanOutcome::NotFound => {
                let filename = match state.values.get("file") {
                    Some(f) => f.clone(),
                    None => {
                        proof {
                            assert(false);
                        }
                        String::new()
                    },
                };
                ResolveProgress::Failed(
                    UserError::TriggerRegexNotFound {
                        regex: var.filter.as_str().to_owned(),
                        filename,
                        line: state.start,
                    },
                )
            },
            ScanOutcome::Found(v) => {
                let mut values = state.values;
                values.insert(var.name.clone(), v);
                let n = action.vars.len();
                proof {
                    assert(state.var_idx < n);
                }
                self.run_vars(state.action_idx, state.var_idx + 1, values)
            },
            ScanOutcome::TooMany { count, line } => ResolveProgress::Failed(
                UserError::TriggerTooManyCaptures {
                    count,
                    regex: var.filter.as_str().to_owned(),
                    line,
                },
            ),
        }
    }
}

} // verus!
