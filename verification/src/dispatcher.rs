//! The run loop's decision core: a state machine that consumes the events
//! of the run loop (a line received from the pipe, an interrupt) and tells
//! the surrounding I/O layer what to do next — echo, report an error, read
//! a file, run a command, or stop. The I/O layer performs each instruction
//! and feeds the answer back; it processes one line to completion before
//! consuming the next event, so two triggers never run concurrently.

use crate::config::Configuration;
use crate::errors::UserError;
use crate::resolve::{error_matches, last_view, progress_matches, resume_scan, spec_resolve,
    ResolveProgress, ResolveState, SpecProgress};
use crate::trigger::{spec_trigger_of, FifoTrigger, Trigger};
use vstd::prelude::*;

verus! {

/// what handling one line of input ended in
#[derive(Debug, PartialEq, Eq)]
pub enum RunOutcome {
    /// keep listening for triggers
    ContinueTesting,
    /// shut the server down
    Quit,
}

/// the states of the dispatcher
#[derive(Clone, Copy, Debug, PartialEq, Eq, Structural)]
pub enum DispatcherState {
    /// waiting for the next event
    Listening,
    /// a resolution is suspended on a file read
    Dispatching,
    /// the loop has ended
    Terminated,
}

/// the instruction the dispatcher hands to the I/O layer
pub enum Step {
    /// debug mode: print the received line, nothing else
    Echo { line: String },
    /// nothing to do for this event (a `quit` trigger is a local no-op,
    /// not a shutdown)
    Quiet,
    /// report this per-trigger error to the user and keep listening
    Report { error: UserError },
    /// read the file at `path` and resume via `provide_file`
    NeedFile { path: String },
    /// the resolved command: decorate, execute, decorate; the repeat slot
    /// already holds it
    Run { command: String },
    /// the exit signal was received: end the loop
    Stop,
}

/// The decision core of the run loop. It owns the configuration and the
/// repeat slot; the repeat slot is overwritten exactly when a resolution
/// succeeds, so a repeat request never repeats a command that failed to
/// resolve.
pub struct Dispatcher {
    pub config: Configuration,
    pub debug: bool,
    pub last_command: Option<String>,
    pub state: DispatcherState,
    pub pending: Option<ResolveState>,
}

/// how the dispatcher's fields and its answer follow from one resolution
/// outcome: a resolved command is recorded in the repeat slot and handed
/// out to run; a failure is reported and changes nothing; a needed file
/// suspends the resolution
pub open spec fn resolution_step(
    cfg: Configuration,
    s: SpecProgress,
    r: Step,
    old_last: Option<String>,
    d: Dispatcher,
) -> bool {
    match s {
        SpecProgress::Done(c) => {
            &&& r matches Step::Run { command } && command@ == c
            &&& d.last_command matches Some(lc) && lc@ == c
            &&& d.state is Listening
            &&& d.pending is None
        },
        SpecProgress::Failed(se) => {
            &&& r matches Step::Report { error } && error_matches(error, se)
            &&& d.last_command == old_last
            &&& d.state is Listening
            &&& d.pending is None
        },
        SpecProgress::Need { .. } => {
            &&& r matches Step::NeedFile { path } && (d.pending matches Some(st)
                && progress_matches(ResolveProgress::NeedFile { path, state: st }, s, cfg))
            &&& d.last_command == old_last
            &&& d.state is Dispatching
        },
    }
}

impl Dispatcher {
    /// a suspended resolution exists exactly while dispatching
    pub open spec fn wf(self) -> bool {
        match self.state {
            DispatcherState::Dispatching => self.pending matches Some(st) && st.wf(self.config),
            _ => self.pending is None,
        }
    }

    /// a dispatcher that listens, with an empty repeat slot
    pub fn new(config: Configuration, debug: bool) -> (r: Dispatcher)
        ensures
            r.wf(),
            r.config == config,
            r.debug == debug,
            r.last_command is None,
            r.state is Listening,
    {
        Dispatcher { config, debug, last_command: None, state: DispatcherState::Listening, pending: None }
    }

    /// consumes the exit signal: the loop ends, whatever was in flight
    pub fn on_exit(&mut self) -> (r: Step)
        ensures
            final(self).wf(),
            final(self).state is Terminated,
            final(self).config == old(self).config,
            final(self).debug == old(self).debug,
            final(self).last_command == old(self).last_command,
            r is Stop,
    {
        self.state = DispatcherState::Terminated;
        self.pending = None;
        Step::Stop
    }

    /// consumes one received line, already decoded by the I/O layer into
    /// the wire fields (or the decode error). In debug mode the line is
    /// echoed, never parsed or executed. Otherwise the fields become a
    /// typed trigger: a malformed line or unknown command is reported and
    /// the loop continues; a `quit` trigger does nothing; every other
    /// trigger is resolved, and a resolved command is recorded in the
    /// repeat slot before it is handed out to run.
    pub fn on_line(&mut self, line: String, parsed: Result<FifoTrigger, UserError>) -> (r: Step)
        requires
            old(self).wf(),
            old(self).state is Listening,
        ensures
            final(self).wf(),
            final(self).config == old(self).config,
            final(self).debug == old(self).debug,
            old(self).debug ==> (r matches Step::Echo { line: l } && l == line && *final(self)
                == *old(self)),
            !old(self).debug ==> (match parsed {
                Err(e) => r matches Step::Report { error } && error == e && *final(self)
                    == *old(self),
                Ok(fifo) => (match spec_trigger_of(fifo) {
                    Err(e) => r matches Step::Report { error } && error == e && *final(self)
                        == *old(self),
                    Ok(t) => {
                        if t is Quit {
                            r is Quiet && *final(self) == *old(self)
                        } else {
                            resolution_step(
                                old(self).config,
                                spec_resolve(old(self).config, t, last_view(old(self).last_command)),
                                r,
                                old(self).last_command,
                                *final(self),
                            )
                        }
                    },
                }),
            }),
    {
        if self.debug {
            return Step::Echo { line };
        }
        let fifo = match parsed {
            Ok(fifo) => fifo,
            Err(error) => {
                return Step::Report { error };
            },
        };
        let trigger = match Trigger::try_from_fifo(fifo) {
            Ok(trigger) => trigger,
            Err(error) => {
                return Step::Report { error };
            },
        };
        if matches!(trigger, Trigger::Quit) {
            return Step::Quiet;
        }
        let progress = self.config.get_command(&trigger, &self.last_command);
        self.finish(progress)
    }

    /// consumes the text of the file that the suspended resolution asked
    /// for and carries the resolution on
    pub fn provide_file(&mut self, content: String) -> (r: Step)
        requires
            old(self).wf(),
            old(self).state is Dispatching,
        ensures
            final(self).wf(),
            final(self).config == old(self).config,
            final(self).debug == old(self).debug,
            old(self).pending matches Some(st) ==> resolution_step(
                old(self).config,
                resume_scan(
                    old(self).config.actions@[st.action_idx as int].run@,
                    old(self).config.actions@[st.action_idx as int].vars@,
                    st.var_idx as int,
                    st.start as int,
                    st.values@,
                    content@,
                ),
                r,
                old(self).last_command,
                *final(self),
            ),
    {
        let st = match self.pending.take() {
            Some(st) => st,
            None => {
                proof {
                    assert(false);
                }
                return Step::Stop;
            },
        };
        self.state = DispatcherState::Listening;
        let progress = self.config.resolve_continue(st, content);
        self.finish(progress)
    }

    /// folds one resolution outcome into the dispatcher's fields
    fn finish(&mut self, progress: ResolveProgress) -> (r: Step)
        requires
            old(self).state is Listening,
            old(self).pending is None,
            (progress matches ResolveProgress::NeedFile { state, .. } ==> state.wf(
                old(self).config,
            )),
        ensures
            final(self).wf(),
            final(self).config == old(self).config,
            final(self).debug == old(self).debug,
            (match progress {
                ResolveProgress::Done(c) => {
                    &&& r matches Step::Run { command } && command == c
                    &&& final(self).last_command == Some(c)
                    &&& final(self).state is Listening
                    &&& final(self).pending is None
                },
                ResolveProgress::Failed(e) => {
                    &&& r matches Step::Report { error } && error == e
                    &&& final(self).last_command == old(self).last_command
                    &&& final(self).state is Listening
                    &&& final(self).pending is None
                },
                ResolveProgress::NeedFile { path, state } => {
                    &&& r matches Step::NeedFile { path: p } && p == path
                    &&& final(self).pending == Some(state)
                    &&& final(self).last_command == old(self).last_command
                    &&& final(self).state is Dispatching
                },
            }),
    {
        match progress {
            ResolveProgress::Done(command) => {
                self.last_command = Some(command.clone());
                Step::Run { command }
            },
            ResolveProgress::Failed(error) => Step::Report { error },
            ResolveProgress::NeedFile { path, state } => {
                self.pending = Some(state);
                self.state = DispatcherState::Dispatching;
                Step::NeedFile { path }
            },
        }
    }
}

} // verus!
